//! Bytes on the wire to a session: the payload type, and the two encodings that the
//! router's sequences are made of, decimal numbers and UTF-8 characters.

use vstd::prelude::*;
use vstd::utf8::encode_scalar;
use crate::geometry::Overlay;

verus! {

/// `bytes::Bytes`, the payload that travels to a session: carried as it is, never
/// looked into.
#[verifier::external_type_specification]
#[verifier::external_body]
pub struct ExBytes(bytes::Bytes);

/// The bytes that a payload holds, in order.
pub uninterp spec fn payload_bytes(payload: bytes::Bytes) -> Seq<u8>;

/// Wraps a byte vector as a payload through `Bytes::from`, which keeps the vector's
/// bytes as they are.
#[verifier::external_body]
pub(crate) fn payload_from(bytes: Vec<u8>) -> (payload: bytes::Bytes)
    ensures
        payload_bytes(payload) == bytes@,
{
    bytes::Bytes::from(bytes)
}

/// What the caller of a handler is to do once the handler has returned.
#[derive(Debug)]
pub enum Action {
    /// Nothing.
    Nothing,
    /// Send these bytes to the session that has the input.
    Forward(bytes::Bytes),
    /// Push this size, as rows and columns of the overlay, to the tenant's session.
    Resize(u16, u16),
}

/// An [`Action`] as a plain value: its payload by the bytes it holds.
pub enum Effect {
    Nothing,
    Forward(Seq<u8>),
    Resize(u16, u16),
}

/// What an event leaves behind: the tenant's window, whether it shows, and what is to
/// be done for the sessions.
pub struct Outcome {
    pub tenant: Overlay,
    pub visible: bool,
    pub effect: Effect,
}

impl View for Action {
    type V = Effect;

    open spec fn view(&self) -> Effect {
        match *self {
            Action::Nothing => Effect::Nothing,
            Action::Forward(payload) => Effect::Forward(payload_bytes(payload)),
            Action::Resize(rows, cols) => Effect::Resize(rows, cols),
        }
    }
}

impl Action {
    /// The action that forwards `bytes`.
    pub fn forward(bytes: Vec<u8>) -> (action: Action)
        ensures
            action@ == Effect::Forward(bytes@),
    {
        Action::Forward(payload_from(bytes))
    }

    /// The action that pushes `size`, if there is one to push.
    pub fn resize(size: Option<(u16, u16)>) -> (action: Action)
        ensures
            action@ == match size {
                Some((rows, cols)) => Effect::Resize(rows, cols),
                None => Effect::Nothing,
            },
    {
        match size {
            Some((rows, cols)) => Action::Resize(rows, cols),
            None => Action::Nothing,
        }
    }
}

/// The ASCII digit for `d`.
pub open spec fn digit(d: nat) -> u8
    recommends
        d < 10,
{
    (48 + d) as u8
}

/// `n` written in decimal digits, without leading zeros.
pub open spec fn decimal(n: nat) -> Seq<u8>
    decreases n,
{
    if n < 10 {
        seq![digit(n)]
    } else {
        decimal(n / 10).push(digit(n % 10))
    }
}

/// Appends `n` in decimal digits to `out`.
pub fn push_decimal(out: &mut Vec<u8>, n: u32)
    ensures
        final(out)@ == old(out)@ + decimal(n as nat),
    decreases n,
{
    if n >= 10 {
        push_decimal(out, n / 10);
    }
    let d: u8 = (n % 10) as u8;
    out.push(48 + d);
    proof {
        if n >= 10 {
            assert(final(out)@ =~= old(out)@ + decimal((n / 10) as nat).push(digit((n % 10) as nat)));
        } else {
            assert(final(out)@ =~= old(out)@ + seq![digit(n as nat)]);
        }
    }
}

/// The UTF-8 encoding of `c`.
pub open spec fn utf8(c: char) -> Seq<u8> {
    encode_scalar(c as u32)
}

/// Appends the UTF-8 encoding of `c` to `out`.
pub fn push_utf8(out: &mut Vec<u8>, c: char)
    ensures
        final(out)@ == old(out)@ + utf8(c),
{
    let v: u32 = c as u32;
    if v <= 0x7F {
        out.push((v & 0x7F) as u8);
        assert(final(out)@ =~= old(out)@ + utf8(c));
    } else if v <= 0x7FF {
        out.push(0xC0 | ((v >> 6) & 0x1F) as u8);
        out.push(0x80 | (v & 0x3F) as u8);
        assert(final(out)@ =~= old(out)@ + utf8(c));
    } else if v <= 0xFFFF {
        out.push(0xE0 | ((v >> 12) & 0x0F) as u8);
        out.push(0x80 | ((v >> 6) & 0x3F) as u8);
        out.push(0x80 | (v & 0x3F) as u8);
        assert(final(out)@ =~= old(out)@ + utf8(c));
    } else {
        out.push(0xF0 | ((v >> 18) & 0x7) as u8);
        out.push(0x80 | ((v >> 12) & 0x3F) as u8);
        out.push(0x80 | ((v >> 6) & 0x3F) as u8);
        out.push(0x80 | (v & 0x3F) as u8);
        assert(final(out)@ =~= old(out)@ + utf8(c));
    }
}

} // verus!
