//! Whether the owner's program wants mouse reports, guessed from its output.
//!
//! Each chunk of output is searched, on its own, for the sequences that set and reset
//! the terminal's mouse modes and its alternate screen. A sequence that is split over
//! two chunks is not seen.

use vstd::prelude::*;
use crate::input::keyboard::ESC;
use crate::input::wire::{decimal, push_decimal};

verus! {

/// `needle` stands in `hay` at index `i`.
pub open spec fn occurs_at(hay: Seq<u8>, needle: Seq<u8>, i: int) -> bool {
    0 <= i && i + needle.len() <= hay.len() && hay.subrange(i, i + needle.len()) == needle
}

/// `needle` stands somewhere in `hay`, as a run of adjacent bytes.
pub open spec fn contains_seq(hay: Seq<u8>, needle: Seq<u8>) -> bool {
    exists|i: int| occurs_at(hay, needle, i)
}

/// Says whether `needle` stands in `hay` at index `at`.
fn matches_at(hay: &[u8], needle: &[u8], at: usize) -> (same: bool)
    requires
        at + needle@.len() <= hay@.len(),
    ensures
        same == occurs_at(hay@, needle@, at as int),
{
    let len: usize = needle.len();
    let limit: usize = hay.len();
    let mut j: usize = 0;
    while j < len
        invariant
            len == needle@.len(),
            limit == hay@.len(),
            at + len <= limit,
            j <= len,
            forall|k: int| 0 <= k < j ==> hay@[at + k] == needle@[k],
        decreases len - j,
    {
        if hay[at + j] != needle[j] {
            proof {
                let window = hay@.subrange(at as int, at + needle@.len());
                assert(window[j as int] == hay@[at + j]);
            }
            return false;
        }
        j += 1;
    }
    assert(hay@.subrange(at as int, at + needle@.len()) =~= needle@);
    true
}

/// Says whether `needle` stands somewhere in `hay`.
pub fn contains_bytes(hay: &[u8], needle: &[u8]) -> (found: bool)
    ensures
        found == contains_seq(hay@, needle@),
{
    if needle.len() > hay.len() {
        return false;
    }
    let last: usize = hay.len() - needle.len();
    let mut i: usize = 0;
    loop
        invariant
            last + needle@.len() == hay@.len(),
            i <= last,
            forall|k: int| 0 <= k < i ==> !occurs_at(hay@, needle@, k),
        decreases last - i,
    {
        if matches_at(hay, needle, i) {
            return true;
        }
        if i == last {
            return false;
        }
        i += 1;
    }
}

/// The sequence that sets (`on`) or resets the private terminal mode `mode`:
/// `ESC [ ? mode h` or `ESC [ ? mode l`.
pub open spec fn mode_switch(mode: u16, on: bool) -> Seq<u8> {
    seq![ESC, 91u8, 63u8] + decimal(mode as nat) + seq![if on { 104u8 } else { 108u8 }]
}

/// The modes that turn mouse reports on: the tracking modes 1000, 1002 and 1003, the
/// encodings 1006, 1015 and 1005, X10 tracking 9, and focus reports 1004.
pub open spec fn tracking_modes() -> Seq<u16> {
    seq![1000u16, 1002u16, 1003u16, 1006u16, 1015u16, 9u16, 1005u16, 1004u16]
}

/// The modes that enter the alternate screen: 47, 1047 and 1049.
pub open spec fn alternate_screen_modes() -> Seq<u16> {
    seq![47u16, 1047u16, 1049u16]
}

/// `chunk` holds the sequence that switches one of `modes` on, or off.
pub open spec fn switches_any(chunk: Seq<u8>, modes: Seq<u16>, on: bool) -> bool {
    exists|k: int| 0 <= k < modes.len() && contains_seq(chunk, #[trigger] mode_switch(modes[k], on))
}

/// The terminal type `term` is one whose programs can be taken to use the mouse on the
/// alternate screen: its name holds `xterm` or `screen`.
pub open spec fn term_knows_mouse(term: Seq<u8>) -> bool {
    contains_seq(term, seq![120u8, 116u8, 101u8, 114u8, 109u8]) || contains_seq(
        term,
        seq![115u8, 99u8, 114u8, 101u8, 101u8, 110u8],
    )
}

/// The mouse-mode flag after `chunk` of owner output, given the flag before.
///
/// Leaving the alternate screen clears the flag. Failing that, entering it on a
/// terminal that knows the mouse sets the flag. Failing that, a tracking mode switched
/// off clears it. Failing that, a tracking mode switched on sets it. Otherwise the flag
/// stays as it was.
pub open spec fn sniffed_mouse_mode(flag: bool, chunk: Seq<u8>, term: Seq<u8>) -> bool {
    if switches_any(chunk, alternate_screen_modes(), false) {
        false
    } else if switches_any(chunk, alternate_screen_modes(), true) && term_knows_mouse(term) {
        true
    } else if switches_any(chunk, tracking_modes(), false) {
        false
    } else if switches_any(chunk, tracking_modes(), true) {
        true
    } else {
        flag
    }
}

/// Says whether `chunk` holds the sequence that switches `mode` on, or off.
fn switches(chunk: &[u8], mode: u16, on: bool) -> (found: bool)
    ensures
        found == contains_seq(chunk@, mode_switch(mode, on)),
{
    let mut needle: Vec<u8> = vec![ESC, 91, 63];
    push_decimal(&mut needle, mode as u32);
    needle.push(if on { 104 } else { 108 });
    assert(needle@ =~= mode_switch(mode, on));
    contains_bytes(chunk, needle.as_slice())
}

/// Says whether `chunk` holds the sequence that switches one of `modes` on, or off.
fn switches_one_of(chunk: &[u8], modes: &Vec<u16>, on: bool) -> (found: bool)
    ensures
        found == switches_any(chunk@, modes@, on),
{
    let mut k: usize = 0;
    while k < modes.len()
        invariant
            k <= modes@.len(),
            forall|j: int| 0 <= j < k ==> !contains_seq(chunk@, #[trigger] mode_switch(modes@[j], on)),
        decreases modes@.len() - k,
    {
        if switches(chunk, modes[k], on) {
            return true;
        }
        k += 1;
    }
    false
}

/// Says whether the terminal type `term` is one that knows the mouse.
pub fn knows_mouse(term: &[u8]) -> (known: bool)
    ensures
        known == term_knows_mouse(term@),
{
    let xterm: Vec<u8> = vec![120, 116, 101, 114, 109];
    let screen: Vec<u8> = vec![115, 99, 114, 101, 101, 110];
    contains_bytes(term, xterm.as_slice()) || contains_bytes(term, screen.as_slice())
}

/// Updates the mouse-mode flag from one chunk of the owner's output. `term` is the
/// terminal type that the owner's programs see.
pub fn sniff_mouse_mode(flag: bool, chunk: &[u8], term: &[u8]) -> (now: bool)
    ensures
        now == sniffed_mouse_mode(flag, chunk@, term@),
{
    let tracking: Vec<u16> = vec![1000, 1002, 1003, 1006, 1015, 9, 1005, 1004];
    let alternate: Vec<u16> = vec![47, 1047, 1049];
    let mut now = flag;
    if switches_one_of(chunk, &tracking, true) {
        now = true;
    }
    if switches_one_of(chunk, &tracking, false) {
        now = false;
    }
    if switches_one_of(chunk, &alternate, true) {
        if knows_mouse(term) {
            now = true;
        }
    }
    if switches_one_of(chunk, &alternate, false) {
        now = false;
    }
    now
}

} // verus!
