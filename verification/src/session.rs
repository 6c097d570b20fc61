//! The session supervisor's decisions: how a child is to be started, what size its
//! terminal gets, what a read from it means, and which failures end the session.
//!
//! Starting the child, reading, writing and waiting are the caller's work. What the
//! caller learns it hands in here, and what is decided here it carries out.

use vstd::prelude::*;
use crate::constants::BORDER_MARGIN;
use crate::geometry::{Overlay, Size};
use crate::input::mouse_mode::{sniff_mouse_mode, sniffed_mouse_mode};
use crate::screen::ScreenModel;

verus! {

/// The size of a session's terminal.
#[derive(Clone, Copy, Debug, PartialEq, Eq, Structural)]
pub struct PtySize {
    pub rows: u16,
    pub cols: u16,
}

/// How a session's child is to be started, in the caller's working directory.
#[derive(Debug)]
pub struct SpawnPlan {
    /// The program to run; `None` for the user's login shell as the system knows it.
    pub program: Option<String>,
    pub args: Vec<String>,
    /// The terminal type to put into the child's environment.
    pub term: String,
    pub size: PtySize,
}

/// The plan for the owner's child: the shell that the environment names, `/bin/bash`
/// where it names none, as an interactive login shell on the whole terminal.
pub fn owner_spawn_plan(shell: Option<String>, size: Size) -> (plan: SpawnPlan)
    ensures
        plan.program matches Some(program) && program@ == (match shell {
            Some(named) => named@,
            None => "/bin/bash"@,
        }),
        plan.args@.len() == 3,
        plan.args@[0]@ == "-y"@,
        plan.args@[1]@ == "-i"@,
        plan.args@[2]@ == "--login"@,
        plan.term@ == "xterm-256color"@,
        plan.size == (PtySize { rows: size.rows, cols: size.cols }),
{
    let program = match shell {
        Some(named) => named,
        None => "/bin/bash".to_owned(),
    };
    let mut args: Vec<String> = Vec::new();
    args.push("-y".to_owned());
    args.push("-i".to_owned());
    args.push("--login".to_owned());
    SpawnPlan {
        program: Some(program),
        args,
        term: "xterm-256color".to_owned(),
        size: PtySize { rows: size.rows, cols: size.cols },
    }
}

/// The size of the tenant's terminal inside an overlay of `rows` x `cols`: the
/// overlay's size less the margin that its border takes.
pub fn tenant_pty_size(rows: u16, cols: u16) -> (size: PtySize)
    requires
        rows >= BORDER_MARGIN,
        cols >= BORDER_MARGIN,
    ensures
        size.rows == rows - BORDER_MARGIN,
        size.cols == cols - BORDER_MARGIN,
{
    PtySize { rows: rows - BORDER_MARGIN, cols: cols - BORDER_MARGIN }
}

/// The plan for the tenant's child: the user's login shell, without arguments, on a
/// terminal that fits inside the overlay's border.
pub fn tenant_spawn_plan(overlay: &Overlay) -> (plan: SpawnPlan)
    requires
        overlay.wf(),
    ensures
        plan.program is None,
        plan.args@.len() == 0,
        plan.term@ == "xterm-256color"@,
        plan.size.rows == overlay.size.rows - BORDER_MARGIN,
        plan.size.cols == overlay.size.cols - BORDER_MARGIN,
{
    SpawnPlan {
        program: None,
        args: Vec::new(),
        term: "xterm-256color".to_owned(),
        size: tenant_pty_size(overlay.size.rows, overlay.size.cols),
    }
}

/// Something that happened to a running session.
#[derive(Clone, Copy, Debug, PartialEq, Eq, Structural)]
pub enum SessionEvent {
    /// The child could not be started.
    SpawnFailed,
    /// The child has exited.
    ChildExited,
    /// The session's output has ended.
    OutputClosed,
    /// Reading the session's output failed.
    ReadFailed,
    /// Writing or flushing the session's input failed.
    WriteFailed,
    /// The terminal did not take a new size.
    ResizeFailed,
}

/// Says whether an event is to raise the session's liveness signal. Every event does
/// but a failed write: the writer of a session that is already dead ends in silence.
pub fn raises_signal(event: SessionEvent) -> (raised: bool)
    ensures
        raised == !(event is WriteFailed),
{
    match event {
        SessionEvent::WriteFailed => false,
        _ => true,
    }
}

/// What a read from a session's output gave.
#[derive(Debug)]
pub enum ReadOutcome {
    /// These bytes; none at the end of the output.
    Data(Vec<u8>),
    /// An error.
    Failed,
}

/// What the reader of a session's output does next.
#[derive(Clone, Copy, Debug, PartialEq, Eq, Structural)]
pub enum ReaderStep {
    /// Read again.
    Continue,
    /// Raise the liveness signal for this event and stop reading.
    Stop(SessionEvent),
}

/// What the reader does after `outcome`: it goes on after bytes, and stops at the end
/// of the output and on an error.
pub open spec fn reader_step(outcome: ReadOutcome) -> ReaderStep {
    match outcome {
        ReadOutcome::Data(bytes) => if bytes@.len() == 0 {
            ReaderStep::Stop(SessionEvent::OutputClosed)
        } else {
            ReaderStep::Continue
        },
        ReadOutcome::Failed => ReaderStep::Stop(SessionEvent::ReadFailed),
    }
}

/// The text on a session's screen after one turn of its reader: bytes that were read
/// reach the screen behind the bytes that were pending, all in one piece; without
/// bytes the screen stays as it is.
pub open spec fn text_after_output(screen: ScreenModel, pending: Seq<u8>, outcome: ReadOutcome) -> Seq<
    char,
> {
    match outcome {
        ReadOutcome::Data(bytes) => if bytes@.len() == 0 {
            screen.text()
        } else {
            screen.text_after(pending + bytes@)
        },
        ReadOutcome::Failed => screen.text(),
    }
}

/// One turn of a session's reader. Bytes that were read join the bytes in `pending`,
/// all of them go to the screen together, and `pending` is emptied.
pub fn absorb_output(pending: &mut Vec<u8>, screen: &mut ScreenModel, outcome: ReadOutcome) -> (step:
    ReaderStep)
    requires
        old(screen).wf(),
    ensures
        step == reader_step(outcome),
        final(screen).text() == text_after_output(*old(screen), old(pending)@, outcome),
        final(screen).rows() == old(screen).rows(),
        final(screen).cols() == old(screen).cols(),
        step is Continue ==> final(pending)@.len() == 0,
        step is Stop ==> *final(pending) == *old(pending) && *final(screen) == *old(screen),
{
    match outcome {
        ReadOutcome::Data(bytes) => {
            if bytes.len() == 0 {
                ReaderStep::Stop(SessionEvent::OutputClosed)
            } else {
                pending.extend_from_slice(bytes.as_slice());
                assert(pending@ =~= old(pending)@ + bytes@);
                screen.process(pending.as_slice());
                pending.clear();
                ReaderStep::Continue
            }
        },
        ReadOutcome::Failed => ReaderStep::Stop(SessionEvent::ReadFailed),
    }
}

/// The mouse-mode flag after one turn of the owner's reader: bytes that were read are
/// searched together with the bytes that were pending; without bytes the flag stays.
pub open spec fn flag_after_output(
    flag: bool,
    pending: Seq<u8>,
    outcome: ReadOutcome,
    term: Seq<u8>,
) -> bool {
    match outcome {
        ReadOutcome::Data(bytes) => if bytes@.len() == 0 {
            flag
        } else {
            sniffed_mouse_mode(flag, pending + bytes@, term)
        },
        ReadOutcome::Failed => flag,
    }
}

/// One turn of the owner's reader: as [`absorb_output`], and before the bytes go to the
/// screen they are searched for what the owner's program wants of the mouse. Returns
/// the step and the mouse-mode flag that holds from now on.
pub fn absorb_owner_output(
    pending: &mut Vec<u8>,
    screen: &mut ScreenModel,
    flag: bool,
    term: &[u8],
    outcome: ReadOutcome,
) -> (out: (ReaderStep, bool))
    requires
        old(screen).wf(),
    ensures
        out.0 == reader_step(outcome),
        out.1 == flag_after_output(flag, old(pending)@, outcome, term@),
        final(screen).text() == text_after_output(*old(screen), old(pending)@, outcome),
        final(screen).rows() == old(screen).rows(),
        final(screen).cols() == old(screen).cols(),
        out.0 is Continue ==> final(pending)@.len() == 0,
        out.0 is Stop ==> *final(pending) == *old(pending) && *final(screen) == *old(screen),
{
    match outcome {
        ReadOutcome::Data(bytes) => {
            if bytes.len() == 0 {
                (ReaderStep::Stop(SessionEvent::OutputClosed), flag)
            } else {
                pending.extend_from_slice(bytes.as_slice());
                assert(pending@ =~= old(pending)@ + bytes@);
                let now = sniff_mouse_mode(flag, pending.as_slice(), term);
                screen.process(pending.as_slice());
                pending.clear();
                (ReaderStep::Continue, now)
            }
        },
        ReadOutcome::Failed => (ReaderStep::Stop(SessionEvent::ReadFailed), flag),
    }
}

} // verus!
