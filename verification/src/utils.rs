use vstd::prelude::*;
use crate::ledmatrix::LedmatrixConfig;

verus! {

/// The reserved console command that ends an input session.
pub const QUIT_COMMAND: char = 'q';

/// `std::sync::mpsc::Sender`, the producing half of a standard channel,
/// held only so that a channel stays open; opaque to verification.
#[verifier::external_type_specification]
#[verifier::external_body]
#[verifier::reject_recursive_types(T)]
pub struct ExSender<T>(std::sync::mpsc::Sender<T>);

/// `std::sync::mpsc::Receiver`, the consuming half of a standard channel;
/// opaque to verification. What a receive returns depends on the producing
/// thread, so the wrappers below promise nothing about their outcome.
#[verifier::external_type_specification]
#[verifier::external_body]
#[verifier::reject_recursive_types(T)]
pub struct ExReceiver<T>(std::sync::mpsc::Receiver<T>);

/// Outcome of one non-blocking look at a channel: a queued message,
/// nothing queued yet, or a channel whose producer is gone.
pub enum RecvPoll<T> {
    Got(T),
    Pending,
    Closed,
}

/// Relies on `std::sync::mpsc::Receiver::try_recv`: returns a queued message
/// if one is present, `TryRecvError::Empty` if the channel is open and empty,
/// and `TryRecvError::Disconnected` once the sender is gone and the queue is
/// drained. The outcome depends on the producing thread, so nothing is
/// promised of it; each variant is carried over one for one.
#[verifier::external_body]
fn try_recv_poll<T>(rx: &std::sync::mpsc::Receiver<T>) -> RecvPoll<T> {
    match rx.try_recv() {
        Ok(v) => RecvPoll::Got(v),
        Err(std::sync::mpsc::TryRecvError::Empty) => RecvPoll::Pending,
        Err(std::sync::mpsc::TryRecvError::Disconnected) => RecvPoll::Closed,
    }
}

/// Relies on `std::sync::mpsc::Receiver::recv`: blocks until a message is
/// available and returns it, or returns `RecvError` once the sender is gone
/// and the queue is drained. The outcome depends on the producing thread,
/// so nothing is promised of it.
#[verifier::external_body]
fn recv_opt<T>(rx: &std::sync::mpsc::Receiver<T>) -> Option<T> {
    match rx.recv() {
        Ok(v) => Some(v),
        Err(std::sync::mpsc::RecvError) => None,
    }
}

/// A timed-wait source: a channel kept open on purpose, whose receiving half
/// is polled with a timeout to pause the calling thread.
pub struct Pacer {
    tx: std::sync::mpsc::Sender<()>,
    rx: std::sync::mpsc::Receiver<()>,
}

impl Pacer {
    /// Relies on `std::sync::mpsc::channel`: returns a connected
    /// sender/receiver pair. Both halves are kept, so the channel
    /// stays open and empty for the pacer's whole life.
    #[verifier::external_body]
    pub fn new() -> Pacer {
        let (tx, rx) = std::sync::mpsc::channel();
        Pacer { tx, rx }
    }

    /// Relies on `std::sync::mpsc::Receiver::recv_timeout`: on a channel
    /// whose sender is held and never used, no message can arrive, so the
    /// call blocks for the given time and returns `RecvTimeoutError::Timeout`.
    /// Used purely as a timed wait.
    #[verifier::external_body]
    pub fn wait_ms(&self, ms: u64) {
        let _ = self.rx.recv_timeout(std::time::Duration::from_millis(ms));
    }
}

/// What `Exiter::check` answers for each outcome of a non-blocking look at
/// its channel: a queued message or a closed channel signals the exit; only
/// an open, empty channel — the reader still blocked on its single line —
/// leaves the session running.
pub open spec fn exit_decision_spec(p: RecvPoll<()>) -> bool {
    !(p is Pending)
}

/// One-shot cancellation flag fed by a background console reader, which
/// closes the channel after its single read. The session is over as soon as
/// the channel yields any message at all or reports its producer gone.
pub struct Exiter {
    rx: std::sync::mpsc::Receiver<()>,
}

impl Exiter {
    /// Wraps the receiving half of a channel whose sending half belongs to
    /// a console-reading task that drops it after one read.
    pub fn from_receiver(rx: std::sync::mpsc::Receiver<()>) -> Exiter {
        Exiter { rx }
    }

    /// Maps one poll outcome to the exit answer, exactly as
    /// `exit_decision_spec` says.
    pub fn exit_decision(p: RecvPoll<()>) -> (r: bool)
        ensures
            r == exit_decision_spec(p),
    {
        match p {
            RecvPoll::Got(_) => true,
            RecvPoll::Pending => false,
            RecvPoll::Closed => true,
        }
    }

    /// Non-blocking exit poll: answers `exit_decision_spec` of whatever one
    /// look at the channel found — `false` while the reader is still blocked
    /// on its line, `true` as soon as the channel yields a message or
    /// reports its producer gone. Once the background reader has finished
    /// and dropped its sender, every look finds the channel closed, so the
    /// answer stays `true` from then on.
    pub fn check(&self) -> bool {
        Exiter::exit_decision(try_recv_poll(&self.rx))
    }
}

/// The command a console line carries: its first character, or the harmless
/// newline default for a line with no characters at all.
pub open spec fn line_command_spec(line: Seq<char>) -> char {
    if line.len() == 0 {
        '\n'
    } else {
        line[0]
    }
}

/// Reads one console line as a command, exactly as `line_command_spec`
/// says: only the first character is significant, and an empty line is
/// handled without failure.
pub fn line_command(line: &str) -> (r: char)
    ensures
        r == line_command_spec(line@),
{
    broadcast use vstd::string::axiom_spec_iter;
    broadcast use vstd::string::next_postcondition;

    let mut it = line.chars();
    match it.next() {
        Some(c) => c,
        None => '\n',
    }
}

/// What `InController::try_get` answers for each outcome of a non-blocking
/// look at its channel: a queued command is handed out, an open and empty
/// channel yields nothing, and a closed channel yields the quit command,
/// for this call and every later one.
pub open spec fn poll_decision_spec(p: RecvPoll<char>) -> Option<char> {
    match p {
        RecvPoll::Got(c) => Some(c),
        RecvPoll::Pending => None,
        RecvPoll::Closed => Some(QUIT_COMMAND),
    }
}

/// What `InController::get` answers for each outcome of a blocking receive:
/// the received command, or the quit command once the channel is closed.
pub open spec fn wait_decision_spec(o: Option<char>) -> char {
    match o {
        Some(c) => c,
        None => QUIT_COMMAND,
    }
}

/// Reusable command source fed by a background console reader that forwards
/// the first character of each input line and stops after forwarding the
/// quit command.
pub struct InController {
    rx: std::sync::mpsc::Receiver<char>,
}

impl InController {
    /// Wraps the receiving half of a channel whose sending half belongs to
    /// a console-reading task that forwards one command per input line.
    pub fn from_receiver(rx: std::sync::mpsc::Receiver<char>) -> InController {
        InController { rx }
    }

    /// Maps one poll outcome to the command answer, exactly as
    /// `poll_decision_spec` says.
    pub fn poll_decision(p: RecvPoll<char>) -> (r: Option<char>)
        ensures
            r == poll_decision_spec(p),
    {
        match p {
            RecvPoll::Got(c) => Some(c),
            RecvPoll::Pending => None,
            RecvPoll::Closed => Some(QUIT_COMMAND),
        }
    }

    /// Maps one blocking-receive outcome to the command answer, exactly as
    /// `wait_decision_spec` says.
    pub fn wait_decision(o: Option<char>) -> (r: char)
        ensures
            r == wait_decision_spec(o),
    {
        match o {
            Some(c) => c,
            None => QUIT_COMMAND,
        }
    }

    /// Non-blocking command poll: answers `poll_decision_spec` of whatever
    /// one look at the channel found. Once the producer has stopped — after
    /// the quit command, or by disconnection — every look finds the channel
    /// closed once drained, so the answer stays the quit command.
    pub fn try_get(&self) -> Option<char> {
        InController::poll_decision(try_recv_poll(&self.rx))
    }

    /// Blocking command read: answers `wait_decision_spec` of one blocking
    /// receive — the next command when one arrives, or the quit command
    /// immediately once the channel is closed and drained.
    pub fn get(&self) -> char {
        InController::wait_decision(recv_opt(&self.rx))
    }
}

/// The settings sections this harness consumes.
pub struct Config {
    pub ledmatrix: LedmatrixConfig,
}

} // verus!
