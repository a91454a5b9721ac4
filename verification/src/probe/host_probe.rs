//! Running a probe beside QEMU: wait for the forwarded port, run the probe,
//! store its verdict, quit QEMU.
//!
//! The probe dials a management API running inside the guest, through QEMU
//! user-mode networking. When it has finished, pass or fail, QEMU is told to
//! quit over its QMP monitor socket, so that the run ends on the verdict. The
//! runner owns the QEMU process: a `quit` that is ignored degrades to the
//! timeout of the run, and a stuck QEMU is never reported as a success.

use super::runner::verdict_view;
use crate::report::{Failure, FailureView};
use crate::text;
use vstd::prelude::*;

verus! {

/// Pause between two connection attempts, in milliseconds.
pub const CONNECT_RETRY_INTERVAL_MILLIS: u64 = 100;

/// Pause between two attempts to connect to the QMP socket, in milliseconds.
pub const QMP_CONNECT_RETRY_INTERVAL_MILLIS: u64 = 100;

/// How often connecting to the QMP socket is tried.
pub const QMP_CONNECT_RETRIES: usize = 10;

/// Read and write timeout on the QMP socket, in milliseconds.
pub const QMP_TIMEOUT_MILLIS: u64 = 200;

/// Nanoseconds in a second.
pub const NANOS_PER_SEC: u64 = 1_000_000_000;

/// The forwarded host address.
pub open spec fn address_of(host_port: u16) -> Seq<char> {
    "127.0.0.1:"@ + text::decimal(host_port as nat)
}

/// The forwarded host address.
pub fn address(host_port: u16) -> (r: String)
    ensures
        r@ == address_of(host_port),
{
    let port: String = text::number(host_port as u64);
    "127.0.0.1:".to_string().concat(port.as_str())
}

/// What starting the probe of `case` comes to, once it is known whether its
/// thread has come up: a line of progress, or an error.
pub open spec fn start_outcome(
    ready: bool,
    addr: Seq<char>,
    guest_port: u16,
    case_name: Seq<char>,
) -> Result<Seq<char>, Seq<char>> {
    if ready {
        Ok("  host http probe: "@ + addr + " -> guest:"@ + text::decimal(guest_port as nat))
    } else {
        Err("host http probe for `"@ + case_name + "` did not become ready"@)
    }
}

/// What starting the probe of `case` comes to, once it is known whether its
/// thread has come up.
pub fn announce(ready: bool, addr: &str, guest_port: u16, case_name: &str) -> (r: Result<
    String,
    String,
>)
    ensures
        text::either(r) == start_outcome(ready, addr@, guest_port, case_name@),
{
    if ready {
        let port: String = text::number(guest_port as u64);
        Ok("  host http probe: ".to_string().concat(addr).concat(" -> guest:").concat(port.as_str()))
    } else {
        Err("host http probe for `".to_string().concat(case_name).concat("` did not become ready"))
    }
}

/// What waiting for the port needs next.
#[derive(Debug, Clone, Copy, PartialEq, Eq, Structural)]
pub enum PortAction {
    /// To know whether it should stop, and the time.
    Consult,
    /// To know whether the port accepts a connection.
    Connect,
    /// To be woken after this many milliseconds.
    Sleep(u64),
    /// Nothing: the port is ready, or will not be.
    Finished,
}

/// A wait for the forwarded port.
#[derive(Debug)]
pub struct PortWait {
    timeout_secs: u64,
    started: u64,
    next: PortAction,
    verdict: Result<(), Failure>,
}

/// The view of a [`PortWait`].
pub struct PortState {
    /// How long the wait may take, in seconds.
    pub timeout_secs: u64,
    /// When it began.
    pub started: u64,
    /// What it needs next.
    pub next: PortAction,
    /// What it comes to, once it has finished.
    pub verdict: Result<(), FailureView>,
}

impl View for PortWait {
    type V = PortState;

    closed spec fn view(&self) -> PortState {
        PortState {
            timeout_secs: self.timeout_secs,
            started: self.started,
            next: self.next,
            verdict: verdict_view(self.verdict),
        }
    }
}

impl PortState {
    /// The state at the beginning.
    pub open spec fn start(timeout_secs: u64, now: u64) -> PortState {
        PortState { timeout_secs, started: now, next: PortAction::Consult, verdict: Ok(()) }
    }

    /// The state after the wait failed.
    pub open spec fn failed(self, message: Seq<char>) -> PortState {
        PortState {
            next: PortAction::Finished,
            verdict: Err(FailureView::plain(message)),
            ..self
        }
    }

    /// Whether the wait is out of time at the time `now`.
    pub open spec fn is_late(self, now: u64) -> bool {
        (if now >= self.started {
            now - self.started
        } else {
            0
        }) >= self.timeout_secs * NANOS_PER_SEC
    }

    /// The state after learning whether to stop, and the time. A stop comes
    /// before the deadline, and the deadline before another attempt.
    pub open spec fn consulted(self, stop: bool, now: u64) -> PortState {
        if stop {
            self.failed("host http probe stopped"@)
        } else if self.is_late(now) {
            self.failed("timed out after "@ + text::seconds(self.timeout_secs as nat))
        } else {
            PortState { next: PortAction::Connect, ..self }
        }
    }

    /// The state after an attempt to connect.
    pub open spec fn connected(self, accepted: bool) -> PortState {
        PortState {
            next: if accepted {
                PortAction::Finished
            } else {
                PortAction::Sleep(CONNECT_RETRY_INTERVAL_MILLIS)
            },
            ..self
        }
    }

    /// The state after the pause.
    pub open spec fn woken(self) -> PortState {
        PortState { next: PortAction::Consult, ..self }
    }
}

/// Starts waiting for the forwarded port to accept a connection.
///
/// A connection means that the guest's network stack is up; the server inside
/// may still be booting, so the probe itself retries its first request.
pub fn wait_for_port_ready(timeout_secs: u64, now: u64) -> (r: PortWait)
    ensures
        r@ == PortState::start(timeout_secs, now),
{
    PortWait { timeout_secs, started: now, next: PortAction::Consult, verdict: Ok(()) }
}

impl PortWait {
    /// What the wait needs next.
    pub fn action(&self) -> (r: PortAction)
        ensures
            r == self@.next,
    {
        self.next
    }

    /// Ends the wait with an error.
    fn fail(&mut self, message: String)
        ensures
            final(self)@ == old(self)@.failed(message@),
    {
        self.next = PortAction::Finished;
        self.verdict = Err(Failure::new(message));
    }

    /// Hands over whether to stop, and the time.
    pub fn consult(&mut self, stop: bool, now: u64)
        requires
            old(self)@.next == PortAction::Consult,
        ensures
            final(self)@ == old(self)@.consulted(stop, now),
    {
        let elapsed: u64 = if now >= self.started {
            now - self.started
        } else {
            0
        };
        let limit: u128 = self.timeout_secs as u128 * NANOS_PER_SEC as u128;
        if stop {
            self.fail("host http probe stopped".to_string());
        } else if elapsed as u128 >= limit {
            let span: String = text::seconds_text(self.timeout_secs);
            self.fail("timed out after ".to_string().concat(span.as_str()));
        } else {
            self.next = PortAction::Connect;
        }
    }

    /// Hands over whether the port accepted a connection.
    pub fn connect(&mut self, accepted: bool)
        requires
            old(self)@.next == PortAction::Connect,
        ensures
            final(self)@ == old(self)@.connected(accepted),
    {
        self.next = if accepted {
            PortAction::Finished
        } else {
            PortAction::Sleep(CONNECT_RETRY_INTERVAL_MILLIS)
        };
    }

    /// Wakes the wait from its pause.
    pub fn wake(&mut self)
        requires
            old(self)@.next is Sleep,
        ensures
            final(self)@ == old(self)@.woken(),
    {
        self.next = PortAction::Consult;
    }

    /// What the wait came to.
    pub fn into_verdict(self) -> (r: Result<(), Failure>)
        requires
            self@.next == PortAction::Finished,
        ensures
            verdict_view(r) == self@.verdict,
    {
        self.verdict
    }
}

/// A port that accepts a connection ends the wait in success; until the
/// deadline nothing but a stop ends it otherwise, and after the deadline there
/// is no further attempt.
pub proof fn law_port_wait(state: PortState, stop: bool, now: u64, accepted: bool)
    ensures
        ({
            let asked = state.consulted(stop, now);
            &&& !stop && !state.is_late(now) <==> asked.next == PortAction::Connect
            &&& stop || state.is_late(now) ==> asked.next == PortAction::Finished
                && asked.verdict is Err
            &&& !stop && !state.is_late(now) && state.verdict is Ok && accepted
                ==> asked.connected(accepted).next == PortAction::Finished && asked.connected(
                accepted,
            ).verdict is Ok
            &&& !stop && !state.is_late(now) && !accepted ==> asked.connected(accepted).woken()
                == state.woken()
        }),
{
}

/// What quitting QEMU needs next.
#[derive(Debug, Clone, Copy, PartialEq, Eq, Structural)]
pub enum QmpAction {
    /// To know whether the socket accepts a connection.
    Connect,
    /// To be woken after this many milliseconds.
    Sleep(u64),
    /// Read and write timeouts of this many milliseconds on the socket. It does
    /// not matter whether they can be set.
    SetTimeouts(u64),
    /// Something to be read from the socket. It does not matter what, or
    /// whether it can be.
    Read,
    /// The first command to be written.
    WriteCapabilities,
    /// The last command to be written.
    WriteQuit,
    /// What was written to be flushed.
    Flush,
    /// Nothing: `quit` has been sent, or could not be.
    Finished,
}

/// A request to QEMU to quit.
#[derive(Debug)]
pub struct QmpQuit {
    socket: String,
    attempts: usize,
    negotiated: bool,
    next: QmpAction,
    verdict: Result<(), Failure>,
}

/// The view of a [`QmpQuit`].
pub struct QmpState {
    /// Path of the socket.
    pub socket: Seq<char>,
    /// How often connecting has failed.
    pub attempts: usize,
    /// Whether the first command has been written.
    pub negotiated: bool,
    /// What is needed next.
    pub next: QmpAction,
    /// What it comes to, once it has finished.
    pub verdict: Result<(), FailureView>,
}

impl View for QmpQuit {
    type V = QmpState;

    closed spec fn view(&self) -> QmpState {
        QmpState {
            socket: self.socket@,
            attempts: self.attempts,
            negotiated: self.negotiated,
            next: self.next,
            verdict: verdict_view(self.verdict),
        }
    }
}

impl QmpState {
    /// The state at the beginning. A host without unix sockets gives up at
    /// once.
    pub open spec fn start(socket: Seq<char>, supported: bool) -> QmpState {
        QmpState {
            socket,
            attempts: 0,
            negotiated: false,
            next: if supported {
                QmpAction::Connect
            } else {
                QmpAction::Finished
            },
            verdict: if supported {
                Ok(())
            } else {
                Err(FailureView::plain("QMP unix sockets are not supported on this host"@))
            },
        }
    }

    /// Whether the state is one that the request rests in.
    pub open spec fn wf(self) -> bool {
        &&& self.next == QmpAction::Connect ==> self.attempts < QMP_CONNECT_RETRIES
        &&& self.next is Sleep ==> 0 < self.attempts <= QMP_CONNECT_RETRIES
        &&& self.next == QmpAction::WriteCapabilities ==> !self.negotiated
        &&& self.next == QmpAction::WriteQuit || self.next == QmpAction::Flush ==> self.negotiated
    }

    /// The state after an attempt to connect.
    pub open spec fn connected(self, accepted: bool) -> QmpState {
        if accepted {
            QmpState { next: QmpAction::SetTimeouts(QMP_TIMEOUT_MILLIS), ..self }
        } else {
            QmpState {
                attempts: (self.attempts + 1) as usize,
                next: QmpAction::Sleep(QMP_CONNECT_RETRY_INTERVAL_MILLIS),
                ..self
            }
        }
    }

    /// The state after the pause.
    pub open spec fn woken(self) -> QmpState {
        if self.attempts < QMP_CONNECT_RETRIES {
            QmpState { next: QmpAction::Connect, ..self }
        } else {
            QmpState {
                next: QmpAction::Finished,
                verdict: Err(
                    FailureView::plain("failed to connect QMP socket "@ + self.socket),
                ),
                ..self
            }
        }
    }

    /// The state after something was done whose outcome does not matter.
    pub open spec fn done(self) -> QmpState {
        QmpState {
            next: match self.next {
                QmpAction::Read => if self.negotiated {
                    QmpAction::WriteQuit
                } else {
                    QmpAction::WriteCapabilities
                },
                _ => QmpAction::Read,
            },
            ..self
        }
    }

    /// The state after something was written or flushed.
    pub open spec fn wrote(self, result: Result<(), Seq<char>>) -> QmpState {
        match result {
            Err(error) => QmpState {
                next: QmpAction::Finished,
                verdict: Err(FailureView::plain(error)),
                ..self
            },
            Ok(_) => match self.next {
                QmpAction::WriteCapabilities => QmpState {
                    negotiated: true,
                    next: QmpAction::Read,
                    ..self
                },
                QmpAction::WriteQuit => QmpState { next: QmpAction::Flush, ..self },
                _ => QmpState { next: QmpAction::Finished, ..self },
            },
        }
    }
}

/// The text that `next` asks to be written. Flushing writes nothing more.
pub open spec fn command(next: QmpAction) -> Seq<char> {
    match next {
        QmpAction::WriteCapabilities => "{\"execute\":\"qmp_capabilities\"}\r\n"@,
        QmpAction::WriteQuit => "{\"execute\":\"quit\"}\r\n"@,
        _ => Seq::empty(),
    }
}

/// Whether `next` asks for something to be written or flushed.
pub open spec fn is_output(next: QmpAction) -> bool {
    next == QmpAction::WriteCapabilities || next == QmpAction::WriteQuit || next
        == QmpAction::Flush
}

/// Starts quitting QEMU by connecting to its QMP monitor socket and issuing
/// `quit`.
///
/// The request is over once `quit` has been sent; whether QEMU actually exits
/// is the runner's business.
pub fn request_qmp_quit(socket: &str, supported: bool) -> (r: QmpQuit)
    ensures
        r@ == QmpState::start(socket@, supported),
        r@.wf(),
{
    QmpQuit {
        socket: socket.to_string(),
        attempts: 0,
        negotiated: false,
        next: if supported {
            QmpAction::Connect
        } else {
            QmpAction::Finished
        },
        verdict: if supported {
            Ok(())
        } else {
            Err(Failure::new("QMP unix sockets are not supported on this host".to_string()))
        },
    }
}

impl QmpQuit {
    /// What is needed next.
    pub fn action(&self) -> (r: QmpAction)
        ensures
            r == self@.next,
    {
        self.next
    }

    /// The command to be written, all of it and nothing else.
    pub fn command_text(&self) -> (r: &'static str)
        requires
            self@.next == QmpAction::WriteCapabilities || self@.next == QmpAction::WriteQuit,
        ensures
            r@ == command(self@.next),
    {
        match self.next {
            QmpAction::WriteCapabilities => "{\"execute\":\"qmp_capabilities\"}\r\n",
            _ => "{\"execute\":\"quit\"}\r\n",
        }
    }

    /// Hands over whether the socket accepted a connection.
    pub fn connect(&mut self, accepted: bool)
        requires
            old(self)@.wf(),
            old(self)@.next == QmpAction::Connect,
        ensures
            final(self)@ == old(self)@.connected(accepted),
            final(self)@.wf(),
    {
        if accepted {
            self.next = QmpAction::SetTimeouts(QMP_TIMEOUT_MILLIS);
        } else {
            self.attempts = self.attempts + 1;
            self.next = QmpAction::Sleep(QMP_CONNECT_RETRY_INTERVAL_MILLIS);
        }
    }

    /// Wakes the request from its pause.
    pub fn wake(&mut self)
        requires
            old(self)@.wf(),
            old(self)@.next is Sleep,
        ensures
            final(self)@ == old(self)@.woken(),
            final(self)@.wf(),
    {
        if self.attempts < QMP_CONNECT_RETRIES {
            self.next = QmpAction::Connect;
        } else {
            let message: String = "failed to connect QMP socket ".to_string().concat(
                self.socket.as_str(),
            );
            self.next = QmpAction::Finished;
            self.verdict = Err(Failure::new(message));
        }
    }

    /// Reports that timeouts were set, or that something was read.
    pub fn proceed(&mut self)
        requires
            old(self)@.wf(),
            old(self)@.next is SetTimeouts || old(self)@.next == QmpAction::Read,
        ensures
            final(self)@ == old(self)@.done(),
            final(self)@.wf(),
    {
        self.next = match self.next {
            QmpAction::Read => {
                if self.negotiated {
                    QmpAction::WriteQuit
                } else {
                    QmpAction::WriteCapabilities
                }
            },
            _ => QmpAction::Read,
        };
    }

    /// Hands over what came of writing or flushing.
    pub fn write(&mut self, result: Result<(), String>)
        requires
            old(self)@.wf(),
            is_output(old(self)@.next),
        ensures
            final(self)@ == old(self)@.wrote(text::answer(result)),
            final(self)@.wf(),
    {
        match result {
            Err(error) => {
                self.next = QmpAction::Finished;
                self.verdict = Err(Failure::new(error));
            },
            Ok(_) => match self.next {
                QmpAction::WriteCapabilities => {
                    self.negotiated = true;
                    self.next = QmpAction::Read;
                },
                QmpAction::WriteQuit => {
                    self.next = QmpAction::Flush;
                },
                _ => {
                    self.next = QmpAction::Finished;
                },
            },
        }
    }

    /// What the request came to.
    pub fn into_verdict(self) -> (r: Result<(), Failure>)
        requires
            self@.next == QmpAction::Finished,
        ensures
            verdict_view(r) == self@.verdict,
    {
        self.verdict
    }
}

/// On a socket that accepts every operation the request sets the timeouts,
/// reads the greeting, negotiates, reads the reply, sends `quit`, flushes and
/// succeeds.
pub proof fn law_qmp_conversation(state: QmpState)
    requires
        state.wf(),
        state.next == QmpAction::Connect,
        !state.negotiated,
        state.verdict is Ok,
    ensures
        ({
            let s1 = state.connected(true);
            let s2 = s1.done();
            let s3 = s2.done();
            let s4 = s3.wrote(Ok(()));
            let s5 = s4.done();
            let s6 = s5.wrote(Ok(()));
            let s7 = s6.wrote(Ok(()));
            &&& s1.next == QmpAction::SetTimeouts(QMP_TIMEOUT_MILLIS)
            &&& s2.next == QmpAction::Read
            &&& s3.next == QmpAction::WriteCapabilities
            &&& command(s3.next) == "{\"execute\":\"qmp_capabilities\"}\r\n"@
            &&& s4.next == QmpAction::Read
            &&& s5.next == QmpAction::WriteQuit
            &&& command(s5.next) == "{\"execute\":\"quit\"}\r\n"@
            &&& s6.next == QmpAction::Flush
            &&& s7.next == QmpAction::Finished
            &&& s7.verdict is Ok
        }),
{
}

/// Something that a request to quit is told.
pub enum QmpEvent {
    /// Whether the socket accepted a connection.
    Connected(bool),
    /// That its pause is over.
    Woken,
    /// That timeouts were set, or that something was read.
    Done,
    /// What came of writing or flushing.
    Wrote(Result<(), Seq<char>>),
}

/// The state after `event`. The request only listens to what it has asked for.
pub open spec fn qmp_after(state: QmpState, event: QmpEvent) -> QmpState {
    match event {
        QmpEvent::Connected(accepted) => if state.next == QmpAction::Connect {
            state.connected(accepted)
        } else {
            state
        },
        QmpEvent::Woken => if state.next is Sleep {
            state.woken()
        } else {
            state
        },
        QmpEvent::Done => if state.next is SetTimeouts || state.next == QmpAction::Read {
            state.done()
        } else {
            state
        },
        QmpEvent::Wrote(result) => if is_output(state.next) {
            state.wrote(result)
        } else {
            state
        },
    }
}

/// The state after `events`, in order.
pub open spec fn qmp_run(state: QmpState, events: Seq<QmpEvent>) -> QmpState
    decreases events.len(),
{
    if events.len() == 0 {
        state
    } else {
        qmp_after(qmp_run(state, events.drop_last()), events.last())
    }
}

/// What was written to the socket in the course of `events`, leaving out a
/// write that failed.
pub open spec fn qmp_written(state: QmpState, events: Seq<QmpEvent>) -> Seq<char>
    decreases events.len(),
{
    if events.len() == 0 {
        Seq::empty()
    } else {
        let init = events.drop_last();
        qmp_written(state, init) + (match events.last() {
            QmpEvent::Wrote(Ok(_)) => command(qmp_run(state, init).next),
            _ => Seq::empty(),
        })
    }
}

/// How many connections were attempted in the course of `events`.
pub open spec fn qmp_attempts(state: QmpState, events: Seq<QmpEvent>) -> nat
    decreases events.len(),
{
    if events.len() == 0 {
        0
    } else {
        let init = events.drop_last();
        qmp_attempts(state, init) + (if events.last() is Connected && qmp_run(state, init).next
            == QmpAction::Connect {
            1nat
        } else {
            0nat
        })
    }
}

/// Both commands, in order.
pub open spec fn whole_conversation() -> Seq<char> {
    command(QmpAction::WriteCapabilities) + command(QmpAction::WriteQuit)
}

/// What has been written when the request is in `state`.
spec fn is_written(state: QmpState, written: Seq<char>) -> bool {
    let first = command(QmpAction::WriteCapabilities);
    match state.next {
        QmpAction::Flush => state.negotiated && written == whole_conversation(),
        QmpAction::Finished => match state.verdict {
            Ok(_) => state.negotiated && written == whole_conversation(),
            Err(_) => written == Seq::<char>::empty() || (state.negotiated && written == first)
                || (state.negotiated && written == whole_conversation()),
        },
        QmpAction::WriteQuit => state.negotiated && written == first,
        QmpAction::Read => written == (if state.negotiated {
            first
        } else {
            Seq::empty()
        }),
        _ => !state.negotiated && written == Seq::<char>::empty(),
    }
}

proof fn lemma_conversation(socket: Seq<char>, supported: bool, events: Seq<QmpEvent>)
    ensures
        ({
            let start = QmpState::start(socket, supported);
            let state = qmp_run(start, events);
            let written = qmp_written(start, events);
            let attempts = qmp_attempts(start, events);
            &&& state.wf()
            &&& is_written(state, written)
            &&& state.next != QmpAction::Finished ==> state.verdict is Ok
            &&& attempts <= QMP_CONNECT_RETRIES
            &&& state.next == QmpAction::Connect || state.next is Sleep ==> attempts
                == state.attempts
        }),
    decreases events.len(),
{
    let start = QmpState::start(socket, supported);
    if events.len() > 0 {
        let init = events.drop_last();
        lemma_conversation(socket, supported, init);
        let before = qmp_run(start, init);
        let empty = Seq::<char>::empty();
        let written = qmp_written(start, init);
        assert(written + empty =~= written);
        assert(empty + command(QmpAction::WriteCapabilities) =~= command(
            QmpAction::WriteCapabilities,
        ));
        match events.last() {
            QmpEvent::Wrote(Ok(_)) => {
                assert(command(before.next) == empty || before.next == QmpAction::WriteCapabilities
                    || before.next == QmpAction::WriteQuit);
            },
            _ => {},
        }
    }
}

/// Whatever happens on the way, a request that succeeds has written the two
/// commands in order and nothing else, and a request in progress a part of
/// that; it has tried to connect no more often than it may, and where it never
/// got through nothing is written.
pub proof fn law_qmp_writes_two_commands(
    socket: Seq<char>,
    supported: bool,
    events: Seq<QmpEvent>,
)
    ensures
        ({
            let start = QmpState::start(socket, supported);
            let state = qmp_run(start, events);
            let written = qmp_written(start, events);
            &&& state.next == QmpAction::Finished && state.verdict is Ok ==> written
                == "{\"execute\":\"qmp_capabilities\"}\r\n"@ + "{\"execute\":\"quit\"}\r\n"@
            &&& written.is_prefix_of(whole_conversation())
            &&& qmp_attempts(start, events) <= QMP_CONNECT_RETRIES
            &&& !state.negotiated ==> written.len() == 0
        }),
{
    lemma_conversation(socket, supported, events);
    let all = whole_conversation();
    let first = command(QmpAction::WriteCapabilities);
    assert(Seq::<char>::empty().is_prefix_of(all));
    assert(first.is_prefix_of(all));
    assert(all.is_prefix_of(all));
}

/// A write or a flush that fails ends the request with that error.
pub proof fn law_failed_write_is_the_verdict(state: QmpState, error: Seq<char>)
    requires
        is_output(state.next),
    ensures
        state.wrote(Err(error)).next == QmpAction::Finished,
        state.wrote(Err(error)).verdict == Err::<(), FailureView>(FailureView::plain(error)),
{
}

/// The state after `n` refused connections, each followed by a pause.
pub open spec fn refused(state: QmpState, n: nat) -> QmpState
    decreases n,
{
    if n == 0 {
        state
    } else {
        refused(state, (n - 1) as nat).connected(false).woken()
    }
}

/// Connecting is tried a fixed number of times: fewer refusals lead to another
/// attempt, that many to an error that names the socket.
pub proof fn law_qmp_gives_up(socket: Seq<char>, n: nat)
    requires
        n <= QMP_CONNECT_RETRIES,
    ensures
        n < QMP_CONNECT_RETRIES ==> refused(QmpState::start(socket, true), n).next
            == QmpAction::Connect,
        n == QMP_CONNECT_RETRIES ==> refused(QmpState::start(socket, true), n).next
            == QmpAction::Finished && refused(QmpState::start(socket, true), n).verdict == Err::<
            (),
            FailureView,
        >(FailureView::plain("failed to connect QMP socket "@ + socket)),
{
    lemma_refused(socket, n);
}

proof fn lemma_refused(socket: Seq<char>, n: nat)
    requires
        n <= QMP_CONNECT_RETRIES,
    ensures
        ({
            let state = refused(QmpState::start(socket, true), n);
            &&& state.attempts == n
            &&& state.socket == socket
            &&& n < QMP_CONNECT_RETRIES ==> state.next == QmpAction::Connect
            &&& n == QMP_CONNECT_RETRIES ==> state.next == QmpAction::Finished && state.verdict
                == Err::<(), FailureView>(
                FailureView::plain("failed to connect QMP socket "@ + socket),
            )
        }),
    decreases n,
{
    if n > 0 {
        lemma_refused(socket, (n - 1) as nat);
    }
}

/// What the guard of a probe does next.
#[derive(Debug, Clone, PartialEq, Eq)]
pub enum GuardAction {
    /// Wait for the forwarded port.
    WaitForPort,
    /// Run the probe.
    RunProbe,
    /// Store the verdict.
    Store,
    /// Quit QEMU over this socket.
    Quit(String),
    /// Nothing: the guard is done.
    Finished,
}

/// The view of a [`GuardAction`].
pub enum GuardActionView {
    /// Wait for the forwarded port.
    WaitForPort,
    /// Run the probe.
    RunProbe,
    /// Store the verdict.
    Store,
    /// Quit QEMU over this socket.
    Quit(Seq<char>),
    /// Nothing.
    Finished,
}

impl View for GuardAction {
    type V = GuardActionView;

    open spec fn view(&self) -> GuardActionView {
        match self {
            GuardAction::WaitForPort => GuardActionView::WaitForPort,
            GuardAction::RunProbe => GuardActionView::RunProbe,
            GuardAction::Store => GuardActionView::Store,
            GuardAction::Quit(socket) => GuardActionView::Quit(socket@),
            GuardAction::Finished => GuardActionView::Finished,
        }
    }
}

/// How far the guard has come.
#[derive(Debug, Clone, Copy, PartialEq, Eq, Structural)]
pub enum GuardStage {
    /// The port is not known to be ready.
    Waiting,
    /// The probe is to be run.
    Probing,
    /// The verdict is to be stored.
    Storing,
    /// QEMU is to be quit.
    Quitting,
    /// There is nothing left to do.
    Done,
}

/// The guard of a probe, on its own thread.
#[derive(Debug)]
pub struct Guard {
    timeout_secs: u64,
    case_name: String,
    socket: Option<String>,
    stage: GuardStage,
    verdict: Result<(), Failure>,
}

/// The view of a [`Guard`].
pub struct GuardState {
    /// How long the wait for the port may take, in seconds.
    pub timeout_secs: u64,
    /// Name of the case.
    pub case_name: Seq<char>,
    /// Path of the QMP socket, where there is one.
    pub socket: Option<Seq<char>>,
    /// How far the guard has come.
    pub stage: GuardStage,
    /// The verdict, from when it is to be stored.
    pub verdict: Result<(), FailureView>,
}

impl View for Guard {
    type V = GuardState;

    closed spec fn view(&self) -> GuardState {
        GuardState {
            timeout_secs: self.timeout_secs,
            case_name: self.case_name@,
            socket: text::optional(self.socket),
            stage: self.stage,
            verdict: verdict_view(self.verdict),
        }
    }
}

impl GuardState {
    /// The state at the beginning.
    pub open spec fn start(timeout_secs: u64, case_name: Seq<char>, socket: Option<Seq<char>>) -> GuardState {
        GuardState {
            timeout_secs,
            case_name,
            socket,
            stage: GuardStage::Waiting,
            verdict: Ok(()),
        }
    }

    /// Whether the state is one that a guard rests in.
    pub open spec fn wf(self) -> bool {
        self.stage == GuardStage::Quitting ==> self.socket is Some
    }

    /// What the guard does next.
    pub open spec fn action(self) -> GuardActionView {
        match self.stage {
            GuardStage::Waiting => GuardActionView::WaitForPort,
            GuardStage::Probing => GuardActionView::RunProbe,
            GuardStage::Storing => GuardActionView::Store,
            GuardStage::Quitting => GuardActionView::Quit(self.socket->0),
            GuardStage::Done => GuardActionView::Finished,
        }
    }

    /// The state after the wait for the port. The probe runs only once the port
    /// is ready.
    pub open spec fn waited(self, result: Result<(), FailureView>) -> GuardState {
        match result {
            Ok(_) => GuardState { stage: GuardStage::Probing, ..self },
            Err(failure) => GuardState {
                stage: GuardStage::Storing,
                verdict: Err(
                    failure.within(
                        "guest HTTP server never became reachable within "@ + text::seconds(
                            self.timeout_secs as nat,
                        ),
                    ),
                ),
                ..self
            },
        }
    }

    /// The state after the probe.
    pub open spec fn probed(self, result: Result<(), FailureView>) -> GuardState {
        GuardState { stage: GuardStage::Storing, verdict: result, ..self }
    }

    /// The state after the verdict was stored. QEMU is quit whatever the
    /// verdict, where there is a socket.
    pub open spec fn stored(self) -> GuardState {
        GuardState {
            stage: if self.socket is Some {
                GuardStage::Quitting
            } else {
                GuardStage::Done
            },
            verdict: Ok(()),
            ..self
        }
    }

    /// The state after quitting QEMU.
    pub open spec fn quit(self) -> GuardState {
        GuardState { stage: GuardStage::Done, ..self }
    }

    /// The line about a failure to quit QEMU.
    pub open spec fn quit_line(self, failure: FailureView) -> Seq<char> {
        "  host http probe: "@ + self.case_name + ": failed to quit QEMU via QMP: "@
            + failure.line()
    }
}

impl Guard {
    /// The guard of the probe of `case_name`.
    ///
    /// `socket` is the path QEMU binds for its monitor. Without one the guard
    /// only stores the verdict and relies on the timeout of the run.
    pub fn start(timeout_secs: u64, case_name: &str, socket: Option<String>) -> (r: Guard)
        ensures
            r@ == GuardState::start(timeout_secs, case_name@, text::optional(socket)),
            r@.wf(),
    {
        Guard {
            timeout_secs,
            case_name: case_name.to_string(),
            socket,
            stage: GuardStage::Waiting,
            verdict: Ok(()),
        }
    }

    /// What the guard does next.
    pub fn action(&self) -> (r: GuardAction)
        requires
            self@.wf(),
        ensures
            r@ == self@.action(),
    {
        match self.stage {
            GuardStage::Waiting => GuardAction::WaitForPort,
            GuardStage::Probing => GuardAction::RunProbe,
            GuardStage::Storing => GuardAction::Store,
            GuardStage::Quitting => match &self.socket {
                Some(socket) => GuardAction::Quit(socket.clone()),
                None => GuardAction::Finished,
            },
            GuardStage::Done => GuardAction::Finished,
        }
    }

    /// Hands over what the wait for the port came to.
    pub fn waited(&mut self, result: Result<(), Failure>)
        requires
            old(self)@.wf(),
            old(self)@.action() is WaitForPort,
        ensures
            final(self)@ == old(self)@.waited(verdict_view(result)),
            final(self)@.wf(),
    {
        match result {
            Ok(_) => {
                self.stage = GuardStage::Probing;
            },
            Err(failure) => {
                let span: String = text::seconds_text(self.timeout_secs);
                let context: String =
                    "guest HTTP server never became reachable within ".to_string().concat(
                    span.as_str(),
                );
                self.stage = GuardStage::Storing;
                self.verdict = Err(failure.context(context));
            },
        }
    }

    /// Hands over the verdict of the probe.
    pub fn probed(&mut self, result: Result<(), Failure>)
        requires
            old(self)@.wf(),
            old(self)@.action() is RunProbe,
        ensures
            final(self)@ == old(self)@.probed(verdict_view(result)),
            final(self)@.wf(),
    {
        self.stage = GuardStage::Storing;
        self.verdict = result;
    }

    /// Takes the verdict, to be stored.
    pub fn store(&mut self) -> (r: Result<(), Failure>)
        requires
            old(self)@.wf(),
            old(self)@.action() is Store,
        ensures
            verdict_view(r) == old(self)@.verdict,
            final(self)@ == old(self)@.stored(),
            final(self)@.wf(),
    {
        let mut verdict: Result<(), Failure> = Ok(());
        std::mem::swap(&mut verdict, &mut self.verdict);
        self.stage = if self.socket.is_some() {
            GuardStage::Quitting
        } else {
            GuardStage::Done
        };
        verdict
    }

    /// Hands over what quitting QEMU came to, and gives the line to report
    /// where it failed.
    pub fn quit(&mut self, result: Result<(), Failure>) -> (r: Option<String>)
        requires
            old(self)@.wf(),
            old(self)@.action() is Quit,
        ensures
            final(self)@ == old(self)@.quit(),
            final(self)@.wf(),
            text::optional(r) == (match result {
                Ok(_) => None,
                Err(failure) => Some(old(self)@.quit_line(failure@)),
            }),
    {
        self.stage = GuardStage::Done;
        match result {
            Ok(_) => None,
            Err(failure) => {
                let line: String = failure.to_text();
                Some(
                    "  host http probe: ".to_string().concat(self.case_name.as_str()).concat(
                        ": failed to quit QEMU via QMP: ",
                    ).concat(line.as_str()),
                )
            },
        }
    }
}

/// Something that a guard is told.
pub enum GuardEvent {
    /// What the wait for the port came to.
    Waited(Result<(), FailureView>),
    /// The verdict of the probe.
    Probed(Result<(), FailureView>),
    /// That the verdict is stored.
    Stored,
    /// That QEMU has been told to quit, or could not be.
    Quit,
}

/// The state after `event`. The guard only listens to what it has asked for.
pub open spec fn guard_after(state: GuardState, event: GuardEvent) -> GuardState {
    match (state.action(), event) {
        (GuardActionView::WaitForPort, GuardEvent::Waited(result)) => state.waited(result),
        (GuardActionView::RunProbe, GuardEvent::Probed(result)) => state.probed(result),
        (GuardActionView::Store, GuardEvent::Stored) => state.stored(),
        (GuardActionView::Quit(_), GuardEvent::Quit) => state.quit(),
        _ => state,
    }
}

/// The state after `events`, in order.
pub open spec fn guard_run(state: GuardState, events: Seq<GuardEvent>) -> GuardState
    decreases events.len(),
{
    if events.len() == 0 {
        state
    } else {
        guard_after(guard_run(state, events.drop_last()), events.last())
    }
}

/// A verdict is always stored before QEMU is quit: whatever the guard has been
/// told, it asks to quit QEMU, or is done, only after it was told that the
/// verdict is stored. So once QEMU has exited, there is a verdict.
pub proof fn law_verdict_is_stored_before_quitting(
    timeout_secs: u64,
    case_name: Seq<char>,
    socket: Option<Seq<char>>,
    events: Seq<GuardEvent>,
)
    requires
        ({
            let state = guard_run(GuardState::start(timeout_secs, case_name, socket), events);
            state.action() is Quit || state.action() is Finished
        }),
    ensures
        exists|i: int|
            0 <= i < events.len() && #[trigger] events[i] is Stored && guard_run(
                GuardState::start(timeout_secs, case_name, socket),
                events.take(i),
            ).action() is Store,
    decreases events.len(),
{
    let start = GuardState::start(timeout_secs, case_name, socket);
    if events.len() > 0 {
        let init = events.drop_last();
        let before = guard_run(start, init);
        if before.action() is Quit || before.action() is Finished {
            law_verdict_is_stored_before_quitting(timeout_secs, case_name, socket, init);
            let i = choose|i: int|
                0 <= i < init.len() && #[trigger] init[i] is Stored && guard_run(
                    start,
                    init.take(i),
                ).action() is Store;
            assert(events[i] is Stored);
            assert(events.take(i) =~= init.take(i));
        } else {
            let i = events.len() - 1;
            assert(events[i] is Stored);
            assert(events.take(i) =~= init);
        }
    }
}

/// The probe runs only on a port that is ready, and its verdict is the one that
/// is stored; without a ready port the verdict is a failure.
pub proof fn law_guard_verdict(
    state: GuardState,
    waited: Result<(), FailureView>,
    probed: Result<(), FailureView>,
)
    requires
        state.action() is WaitForPort,
    ensures
        waited is Ok ==> state.waited(waited).action() is RunProbe && state.waited(waited).probed(
            probed,
        ).action() is Store && state.waited(waited).probed(probed).verdict == probed,
        waited is Err ==> state.waited(waited).action() is Store && state.waited(
            waited,
        ).verdict is Err && state.waited(waited).verdict->Err_0.cause == waited->Err_0.cause,
{
}

/// The address is on the local host, at the forwarded port.
pub proof fn law_address(host_port: u16)
    ensures
        "127.0.0.1:"@.is_prefix_of(address_of(host_port)),
        address_of(host_port).skip("127.0.0.1:"@.len() as int) == text::decimal(host_port as nat),
{
    assert(address_of(host_port).skip("127.0.0.1:"@.len() as int) =~= text::decimal(
        host_port as nat,
    ));
}

/// Starting a probe succeeds exactly if its thread has come up; what is
/// reported then names both ends, and the error names the case.
pub proof fn law_announcement(
    ready: bool,
    addr: Seq<char>,
    guest_port: u16,
    case_name: Seq<char>,
)
    ensures
        start_outcome(ready, addr, guest_port, case_name) is Ok <==> ready,
        ready ==> start_outcome(ready, addr, guest_port, case_name)->Ok_0
            == "  host http probe: "@ + addr + " -> guest:"@ + text::decimal(guest_port as nat),
        !ready ==> start_outcome(ready, addr, guest_port, case_name)->Err_0
            == "host http probe for `"@ + case_name + "` did not become ready"@,
{
}

/// The wait for the port is out of time once as many seconds as it may take
/// have passed since it began; a clock that was put back counts as no time.
pub proof fn law_port_deadline(state: PortState, now: u64, stop: bool)
    ensures
        state.is_late(now) <==> state.timeout_secs == 0 || now >= state.started
            + state.timeout_secs * 1_000_000_000,
        state.consulted(true, now).verdict == Err::<(), FailureView>(
            FailureView::plain("host http probe stopped"@),
        ),
        state.is_late(now) ==> state.consulted(false, now).verdict == Err::<(), FailureView>(
            FailureView::plain("timed out after "@ + text::seconds(state.timeout_secs as nat)),
        ),
        state.connected(false).next == PortAction::Sleep(100),
        state.connected(stop).verdict == state.verdict,
        PortState::start(state.timeout_secs, now).started == now,
        PortState::start(state.timeout_secs, now).verdict is Ok,
{
    assert(NANOS_PER_SEC == 1_000_000_000);
}

/// QEMU is told to quit once the verdict is stored, whatever it is, exactly if
/// there is a socket, and over that socket; after that the guard is done.
pub proof fn law_guard_quits(
    state: GuardState,
    waited: Result<(), FailureView>,
    failure: FailureView,
)
    requires
        state.action() is Store,
    ensures
        state.socket is Some ==> state.stored().action() == GuardActionView::Quit(
            state.socket->0,
        ),
        state.socket is None ==> state.stored().action() is Finished,
        state.stored().quit().action() is Finished,
        state.quit_line(failure) == "  host http probe: "@ + state.case_name
            + ": failed to quit QEMU via QMP: "@ + failure.line(),
        waited is Err ==> state.waited(waited).verdict->Err_0.contexts == seq![
            "guest HTTP server never became reachable within "@ + text::seconds(
                state.timeout_secs as nat,
            ),
        ] + waited->Err_0.contexts,
        state.waited(waited).socket == state.socket,
        state.probed(waited).socket == state.socket,
{
}

/// Timeouts, pauses and retries on the QMP socket are fixed, and a host without
/// unix sockets gives up before it has asked for anything.
pub proof fn law_qmp_timing(state: QmpState, socket: Seq<char>)
    ensures
        state.connected(true).next == QmpAction::SetTimeouts(200),
        state.connected(false).next == QmpAction::Sleep(100),
        QMP_CONNECT_RETRIES == 10,
        QmpState::start(socket, false).next == QmpAction::Finished,
        QmpState::start(socket, false).verdict == Err::<(), FailureView>(
            FailureView::plain("QMP unix sockets are not supported on this host"@),
        ),
        QmpState::start(socket, true).socket == socket,
{
}

/// The views of what a guard asks for keep every part of them.
pub proof fn law_views(socket: String)
    ensures
        GuardAction::Quit(socket)@ == GuardActionView::Quit(socket@),
        GuardAction::WaitForPort@ == GuardActionView::WaitForPort,
        GuardAction::RunProbe@ == GuardActionView::RunProbe,
        GuardAction::Store@ == GuardActionView::Store,
        GuardAction::Finished@ == GuardActionView::Finished,
{
}

/// A guard keeps what it is started with: how long it may wait, the name of the
/// case, and the socket, whatever it is.
pub proof fn law_guard_start(timeout_secs: u64, case_name: Seq<char>, socket: Option<Seq<char>>)
    ensures
        ({
            let start = GuardState::start(timeout_secs, case_name, socket);
            &&& start.timeout_secs == timeout_secs
            &&& start.case_name == case_name
            &&& start.socket == socket
            &&& start.action() is WaitForPort
        }),
        PortState::start(timeout_secs, timeout_secs).timeout_secs == timeout_secs,
{
}

}
