//! The I/O multiplexing test suites: `pipe` and `eventfd` unit tests plus an
//! `epoll` smoke test. They cover the syscall surface that async runtimes need
//! to drive timers and wake-ups on ArceOS.

use vstd::prelude::*;

verus! {

/// One suite.
#[derive(Debug, Clone, Copy, PartialEq, Eq, Structural)]
pub enum Suite {
    /// Pipes.
    Pipe,
    /// Event counters.
    Eventfd,
    /// Readiness notification.
    Epoll,
}

/// The suites, in the order in which they run.
pub open spec fn suites() -> Seq<Suite> {
    seq![Suite::Pipe, Suite::Eventfd, Suite::Epoll]
}

/// A run of the suites, where `E` is what a failing suite reports.
pub struct SuiteRun<E> {
    next: Option<Suite>,
    verdict: Result<(), E>,
}

/// The view of a [`SuiteRun`].
#[verifier::reject_recursive_types(E)]
pub struct SuiteState<E> {
    /// The suite to run next.
    pub next: Option<Suite>,
    /// The verdict, once there is none.
    pub verdict: Result<(), E>,
}

impl<E> View for SuiteRun<E> {
    type V = SuiteState<E>;

    closed spec fn view(&self) -> SuiteState<E> {
        SuiteState { next: self.next, verdict: self.verdict }
    }
}

/// The suite after `suite`.
pub open spec fn following(suite: Suite) -> Option<Suite> {
    match suite {
        Suite::Pipe => Some(Suite::Eventfd),
        Suite::Eventfd => Some(Suite::Epoll),
        Suite::Epoll => None,
    }
}

impl<E> SuiteState<E> {
    /// The state at the beginning.
    pub open spec fn start() -> SuiteState<E> {
        SuiteState { next: Some(Suite::Pipe), verdict: Ok(()) }
    }

    /// The state after the suite in hand has run: a failure is the verdict.
    pub open spec fn ran(self, result: Result<(), E>) -> SuiteState<E> {
        match result {
            Ok(_) => SuiteState { next: following(self.next->0), verdict: Ok(()) },
            Err(error) => SuiteState { next: None, verdict: Err(error) },
        }
    }
}

/// Starts running the suites.
pub fn run<E>() -> (r: SuiteRun<E>)
    ensures
        r@ == SuiteState::<E>::start(),
{
    SuiteRun { next: Some(Suite::Pipe), verdict: Ok(()) }
}

impl<E> SuiteRun<E> {
    /// The suite to run next.
    pub fn next(&self) -> (r: Option<Suite>)
        ensures
            r == self@.next,
    {
        self.next
    }

    /// Hands over what came of the suite in hand.
    pub fn ran(self, result: Result<(), E>) -> (r: SuiteRun<E>)
        requires
            self@.next is Some,
        ensures
            r@ == self@.ran(result),
    {
        match result {
            Ok(_) => SuiteRun {
                next: match self.next {
                    Some(Suite::Pipe) => Some(Suite::Eventfd),
                    Some(Suite::Eventfd) => Some(Suite::Epoll),
                    _ => None,
                },
                verdict: Ok(()),
            },
            Err(error) => SuiteRun { next: None, verdict: Err(error) },
        }
    }

    /// What the run comes to, that is the error of the first suite that failed, if any.
    pub fn into_verdict(self) -> (r: Result<(), E>)
        requires
            self@.next is None,
        ensures
            r == self@.verdict,
    {
        self.verdict
    }
}

/// The state after `n` suites have come out as `results`.
pub open spec fn after<E>(results: Seq<Result<(), E>>, n: nat) -> SuiteState<E>
    decreases n,
{
    if n == 0 {
        SuiteState::start()
    } else {
        after(results, (n - 1) as nat).ran(results[n - 1])
    }
}

/// The suites run one after the other as long as they pass, and the run passes
/// once all of them have.
pub proof fn law_suites_run_in_order<E>(results: Seq<Result<(), E>>, n: nat)
    requires
        n <= suites().len(),
        forall|i: int| 0 <= i < n ==> (#[trigger] results[i]) is Ok,
    ensures
        n < suites().len() ==> after(results, n).next == Some(suites()[n as int]),
        n == suites().len() ==> after(results, n).next is None,
        after(results, n).verdict is Ok,
    decreases n,
{
    if n > 0 {
        law_suites_run_in_order(results, (n - 1) as nat);
        assert(results[n - 1] is Ok);
    }
}

/// The first suite that fails ends the run, with its error as the verdict.
pub proof fn law_first_failure_is_the_verdict<E>(results: Seq<Result<(), E>>, n: nat)
    requires
        n < suites().len(),
        forall|i: int| 0 <= i < n ==> (#[trigger] results[i]) is Ok,
        results[n as int] is Err,
    ensures
        after(results, n + 1).next is None,
        after(results, n + 1).verdict == results[n as int],
{
    law_suites_run_in_order(results, n);
}

/// Pipes come first, then event counters, then readiness notification, each
/// only after the one before has passed, and nothing after the last.
pub proof fn law_order_of_suites<E>(verdict: Result<(), E>)
    ensures
        SuiteState::<E>::start().next == Some(Suite::Pipe),
        SuiteState::<E>::start().verdict is Ok,
        (SuiteState { next: Some(Suite::Pipe), verdict }).ran(Ok(())).next == Some(Suite::Eventfd),
        (SuiteState { next: Some(Suite::Eventfd), verdict }).ran(Ok(())).next == Some(Suite::Epoll),
        (SuiteState { next: Some(Suite::Epoll), verdict }).ran(Ok(())).next is None,
{
}

}
