//! Lines for the host log, and errors with the context they were met in.

use vstd::prelude::*;

verus! {

/// How loud a log line is.
#[derive(Debug, Clone, Copy, PartialEq, Eq, Structural)]
pub enum Level {
    /// A normal state worth reporting.
    Info,
    /// Something the operator should look at.
    Warn,
}

/// One line for the host log.
#[derive(Debug, Clone, PartialEq, Eq)]
pub struct LogLine {
    /// How loud the line is.
    pub level: Level,
    /// The text of the line.
    pub text: String,
}

/// What a [`LogLine`] says.
pub struct LogLineView {
    /// How loud the line is.
    pub level: Level,
    /// The text of the line.
    pub text: Seq<char>,
}

impl View for LogLine {
    type V = LogLineView;

    open spec fn view(&self) -> LogLineView {
        LogLineView { level: self.level, text: self.text@ }
    }
}

/// The views of a sequence of log lines.
pub open spec fn lines(log: Seq<LogLine>) -> Seq<LogLineView> {
    log.map_values(|line: LogLine| line@)
}

/// An error together with what was being done when it was met, the outermost
/// activity first.
#[derive(Debug, Clone, PartialEq, Eq)]
pub struct Failure {
    /// What was being done, outermost first.
    pub contexts: Vec<String>,
    /// The error itself.
    pub cause: String,
}

/// What a [`Failure`] says.
#[verifier::ext_equal]
pub struct FailureView {
    /// What was being done, outermost first.
    pub contexts: Seq<Seq<char>>,
    /// The error itself.
    pub cause: Seq<char>,
}

impl FailureView {
    /// An error met while doing nothing in particular.
    pub open spec fn plain(cause: Seq<char>) -> FailureView {
        FailureView { contexts: Seq::empty(), cause }
    }

    /// This error, met while doing `context`.
    pub open spec fn within(self, context: Seq<char>) -> FailureView {
        FailureView { contexts: seq![context] + self.contexts, cause: self.cause }
    }
}

impl FailureView {
    /// The error on one line, after everything that was being done.
    pub open spec fn line(self) -> Seq<char> {
        crate::text::joined(self.contexts.push(self.cause), ": "@)
    }
}

impl View for Failure {
    type V = FailureView;

    open spec fn view(&self) -> FailureView {
        FailureView { contexts: crate::text::views(self.contexts@), cause: self.cause@ }
    }
}

impl Failure {
    /// An error met while doing nothing in particular.
    pub fn new(cause: String) -> (r: Failure)
        ensures
            r@ == FailureView::plain(cause@),
    {
        let r = Failure { contexts: Vec::new(), cause };
        assert(r@.contexts =~= Seq::empty());
        r
    }

    /// The error on one line, after everything that was being done.
    pub fn to_text(&self) -> (r: String)
        ensures
            r@ == self@.line(),
    {
        let mut pieces: Vec<String> = Vec::new();
        let mut i: usize = 0;
        while i < self.contexts.len()
            invariant
                i <= self.contexts.len(),
                pieces.len() == i,
                forall|j: int| 0 <= j < i ==> (#[trigger] pieces@[j])@ == self.contexts@[j]@,
            decreases self.contexts.len() - i,
        {
            pieces.push(self.contexts[i].clone());
            i = i + 1;
        }
        pieces.push(self.cause.clone());
        assert(crate::text::views(pieces@) =~= self@.contexts.push(self@.cause));
        crate::text::join(pieces.as_slice(), ": ")
    }

    /// The error `self`, met while doing `context`.
    pub fn context(self, context: String) -> (r: Failure)
        ensures
            r@ == self@.within(context@),
    {
        let mut contexts = self.contexts;
        contexts.insert(0, context);
        let r = Failure { contexts, cause: self.cause };
        assert(r@.contexts =~= seq![context@] + self@.contexts);
        r
    }
}

/// The error on one line is the error itself, after each context and a colon,
/// the context that was added last in front.
pub proof fn law_failure_line(failure: FailureView, context: Seq<char>, cause: Seq<char>)
    ensures
        FailureView::plain(cause).line() == cause,
        failure.within(context).line() == context + ": "@ + failure.line(),
{
    let plain = FailureView::plain(cause);
    assert(plain.contexts.push(plain.cause) =~= seq![cause]);
    let all = failure.contexts.push(failure.cause);
    assert(failure.within(context).contexts.push(failure.cause) =~= seq![context] + all);
    crate::text_laws::law_joined(seq![context], all, ": "@);
}

/// A context goes in front of the others, and changes nothing of them or of the
/// cause; a plain error has none.
pub proof fn law_context(failure: FailureView, context: Seq<char>, cause: Seq<char>)
    ensures
        failure.within(context).cause == failure.cause,
        failure.within(context).contexts.len() == failure.contexts.len() + 1,
        failure.within(context).contexts[0] == context,
        failure.within(context).contexts.drop_first() == failure.contexts,
        FailureView::plain(cause).cause == cause,
        FailureView::plain(cause).contexts.len() == 0,
{
    assert(failure.within(context).contexts.drop_first() =~= failure.contexts);
}

/// The view of a log, or of an error, keeps every line of it as it is.
pub proof fn law_views(log: Seq<LogLine>, failure: Failure)
    ensures
        lines(log).len() == log.len(),
        forall|i: int|
            0 <= i < log.len() ==> (#[trigger] lines(log)[i]).level == log[i].level && lines(
                log,
            )[i].text == log[i].text@,
        failure@.cause == failure.cause@,
        failure@.contexts.len() == failure.contexts@.len(),
        forall|i: int|
            0 <= i < failure.contexts@.len() ==> (#[trigger] failure@.contexts[i])
                == failure.contexts@[i]@,
{
}

}
