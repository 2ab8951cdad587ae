//! Failures with their causes.

use vstd::prelude::*;

use crate::text;

verus! {

/// What went wrong, and what caused it, the nearest cause first.
#[derive(Debug, PartialEq, Eq)]
pub struct Failure {
    pub message: String,
    pub causes: Vec<String>,
}

/// What a [`Failure`] says.
pub struct FailureView {
    pub message: Seq<char>,
    pub causes: Seq<Seq<char>>,
}

impl View for Failure {
    type V = FailureView;

    open spec fn view(&self) -> FailureView {
        FailureView { message: self.message@, causes: text::texts(self.causes@) }
    }
}

/// Each cause behind a colon.
pub open spec fn trail(causes: Seq<Seq<char>>) -> Seq<char>
    decreases causes.len(),
{
    if causes.len() == 0 {
        Seq::empty()
    } else {
        trail(causes.drop_last()) + ": "@ + causes.last()
    }
}

impl FailureView {
    /// A failure without a cause.
    pub open spec fn plain(message: Seq<char>) -> Self {
        FailureView { message, causes: Seq::empty() }
    }

    /// The failure that this one causes.
    pub open spec fn context(self, message: Seq<char>) -> Self {
        FailureView { message, causes: seq![self.message] + self.causes }
    }

    /// The failure and its causes in one line.
    pub open spec fn one_line(self) -> Seq<char> {
        self.message + trail(self.causes)
    }
}

impl Failure {
    /// A failure without a cause.
    pub fn plain(message: String) -> (failure: Self)
        ensures
            failure@ == FailureView::plain(message@),
    {
        let failure = Failure { message, causes: Vec::new() };
        assert(failure@.causes == Seq::<Seq<char>>::empty());
        failure
    }

    /// The failure that this one causes.
    pub fn context(self, message: &str) -> (failure: Self)
        ensures
            failure@ == self@.context(message@),
    {
        let Failure { message: cause, causes: mut further } = self;
        let mut causes: Vec<String> = Vec::new();
        causes.push(cause);
        causes.append(&mut further);
        let failure = Failure { message: message.to_string(), causes };
        assert(failure@.causes == self@.context(message@).causes);
        failure
    }

    /// The failure and its causes in one line.
    pub fn one_line(&self) -> (line: String)
        ensures
            line@ == self@.one_line(),
    {
        let mut line = self.message.clone();
        proof {
            assert(text::texts(self.causes@.take(0)) == Seq::<Seq<char>>::empty());
        }
        for i in 0..self.causes.len()
            invariant
                line@ == self.message@ + trail(text::texts(self.causes@.take(i as int))),
        {
            proof {
                let seen = text::texts(self.causes@.take(i + 1));
                assert(seen.drop_last() == text::texts(self.causes@.take(i as int)));
                assert(seen.last() == self.causes@[i as int]@);
            }
            line.append(": ");
            line.append(self.causes[i].as_str());
            assert(line@ == self.message@ + trail(text::texts(self.causes@.take(i + 1))));
        }
        proof {
            assert(self.causes@.take(self.causes@.len() as int) == self.causes@);
        }
        line
    }
}

impl Clone for Failure {
    fn clone(&self) -> (copy: Self)
        ensures
            copy@ == self@,
    {
        let mut causes: Vec<String> = Vec::new();
        for i in 0..self.causes.len()
            invariant
                causes@.len() == i,
                forall|j: int| 0 <= j < i ==> (#[trigger] causes@[j])@ == self.causes@[j]@,
        {
            causes.push(self.causes[i].clone());
        }
        let copy = Failure { message: self.message.clone(), causes };
        assert(copy@.causes == self@.causes);
        copy
    }
}

impl From<&str> for Failure {
    fn from(message: &str) -> (failure: Failure)
        ensures
            failure@ == FailureView::plain(message@),
    {
        Failure::plain(message.to_string())
    }
}

impl vstd::std_specs::convert::FromSpecImpl<&str> for Failure {
    open spec fn obeys_from_spec() -> bool {
        false
    }

    open spec fn from_spec(message: &str) -> Failure {
        arbitrary()
    }
}

/// A context that is put on a failure hides neither the failure nor a context
/// that was put on it before.
pub proof fn context_keeps_the_cause(failure: FailureView, inner: Seq<char>, outer: Seq<char>)
    ensures
        failure.context(inner).context(outer).message == outer,
        failure.context(inner).context(outer).causes == seq![inner, failure.message]
            + failure.causes,
{
}

/// In one line, a failure without a cause is its message, and a context stands
/// before what it was put on, with a colon between them.
pub proof fn one_line_tells_all(failure: FailureView, message: Seq<char>)
    ensures
        FailureView::plain(message).one_line() == message,
        failure.context(message).one_line() == message + ": "@ + failure.one_line(),
{
    assert(message + trail(Seq::empty()) == message);
    lemma_trail(failure.message, failure.causes);
    assert(message + (": "@ + failure.message + trail(failure.causes)) == message + ": "@ + (
    failure.message + trail(failure.causes)));
}

proof fn lemma_trail(first: Seq<char>, causes: Seq<Seq<char>>)
    ensures
        trail(seq![first] + causes) == ": "@ + first + trail(causes),
    decreases causes.len(),
{
    let all = seq![first] + causes;
    if causes.len() == 0 {
        assert(all.drop_last() == Seq::<Seq<char>>::empty());
        assert(all.last() == first);
        assert(trail(Seq::empty()) == Seq::<char>::empty());
        assert(trail(all) == Seq::<char>::empty() + ": "@ + first);
    } else {
        lemma_trail(first, causes.drop_last());
        assert(all.drop_last() == seq![first] + causes.drop_last());
        assert(all.last() == causes.last());
        assert(trail(all) == ": "@ + first + trail(causes.drop_last()) + ": "@ + causes.last());
    }
}

} // verus!
