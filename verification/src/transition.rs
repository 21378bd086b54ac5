//! A transition of the terminal as a conversation between a guard and its
//! host: the guard says what is to be done to the terminal, the host does it
//! and reports how it went, and the guard decides what follows.

use vstd::prelude::*;
use crate::backend::{Operation, Request};
use crate::error::Outcome;

verus! {

/// A transition in progress.
///
/// The host asks for the pending request, carries it out, and hands the
/// outcome to `resume`, until nothing is pending.
pub trait Transition: Sized {
    /// The request that the host has to carry out now; `None` once the
    /// transition has come to its end.
    spec fn spec_request(&self) -> Option<Request>;

    /// The pending request as the operation that carries it out.
    spec fn spec_operation(&self) -> Option<Operation>;

    /// The state after the host has reported the outcome of the pending
    /// request.
    spec fn spec_resume(self, outcome: Outcome) -> Self;

    /// A transition without a pending request stays as it is, whatever it
    /// is told.
    proof fn settled(self, outcome: Outcome)
        requires
            self.spec_request() is None,
        ensures
            self.spec_resume(outcome) == self,
    ;

    /// The request that the host has to carry out now.
    fn request(&self) -> (request: Option<Request>)
        ensures
            request == self.spec_request(),
    ;

    /// The pending request as the operation that carries it out: there is
    /// one exactly when a request is pending.
    fn operation(&self) -> (operation: Option<Operation>)
        ensures
            operation == self.spec_operation(),
            operation is Some <==> self.spec_request() is Some,
    ;

    /// Takes the outcome of the pending request and moves on. Without a
    /// pending request the state stays as it is.
    fn resume(self, outcome: Outcome) -> (next: Self)
        ensures
            next == self.spec_resume(outcome),
            self.spec_request() is None ==> next == self,
    ;
}

/// The state that a transition reaches when the host answers its requests
/// with `outcomes`, in this order.
pub open spec fn run<T: Transition>(start: T, outcomes: Seq<Outcome>) -> T
    decreases outcomes.len(),
{
    if outcomes.len() == 0 {
        start
    } else {
        run(start.spec_resume(outcomes.first()), outcomes.drop_first())
    }
}

/// The requests that a transition makes of a host that answers with
/// `outcomes`, in this order: each request that has got its answer.
pub open spec fn trace<T: Transition>(start: T, outcomes: Seq<Outcome>) -> Seq<Request>
    decreases outcomes.len(),
{
    if outcomes.len() == 0 {
        Seq::empty()
    } else {
        match start.spec_request() {
            None => Seq::empty(),
            Some(request) => seq![request] + trace(
                start.spec_resume(outcomes.first()),
                outcomes.drop_first(),
            ),
        }
    }
}

/// A transition that has come to its end stays there: it asks for nothing
/// more and does not change, whatever the host goes on to tell it.
pub proof fn settled_stays<T: Transition>(start: T, outcomes: Seq<Outcome>)
    requires
        start.spec_request() is None,
    ensures
        run(start, outcomes) == start,
        trace(start, outcomes) == Seq::<Request>::empty(),
    decreases outcomes.len(),
{
    if outcomes.len() > 0 {
        start.settled(outcomes.first());
        settled_stays(start, outcomes.drop_first());
    }
}

} // verus!
