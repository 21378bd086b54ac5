//! Giving the terminal back: raw mode off, then the alternate screen left.

use vstd::prelude::*;
use crate::backend::{Backend, Operation, Request};
use crate::error::{ErrorKind, Failure, Outcome};
use crate::transition::{run, settled_stays, trace, Transition};

verus! {

/// The release of a guard in progress.
///
/// Every step is attempted, whatever became of the one before. A release
/// that the caller asked for reports the first failure; one that comes with
/// the end of a guard reports none.
#[derive(Clone, Copy, Debug, PartialEq, Eq)]
pub enum Release {
    /// The raw-mode bits are to be set again. `then_leave` names the backend
    /// on which the alternate screen is to be left after that.
    DisablingRaw { then_leave: Option<Backend>, explicit: bool },
    /// The alternate screen is to be left. `first` is the failure of the
    /// step before, if it failed.
    Leaving { backend: Backend, first: Option<Failure>, explicit: bool },
    /// Nothing is left to do.
    Done(Result<(), ErrorKind>),
}

/// What a release reports in the end, given the first failure that it met.
pub open spec fn verdict(first: Option<Failure>, explicit: bool) -> Result<(), ErrorKind> {
    match first {
        Some(failure) if explicit => Err(ErrorKind::of(failure)),
        _ => Ok(()),
    }
}

/// The earlier of two failures, of which `first` is the one that was met
/// before `second`.
pub open spec fn earlier(first: Option<Failure>, second: Option<Failure>) -> Option<Failure> {
    match first {
        Some(failure) => Some(failure),
        None => second,
    }
}

fn decide(first: Option<Failure>, explicit: bool) -> (result: Result<(), ErrorKind>)
    ensures
        result == verdict(first, explicit),
{
    match first {
        Some(failure) => if explicit {
            Err(ErrorKind::from_failure(failure))
        } else {
            Ok(())
        },
        None => Ok(()),
    }
}

fn keep_earlier(first: Option<Failure>, second: Option<Failure>) -> (kept: Option<Failure>)
    ensures
        kept == earlier(first, second),
{
    match first {
        Some(failure) => Some(failure),
        None => second,
    }
}

impl Release {
    /// The release that sets the raw-mode bits again if `raw` says so, and
    /// then leaves the alternate screen on the backend that `leave` names, if
    /// it names one.
    pub open spec fn spec_begin(raw: bool, leave: Option<Backend>, explicit: bool) -> Release {
        if raw {
            Release::DisablingRaw { then_leave: leave, explicit }
        } else {
            match leave {
                Some(backend) => Release::Leaving { backend, first: None, explicit },
                None => Release::Done(Ok(())),
            }
        }
    }

    /// The requests of `begin(raw, leave, _)`, in their order.
    pub open spec fn steps(raw: bool, leave: Option<Backend>) -> Seq<Request> {
        let first = if raw {
            seq![Request::DisableRaw]
        } else {
            Seq::empty()
        };
        let second = if leave is Some {
            seq![Request::LeaveAlternate]
        } else {
            Seq::empty()
        };
        first + second
    }

    /// The first failure among the answers to the requests of
    /// `begin(raw, leave, _)`, where `outcomes` holds an answer to each of
    /// them: raw mode is switched off by the console, the alternate screen is
    /// left by its backend.
    pub open spec fn first_failure(
        raw: bool,
        leave: Option<Backend>,
        outcomes: Seq<Outcome>,
    ) -> Option<Failure> {
        let of_raw = if raw {
            Backend::Native.failed(Request::DisableRaw, outcomes[0])
        } else {
            None
        };
        let of_leave = match leave {
            Some(backend) if raw => backend.failed(Request::LeaveAlternate, outcomes[1]),
            Some(backend) => backend.failed(Request::LeaveAlternate, outcomes[0]),
            None => None,
        };
        earlier(of_raw, of_leave)
    }

    /// Begins a release: raw mode off if `raw` says so, then the alternate
    /// screen left on the backend that `leave` names, if it names one. With
    /// `explicit` the release reports the first failure, without it none.
    #[verifier::when_used_as_spec(spec_begin)]
    pub fn begin(raw: bool, leave: Option<Backend>, explicit: bool) -> (release: Release)
        ensures
            release == Release::spec_begin(raw, leave, explicit),
    {
        if raw {
            Release::DisablingRaw { then_leave: leave, explicit }
        } else {
            match leave {
                Some(backend) => Release::Leaving { backend, first: None, explicit },
                None => Release::Done(Ok(())),
            }
        }
    }

    /// The requests that the release makes from this state on. They do not
    /// depend on what the host answers.
    pub open spec fn plan(self) -> Seq<Request> {
        match self {
            Release::DisablingRaw { then_leave: Some(_), .. } => seq![
                Request::DisableRaw,
                Request::LeaveAlternate,
            ],
            Release::DisablingRaw { then_leave: None, .. } => seq![Request::DisableRaw],
            Release::Leaving { .. } => seq![Request::LeaveAlternate],
            Release::Done(_) => Seq::empty(),
        }
    }

    /// What the release has come to: `None` while a request is pending.
    pub open spec fn spec_result(self) -> Option<Result<(), ErrorKind>> {
        match self {
            Release::Done(result) => Some(result),
            _ => None,
        }
    }

    /// What the release has come to: `None` while a request is pending.
    #[verifier::when_used_as_spec(spec_result)]
    pub fn result(self) -> (result: Option<Result<(), ErrorKind>>)
        ensures
            result == self.spec_result(),
            result is None <==> self.spec_request() is Some,
    {
        match self {
            Release::Done(result) => Some(result),
            _ => None,
        }
    }
}

impl Transition for Release {
    open spec fn spec_request(&self) -> Option<Request> {
        match *self {
            Release::DisablingRaw { .. } => Some(Request::DisableRaw),
            Release::Leaving { .. } => Some(Request::LeaveAlternate),
            Release::Done(_) => None,
        }
    }

    /// Raw mode is always left by the native mechanism; the alternate screen
    /// by the backend that entered it.
    open spec fn spec_operation(&self) -> Option<Operation> {
        match *self {
            Release::DisablingRaw { .. } => Backend::Native.operation(Request::DisableRaw),
            Release::Leaving { backend, .. } => backend.operation(Request::LeaveAlternate),
            Release::Done(_) => None,
        }
    }

    open spec fn spec_resume(self, outcome: Outcome) -> Release {
        match self {
            Release::DisablingRaw { then_leave: Some(backend), explicit } => Release::Leaving {
                backend,
                first: Backend::Native.failed(Request::DisableRaw, outcome),
                explicit,
            },
            Release::DisablingRaw { then_leave: None, explicit } => Release::Done(
                verdict(Backend::Native.failed(Request::DisableRaw, outcome), explicit),
            ),
            Release::Leaving { backend, first, explicit } => Release::Done(
                verdict(
                    earlier(first, backend.failed(Request::LeaveAlternate, outcome)),
                    explicit,
                ),
            ),
            Release::Done(result) => Release::Done(result),
        }
    }

    proof fn settled(self, outcome: Outcome) {
    }

    fn request(&self) -> (request: Option<Request>) {
        match self {
            Release::DisablingRaw { .. } => Some(Request::DisableRaw),
            Release::Leaving { .. } => Some(Request::LeaveAlternate),
            Release::Done(_) => None,
        }
    }

    fn operation(&self) -> (operation: Option<Operation>) {
        match self {
            Release::DisablingRaw { .. } => Backend::Native.operation(Request::DisableRaw),
            Release::Leaving { backend, .. } => backend.operation(Request::LeaveAlternate),
            Release::Done(_) => None,
        }
    }

    fn resume(self, outcome: Outcome) -> (next: Release) {
        match self {
            Release::DisablingRaw { then_leave, explicit } => {
                let first = Backend::Native.failed(Request::DisableRaw, outcome);
                match then_leave {
                    Some(backend) => Release::Leaving { backend, first, explicit },
                    None => Release::Done(decide(first, explicit)),
                }
            },
            Release::Leaving { backend, first, explicit } => {
                let second = backend.failed(Request::LeaveAlternate, outcome);
                Release::Done(decide(keep_earlier(first, second), explicit))
            },
            Release::Done(result) => Release::Done(result),
        }
    }
}

/// A release asks for its steps in their order, and for each of them: what
/// the host answers changes nothing about what is asked next.
pub proof fn release_attempts_every_step(
    raw: bool,
    leave: Option<Backend>,
    explicit: bool,
    outcomes: Seq<Outcome>,
)
    ensures
        Release::begin(raw, leave, explicit).plan() == Release::steps(raw, leave),
        outcomes.len() >= Release::steps(raw, leave).len() ==> trace(
            Release::begin(raw, leave, explicit),
            outcomes,
        ) == Release::steps(raw, leave),
        outcomes.len() <= Release::steps(raw, leave).len() ==> trace(
            Release::begin(raw, leave, explicit),
            outcomes,
        ) == Release::steps(raw, leave).take(outcomes.len() as int),
{
    let start = Release::begin(raw, leave, explicit);
    let steps = Release::steps(raw, leave);
    assert(start.plan() =~= steps);
    if outcomes.len() > 0 {
        let rest = outcomes.drop_first();
        let second = start.spec_resume(outcomes.first());
        if rest.len() > 0 {
            let third = second.spec_resume(rest.first());
            assert(third is Done);
            settled_stays(third, rest.drop_first());
        }
        assert(trace(second, rest) =~= second.plan().take(
            if rest.len() <= second.plan().len() {
                rest.len() as int
            } else {
                second.plan().len() as int
            },
        ));
    }
    if outcomes.len() >= steps.len() {
        assert(trace(start, outcomes) =~= steps);
    }
    if outcomes.len() <= steps.len() {
        assert(trace(start, outcomes) =~= steps.take(outcomes.len() as int));
    }
}

/// Once every step has got its answer the release has come to its end. One
/// that the caller asked for reports the first failure among the answers to
/// its steps; one that came with the end of a guard reports success whatever
/// the answers were.
pub proof fn release_reports_first_failure(
    raw: bool,
    leave: Option<Backend>,
    explicit: bool,
    outcomes: Seq<Outcome>,
)
    requires
        outcomes.len() >= Release::steps(raw, leave).len(),
    ensures
        run(Release::begin(raw, leave, explicit), outcomes) == Release::Done(
            verdict(Release::first_failure(raw, leave, outcomes), explicit),
        ),
        !explicit ==> run(Release::begin(raw, leave, explicit), outcomes) == Release::Done(Ok(())),
{
    reveal_with_fuel(run, 3);
    let start = Release::begin(raw, leave, explicit);
    let n = Release::steps(raw, leave).len();
    if n == 0 {
        settled_stays(start, outcomes);
    } else {
        let rest = outcomes.drop_first();
        let second = start.spec_resume(outcomes.first());
        if n == 1 {
            assert(second is Done);
            settled_stays(second, rest);
        } else {
            let third = second.spec_resume(rest.first());
            assert(third is Done);
            settled_stays(third, rest.drop_first());
        }
    }
}

} // verus!
