//! The guard of an alternate-screen session, and the way into one.
//!
//! The alternate screen is a second display buffer of the size of the
//! window, without scrollback. What is shown on it is gone when the terminal
//! goes back to the main screen, which comes back as it was.

use vstd::prelude::*;
use crate::backend::{Backend, Operation, Request};
use crate::error::{ErrorKind, Failure, Outcome};
use crate::raw::RawScreen;
use crate::release::Release;
use crate::transition::{run, settled_stays, trace, Transition};

verus! {

/// An alternate-screen session, with the raw-mode session inside it if one
/// was asked for.
///
/// The release of the guard always asks for the main screen, after it has
/// asked for raw mode to be switched off where there is a raw-mode session.
#[derive(Debug)]
pub struct AlternateScreen {
    backend: Backend,
    raw_screen: Option<RawScreen>,
}

impl AlternateScreen {
    /// The backend that entered the alternate screen.
    pub closed spec fn spec_backend(&self) -> Backend {
        self.backend
    }

    /// Whether the guard holds a raw-mode session, and whether that one
    /// restores on release.
    pub closed spec fn raw(&self) -> Option<bool> {
        match self.raw_screen {
            Some(screen) => Some(screen.restores_on_release()),
            None => None,
        }
    }

    /// The guard as it is handed out after the alternate screen was entered
    /// on `backend`, with a raw-mode session if `raw_mode` says so.
    pub closed spec fn entered(backend: Backend, raw_mode: bool) -> AlternateScreen {
        AlternateScreen {
            backend,
            raw_screen: if raw_mode {
                Some(RawScreen::armed())
            } else {
                None
            },
        }
    }

    /// What the guard that is handed out holds.
    pub proof fn entered_holds(backend: Backend, raw_mode: bool)
        ensures
            AlternateScreen::entered(backend, raw_mode).backend() == backend,
            AlternateScreen::entered(backend, raw_mode).raw() == if raw_mode {
                Some(true)
            } else {
                None
            },
    {
        RawScreen::armed_restores();
    }

    /// The release of this guard: raw mode off where the guard holds a
    /// raw-mode session that restores, then the main screen.
    pub open spec fn leaving(&self, explicit: bool) -> Release {
        Release::begin(self.raw() == Some(true), Some(self.backend()), explicit)
    }

    /// Begins the switch to the alternate screen on `backend`, with raw mode
    /// switched on as well if `raw_mode` says so.
    pub fn to_alternate(raw_mode: bool, backend: Backend) -> (enter: Enter)
        ensures
            enter == (Enter::Entering { backend, raw_mode }),
    {
        Enter::Entering { backend, raw_mode }
    }

    /// Begins the switch back to the main screen, ahead of the end of the
    /// guard. The raw-mode session, if there is one, ends with it and leaves
    /// the guard. The release reports the first failure.
    pub fn to_main(&mut self) -> (release: Release)
        ensures
            release == old(self).leaving(true),
            *final(self) == AlternateScreen::entered(old(self).backend(), false),
            final(self).backend() == old(self).backend(),
            final(self).raw() is None,
    {
        let raw = match self.raw_screen.take() {
            Some(screen) => screen.restores_on_release(),
            None => false,
        };
        Release::begin(raw, Some(self.backend), true)
    }

    /// Ends the session. The release asks for the same steps as `to_main`
    /// and reports no failure.
    pub fn release(self) -> (release: Release)
        ensures
            release == self.leaving(false),
    {
        let raw = match self.raw_screen {
            Some(screen) => screen.restores_on_release(),
            None => false,
        };
        Release::begin(raw, Some(self.backend), false)
    }

    /// The backend that entered the alternate screen.
    #[verifier::when_used_as_spec(spec_backend)]
    pub fn backend(&self) -> (backend: Backend)
        ensures
            backend == self.spec_backend(),
    {
        self.backend
    }

    /// Whether the guard holds a raw-mode session.
    pub fn is_raw(&self) -> (held: bool)
        ensures
            held == self.raw() is Some,
    {
        self.raw_screen.is_some()
    }
}

/// The switch to the alternate screen in progress.
#[derive(Debug)]
pub enum Enter {
    /// The alternate screen is to be entered.
    Entering { backend: Backend, raw_mode: bool },
    /// The alternate screen is entered; raw mode is to be switched on.
    EnablingRaw { backend: Backend },
    /// Raw mode could not be switched on; the alternate screen is to be left
    /// again.
    RollingBack { backend: Backend, cause: Failure },
    /// Nothing is left to do.
    Done(Result<AlternateScreen, ErrorKind>),
}

impl Enter {
    /// What the switch has come to: `None` while a request is pending.
    pub open spec fn spec_finish(self) -> Option<Result<AlternateScreen, ErrorKind>> {
        match self {
            Enter::Done(result) => Some(result),
            _ => None,
        }
    }

    /// What the switch has come to: the guard or the error, and `None` while
    /// a request is pending.
    #[verifier::when_used_as_spec(spec_finish)]
    pub fn finish(self) -> (result: Option<Result<AlternateScreen, ErrorKind>>)
        ensures
            result == self.spec_finish(),
            result is None <==> self.spec_request() is Some,
    {
        match self {
            Enter::Done(result) => Some(result),
            _ => None,
        }
    }
}

impl Transition for Enter {
    open spec fn spec_request(&self) -> Option<Request> {
        match *self {
            Enter::Entering { .. } => Some(Request::EnterAlternate),
            Enter::EnablingRaw { .. } => Some(Request::EnableRaw),
            Enter::RollingBack { .. } => Some(Request::LeaveAlternate),
            Enter::Done(_) => None,
        }
    }

    /// Raw mode is always switched on by the native mechanism; the alternate
    /// screen is entered and left by the backend of the session.
    open spec fn spec_operation(&self) -> Option<Operation> {
        match *self {
            Enter::Entering { backend, .. } => backend.spec_operation(Request::EnterAlternate),
            Enter::EnablingRaw { .. } => Backend::Native.spec_operation(Request::EnableRaw),
            Enter::RollingBack { backend, .. } => backend.spec_operation(Request::LeaveAlternate),
            Enter::Done(_) => None,
        }
    }

    open spec fn spec_resume(self, outcome: Outcome) -> Enter {
        match self {
            Enter::Entering { backend, raw_mode } => match backend.failed(
                Request::EnterAlternate,
                outcome,
            ) {
                Some(failure) => Enter::Done(Err(ErrorKind::of(failure))),
                None => if raw_mode {
                    Enter::EnablingRaw { backend }
                } else {
                    Enter::Done(Ok(AlternateScreen::entered(backend, false)))
                },
            },
            Enter::EnablingRaw { backend } => match Backend::Native.failed(
                Request::EnableRaw,
                outcome,
            ) {
                Some(failure) => Enter::RollingBack { backend, cause: failure },
                None => Enter::Done(Ok(AlternateScreen::entered(backend, true))),
            },
            Enter::RollingBack { cause, .. } => Enter::Done(
                Err(ErrorKind::CompositionError(cause)),
            ),
            Enter::Done(result) => Enter::Done(result),
        }
    }

    proof fn settled(self, outcome: Outcome) {
    }

    fn request(&self) -> (request: Option<Request>) {
        match self {
            Enter::Entering { .. } => Some(Request::EnterAlternate),
            Enter::EnablingRaw { .. } => Some(Request::EnableRaw),
            Enter::RollingBack { .. } => Some(Request::LeaveAlternate),
            Enter::Done(_) => None,
        }
    }

    fn operation(&self) -> (operation: Option<Operation>) {
        match self {
            Enter::Entering { backend, .. } => backend.operation(Request::EnterAlternate),
            Enter::EnablingRaw { .. } => Backend::Native.operation(Request::EnableRaw),
            Enter::RollingBack { backend, .. } => backend.operation(Request::LeaveAlternate),
            Enter::Done(_) => None,
        }
    }

    fn resume(self, outcome: Outcome) -> (next: Enter) {
        match self {
            Enter::Entering { backend, raw_mode } => match backend.failed(
                Request::EnterAlternate,
                outcome,
            ) {
                Some(failure) => Enter::Done(Err(ErrorKind::from_failure(failure))),
                None => if raw_mode {
                    Enter::EnablingRaw { backend }
                } else {
                    Enter::Done(Ok(AlternateScreen { backend, raw_screen: None }))
                },
            },
            Enter::EnablingRaw { backend } => match RawScreen::into_raw_mode(outcome) {
                Ok(screen) => Enter::Done(
                    Ok(AlternateScreen { backend, raw_screen: Some(screen) }),
                ),
                Err(error) => Enter::RollingBack { backend, cause: error.cause() },
            },
            Enter::RollingBack { backend: _, cause } => Enter::Done(
                Err(ErrorKind::CompositionError(cause)),
            ),
            Enter::Done(result) => Enter::Done(result),
        }
    }
}

/// The requests on the way into the alternate screen, given how entering it
/// and switching raw mode on go.
pub open spec fn entering_steps(
    raw_mode: bool,
    entered: Outcome,
    enabled: Outcome,
) -> Seq<Request> {
    if entered is Err || !raw_mode {
        seq![Request::EnterAlternate]
    } else if enabled is Ok {
        seq![Request::EnterAlternate, Request::EnableRaw]
    } else {
        seq![Request::EnterAlternate, Request::EnableRaw, Request::LeaveAlternate]
    }
}

/// What the way into the alternate screen comes to, given how entering it
/// and switching raw mode on go: the guard when every step that was asked
/// for went well; the failure of entering as it is; the failure of raw mode
/// as a composition error.
pub open spec fn entering_result(
    backend: Backend,
    raw_mode: bool,
    entered: Outcome,
    enabled: Outcome,
) -> Result<AlternateScreen, ErrorKind> {
    match backend.failed(Request::EnterAlternate, entered) {
        Some(failure) => Err(ErrorKind::of(failure)),
        None => if !raw_mode {
            Ok(AlternateScreen::entered(backend, false))
        } else {
            match Backend::Native.failed(Request::EnableRaw, enabled) {
                None => Ok(AlternateScreen::entered(backend, true)),
                Some(failure) => Err(ErrorKind::CompositionError(failure)),
            }
        },
    }
}

/// The way into the alternate screen, whatever the terminal answers: the
/// alternate screen is entered first; raw mode is switched on after that,
/// if it was asked for and entering went well; and if raw mode fails, the
/// alternate screen is left again before the error is handed out, however
/// leaving goes.
pub proof fn enter_comes_to(backend: Backend, raw_mode: bool, outcomes: Seq<Outcome>)
    requires
        outcomes.len() >= 3,
    ensures
        trace(Enter::Entering { backend, raw_mode }, outcomes) == entering_steps(
            raw_mode,
            outcomes[0],
            outcomes[1],
        ),
        run(Enter::Entering { backend, raw_mode }, outcomes) == Enter::Done(
            entering_result(backend, raw_mode, outcomes[0], outcomes[1]),
        ),
{
    let first = Enter::Entering { backend, raw_mode };
    let second = first.spec_resume(outcomes[0]);
    let after_one = outcomes.drop_first();
    let third = second.spec_resume(after_one[0]);
    let after_two = after_one.drop_first();
    let fourth = third.spec_resume(after_two[0]);
    let after_three = after_two.drop_first();
    assert(fourth is Done);
    settled_stays(fourth, after_three);
    assert(run(third, after_two) == fourth);
    assert(run(second, after_one) == fourth);
    assert(trace(third, after_two) =~= match third.spec_request() {
        Some(request) => seq![request],
        None => Seq::empty(),
    });
    assert(trace(second, after_one) =~= match second.spec_request() {
        Some(request) => seq![request] + trace(third, after_two),
        None => Seq::empty(),
    });
    assert(trace(first, outcomes) =~= entering_steps(raw_mode, outcomes[0], outcomes[1]));
}

/// No guard without success: the way into the alternate screen hands out a
/// guard only if entering went well and, where raw mode was asked for,
/// switching it on went well too; and then it is the guard of just that
/// session.
pub proof fn guard_means_success(backend: Backend, raw_mode: bool, outcomes: Seq<Outcome>)
    requires
        run(Enter::Entering { backend, raw_mode }, outcomes) matches Enter::Done(Ok(_)),
    ensures
        outcomes.len() >= 1 && outcomes[0] is Ok,
        raw_mode ==> outcomes.len() >= 2 && outcomes[1] is Ok,
        run(Enter::Entering { backend, raw_mode }, outcomes) == Enter::Done(
            Ok(AlternateScreen::entered(backend, raw_mode)),
        ),
{
    reveal_with_fuel(run, 4);
    let first = Enter::Entering { backend, raw_mode };
    if outcomes.len() >= 1 {
        let second = first.spec_resume(outcomes[0]);
        let after_one = outcomes.drop_first();
        if after_one.len() >= 1 {
            let third = second.spec_resume(after_one[0]);
            let after_two = after_one.drop_first();
            if after_two.len() >= 1 {
                let fourth = third.spec_resume(after_two[0]);
                assert(fourth is Done);
                settled_stays(fourth, after_two.drop_first());
            }
            assert(run(second, after_one) == run(third, after_two));
        }
    }
}

/// Entering and then releasing the guard asks the terminal for what was
/// entered last to be left first: with raw mode for the alternate screen,
/// for raw mode, for raw mode to be switched off, and for the main screen, in
/// this order; without raw mode for the alternate screen and for the main
/// screen. What the terminal answers to the release changes nothing about
/// it.
pub proof fn enter_then_release_is_nested(
    backend: Backend,
    raw_mode: bool,
    entering: Seq<Outcome>,
    explicit: bool,
    released: Seq<Outcome>,
)
    requires
        run(Enter::Entering { backend, raw_mode }, entering) matches Enter::Done(Ok(_)),
        released.len() >= 2,
    ensures
        run(Enter::Entering { backend, raw_mode }, entering) == Enter::Done(
            Ok(AlternateScreen::entered(backend, raw_mode)),
        ),
        trace(Enter::Entering { backend, raw_mode }, entering) + trace(
            AlternateScreen::entered(backend, raw_mode).leaving(explicit),
            released,
        ) == if raw_mode {
            seq![
                Request::EnterAlternate,
                Request::EnableRaw,
                Request::DisableRaw,
                Request::LeaveAlternate,
            ]
        } else {
            seq![Request::EnterAlternate, Request::LeaveAlternate]
        },
{
    guard_means_success(backend, raw_mode, entering);
    let first = Enter::Entering { backend, raw_mode };
    let second = first.spec_resume(entering[0]);
    let after_one = entering.drop_first();
    if raw_mode {
        let third = second.spec_resume(after_one[0]);
        settled_stays(third, after_one.drop_first());
        assert(trace(second, after_one) =~= seq![Request::EnableRaw]);
        assert(trace(first, entering) =~= seq![Request::EnterAlternate, Request::EnableRaw]);
    } else {
        settled_stays(second, after_one);
        assert(trace(first, entering) =~= seq![Request::EnterAlternate]);
    }
    AlternateScreen::entered_holds(backend, raw_mode);
    crate::release::release_attempts_every_step(raw_mode, Some(backend), explicit, released);
    assert(Release::steps(true, Some(backend)) =~= seq![
        Request::DisableRaw,
        Request::LeaveAlternate,
    ]);
    assert(Release::steps(false, Some(backend)) =~= seq![Request::LeaveAlternate]);
}

/// If raw mode cannot be switched on, the alternate screen is left again,
/// once, and the caller gets the failure of raw mode as a composition error,
/// whether leaving went well or not. Until leaving has been tried there is
/// no result, and there is never a guard.
pub proof fn failed_raw_mode_is_rolled_back(backend: Backend, outcomes: Seq<Outcome>)
    requires
        outcomes.len() >= 3,
        outcomes[0] is Ok,
        outcomes[1] is Err,
    ensures
        trace(Enter::Entering { backend, raw_mode: true }, outcomes) == seq![
            Request::EnterAlternate,
            Request::EnableRaw,
            Request::LeaveAlternate,
        ],
        run(Enter::Entering { backend, raw_mode: true }, outcomes) == Enter::Done(
            Err(ErrorKind::CompositionError(Failure::Platform(outcomes[1]->Err_0))),
        ),
        run(Enter::Entering { backend, raw_mode: true }, outcomes.take(2))
            == (Enter::RollingBack { backend, cause: Failure::Platform(outcomes[1]->Err_0) }),
{
    enter_comes_to(backend, true, outcomes);
    reveal_with_fuel(run, 3);
    let short = outcomes.take(2);
    let first = Enter::Entering { backend, raw_mode: true };
    let second = first.spec_resume(short[0]);
    let third = second.spec_resume(short[1]);
    assert(short.drop_first() =~= seq![short[1]]);
    assert(short.drop_first().drop_first() =~= Seq::<Outcome>::empty());
    assert(run(second, short.drop_first()) == third);
}

/// Where a switch or a release asks for raw mode, the operation is that of
/// the native backend, whatever the backend of the session.
pub proof fn raw_mode_bypasses_the_backend(
    backend: Backend,
    then_leave: Option<Backend>,
    explicit: bool,
)
    ensures
        (Enter::EnablingRaw { backend }).spec_operation() == Backend::Native.operation(
            Request::EnableRaw,
        ),
        (Release::DisablingRaw { then_leave, explicit }).spec_operation()
            == Backend::Native.operation(Request::DisableRaw),
{
}

/// Whatever a guard holds, its release ends by asking for the main screen;
/// a raw-mode session that keeps raw mode on takes nothing away from that.
pub proof fn release_always_leaves(guard: AlternateScreen, explicit: bool)
    ensures
        guard.leaving(explicit).plan().len() >= 1,
        guard.leaving(explicit).plan().last() == Request::LeaveAlternate,
        guard.leaving(explicit).plan().len() == 2 <==> guard.raw() == Some(true),
        guard.leaving(explicit).plan().len() == 2 ==> guard.leaving(explicit).plan().first()
            == Request::DisableRaw,
{
}

/// Leaving by hand and then releasing the guard: the raw-mode session ends
/// with the first, so the second asks for the main screen only, once more,
/// and it ends in success whatever the terminal answers.
pub proof fn leave_then_release(guard: AlternateScreen, first: Seq<Outcome>, second: Seq<Outcome>)
    requires
        first.len() >= 2,
        second.len() >= 1,
    ensures
        trace(guard.leaving(true), first) + trace(
            AlternateScreen::entered(guard.backend(), false).leaving(false),
            second,
        ) == guard.leaving(true).plan() + seq![Request::LeaveAlternate],
        run(AlternateScreen::entered(guard.backend(), false).leaving(false), second)
            == Release::Done(Ok(())),
{
    let backend = guard.backend();
    AlternateScreen::entered_holds(backend, false);
    crate::release::release_attempts_every_step(
        guard.raw() == Some(true),
        Some(backend),
        true,
        first,
    );
    crate::release::release_attempts_every_step(false, Some(backend), false, second);
    crate::release::release_reports_first_failure(false, Some(backend), false, second);
    assert(Release::steps(false, Some(backend)) =~= seq![Request::LeaveAlternate]);
}

} // verus!
