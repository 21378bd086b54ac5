//! The guard of a raw-mode session.
//!
//! In raw mode the terminal hands over input byte by byte, without line
//! buffering, echo or any treatment of special characters.

use vstd::prelude::*;
use crate::backend::{Backend, Request};
use crate::error::{ErrorKind, Outcome};
use crate::release::Release;
use crate::transition::{run, trace};

verus! {

/// A raw-mode session.
///
/// Raw mode is switched off when the guard is released, unless
/// `keep_raw_mode_on_drop` was called on it.
#[derive(Debug)]
pub struct RawScreen {
    disable_raw_mode_on_drop: bool,
}

impl RawScreen {
    /// Whether the release of the guard switches raw mode off.
    pub closed spec fn spec_restores(&self) -> bool {
        self.disable_raw_mode_on_drop
    }

    /// The guard as it is handed out: one that switches raw mode off.
    pub closed spec fn armed() -> RawScreen {
        RawScreen { disable_raw_mode_on_drop: true }
    }

    /// The guard that is handed out switches raw mode off on release.
    pub proof fn armed_restores()
        ensures
            RawScreen::armed().restores_on_release(),
    {
    }

    /// What an attempt to switch raw mode on comes to: the guard when it
    /// went well, a platform error with the code of the attempt when it did
    /// not.
    pub open spec fn guarding(enabled: Outcome) -> Result<RawScreen, ErrorKind> {
        match Backend::Native.failed(Request::EnableRaw, enabled) {
            None => Ok(RawScreen::armed()),
            Some(failure) => Err(ErrorKind::of(failure)),
        }
    }

    /// The guard for a raw-mode session, given how the attempt to switch raw
    /// mode on went. There is a guard exactly when it went well.
    pub fn into_raw_mode(enabled: Outcome) -> (guard: Result<RawScreen, ErrorKind>)
        ensures
            guard == RawScreen::guarding(enabled),
            guard is Ok <==> enabled is Ok,
            guard matches Ok(screen) ==> screen.restores_on_release(),
            enabled matches Err(code) ==> guard == Err::<RawScreen, ErrorKind>(
                ErrorKind::PlatformError(code),
            ),
    {
        match Backend::Native.failed(Request::EnableRaw, enabled) {
            None => Ok(RawScreen { disable_raw_mode_on_drop: true }),
            Some(failure) => Err(ErrorKind::from_failure(failure)),
        }
    }

    /// What a caller who switches raw mode off by hand gets back, given how
    /// the attempt went: a failure is a platform error with the code of the
    /// attempt.
    pub fn disable_raw_mode(disabled: Outcome) -> (result: Result<(), ErrorKind>)
        ensures
            result == match disabled {
                Ok(_) => Ok(()),
                Err(code) => Err(ErrorKind::PlatformError(code)),
            },
    {
        match Backend::Native.failed(Request::DisableRaw, disabled) {
            None => Ok(()),
            Some(failure) => Err(ErrorKind::from_failure(failure)),
        }
    }

    /// Keeps raw mode on when the guard is released.
    pub fn keep_raw_mode_on_drop(&mut self)
        ensures
            !final(self).restores_on_release(),
    {
        self.disable_raw_mode_on_drop = false;
    }

    /// Says whether the release of the guard is to switch raw mode off.
    pub fn set_restore_on_release(&mut self, restore: bool)
        ensures
            final(self).restores_on_release() == restore,
    {
        self.disable_raw_mode_on_drop = restore;
    }

    /// Whether the release of the guard switches raw mode off.
    #[verifier::when_used_as_spec(spec_restores)]
    pub fn restores_on_release(&self) -> (restores: bool)
        ensures
            restores == self.spec_restores(),
    {
        self.disable_raw_mode_on_drop
    }

    /// Ends the session. The release asks for raw mode to be switched off
    /// if the guard restores, and for nothing if it does not; it reports no
    /// failure.
    pub fn release(self) -> (release: Release)
        ensures
            release == Release::begin(self.restores_on_release(), None, false),
    {
        Release::begin(self.disable_raw_mode_on_drop, None, false)
    }
}

/// `std::io::Stdout`, as an opaque type: nothing is claimed of its values.
#[verifier::external_type_specification]
#[verifier::external_body]
pub struct ExStdout(std::io::Stdout);

/// Raw mode as a method of the writer that the terminal is driven through.
///
/// The state of a terminal is controlled through its writer, not its reader:
/// the writer clears the screen and moves the cursor, so the writer switches
/// the mode as well.
pub trait IntoRawMode: Sized {
    /// The guard for a raw-mode session on this writer, given how the
    /// attempt to switch raw mode on went.
    fn into_raw_mode(self, enabled: Outcome) -> (guard: Result<RawScreen, ErrorKind>)
        ensures
            guard == RawScreen::guarding(enabled),
    ;
}

impl IntoRawMode for std::io::Stdout {
    fn into_raw_mode(self, enabled: Outcome) -> (guard: Result<RawScreen, ErrorKind>) {
        RawScreen::into_raw_mode(enabled)
    }
}

/// The release of a guard that keeps raw mode on asks nothing of the
/// terminal; that of a guard that restores asks once for raw mode to be
/// switched off. Either way it ends in success, whatever the terminal
/// answers.
pub proof fn release_follows_the_flag(restores: bool, outcomes: Seq<Outcome>)
    requires
        outcomes.len() >= 1,
    ensures
        trace(Release::begin(restores, None, false), outcomes) == if restores {
            seq![Request::DisableRaw]
        } else {
            Seq::<Request>::empty()
        },
        run(Release::begin(restores, None, false), outcomes) == Release::Done(Ok(())),
{
    crate::release::release_attempts_every_step(restores, None, false, outcomes);
    crate::release::release_reports_first_failure(restores, None, false, outcomes);
    assert(Release::steps(false, None) =~= Seq::<Request>::empty());
    assert(Release::steps(true, None) =~= seq![Request::DisableRaw]);
}

} // verus!
