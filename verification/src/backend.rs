//! The two mechanisms by which a terminal is driven, and the choice between
//! them.

use vstd::prelude::*;
use crate::error::{Failure, Outcome};
use crate::mode::RawModeCommand;

verus! {

/// The control sequence that switches to the alternate screen.
pub const ENTER_ALTERNATE_SCREEN_CSI_SEQUENCE: &'static str = "\x1B[?1049h";

/// The control sequence that switches back to the main screen.
pub const LEAVE_ALTERNATE_SCREEN_CSI_SEQUENCE: &'static str = "\x1B[?1049l";

/// The mechanism that drives the terminal.
#[derive(Clone, Copy, Debug, PartialEq, Eq)]
pub enum Backend {
    /// Control sequences written to the output stream.
    Ansi,
    /// Calls into the console of the operating system.
    Native,
}

/// A transition of the terminal that the guards ask for.
#[derive(Clone, Copy, Debug, PartialEq, Eq)]
pub enum Request {
    /// Switch from the main screen to the alternate screen.
    EnterAlternate,
    /// Switch the input from normal to raw mode.
    EnableRaw,
    /// Switch the input from raw mode back to normal.
    DisableRaw,
    /// Switch from the alternate screen back to the main screen.
    LeaveAlternate,
}

/// What the host has to do to the terminal for one request.
#[derive(Clone, Copy, Debug, PartialEq, Eq)]
pub enum Operation {
    /// Write the control sequence to the output stream and flush it.
    Write(&'static str),
    /// Allocate a secondary screen buffer and make it the active one.
    CreateScreenBuffer,
    /// Make the primary screen buffer the active one again.
    RestoreScreenBuffer,
    /// Read the input mode and write back what `enable` makes of it.
    EnableRaw(RawModeCommand),
    /// Read the input mode and write back what `disable` makes of it.
    DisableRaw(RawModeCommand),
}

impl Operation {
    /// The failure to report when the operation ends with the error code
    /// `code`: a write that failed is an input/output failure, anything that
    /// the console refused is a platform failure.
    pub open spec fn spec_failure(self, code: i32) -> Failure {
        match self {
            Operation::Write(_) => Failure::Io(code),
            _ => Failure::Platform(code),
        }
    }

    /// The failure to report when the operation ends with the error code
    /// `code`.
    #[verifier::when_used_as_spec(spec_failure)]
    pub fn failure(self, code: i32) -> (failure: Failure)
        ensures
            failure == self.spec_failure(code),
    {
        match self {
            Operation::Write(_) => Failure::Io(code),
            _ => Failure::Platform(code),
        }
    }
}

impl Backend {
    /// How this backend carries out a request, if it can.
    ///
    /// Raw mode has no control sequence: of the sequence backend nothing can
    /// be asked but the two screen switches.
    pub open spec fn spec_operation(self, request: Request) -> Option<Operation> {
        match (self, request) {
            (Backend::Ansi, Request::EnterAlternate) => Some(
                Operation::Write(ENTER_ALTERNATE_SCREEN_CSI_SEQUENCE),
            ),
            (Backend::Ansi, Request::LeaveAlternate) => Some(
                Operation::Write(LEAVE_ALTERNATE_SCREEN_CSI_SEQUENCE),
            ),
            (Backend::Ansi, _) => None,
            (Backend::Native, Request::EnterAlternate) => Some(Operation::CreateScreenBuffer),
            (Backend::Native, Request::LeaveAlternate) => Some(Operation::RestoreScreenBuffer),
            (Backend::Native, Request::EnableRaw) => Some(
                Operation::EnableRaw(RawModeCommand::standard()),
            ),
            (Backend::Native, Request::DisableRaw) => Some(
                Operation::DisableRaw(RawModeCommand::standard()),
            ),
        }
    }

    /// How this backend carries out a request: `None` where it cannot.
    #[verifier::when_used_as_spec(spec_operation)]
    pub fn operation(self, request: Request) -> (operation: Option<Operation>)
        ensures
            operation == self.spec_operation(request),
    {
        match self {
            Backend::Ansi => match request {
                Request::EnterAlternate => Some(
                    Operation::Write(ENTER_ALTERNATE_SCREEN_CSI_SEQUENCE),
                ),
                Request::LeaveAlternate => Some(
                    Operation::Write(LEAVE_ALTERNATE_SCREEN_CSI_SEQUENCE),
                ),
                _ => None,
            },
            Backend::Native => match request {
                Request::EnterAlternate => Some(Operation::CreateScreenBuffer),
                Request::LeaveAlternate => Some(Operation::RestoreScreenBuffer),
                Request::EnableRaw => Some(Operation::EnableRaw(RawModeCommand::new())),
                Request::DisableRaw => Some(Operation::DisableRaw(RawModeCommand::new())),
            },
        }
    }
}

impl Backend {
    /// The failure that `outcome` reports of `request` on this backend, if it
    /// reports one. A request that the backend cannot carry out has failed
    /// whatever the outcome says: it is a failure of the platform.
    pub open spec fn spec_failed(self, request: Request, outcome: Outcome) -> Option<Failure> {
        match (self.operation(request), outcome) {
            (Some(_), Ok(_)) => None,
            (Some(operation), Err(code)) => Some(operation.failure(code)),
            (None, Ok(_)) => Some(Failure::Platform(0)),
            (None, Err(code)) => Some(Failure::Platform(code)),
        }
    }

    /// The failure that `outcome` reports of `request` on this backend, if it
    /// reports one.
    #[verifier::when_used_as_spec(spec_failed)]
    pub fn failed(self, request: Request, outcome: Outcome) -> (failure: Option<Failure>)
        ensures
            failure == self.spec_failed(request, outcome),
    {
        match self.operation(request) {
            Some(operation) => match outcome {
                Ok(_) => None,
                Err(code) => Some(operation.failure(code)),
            },
            None => match outcome {
                Ok(_) => Some(Failure::Platform(0)),
                Err(code) => Some(Failure::Platform(code)),
            },
        }
    }
}

/// Raw mode goes through the console: the sequence backend has no operation
/// for it, and the native backend clears and sets the line input, echo and
/// processed input bits of the input mode.
pub proof fn raw_mode_is_native()
    ensures
        Backend::Ansi.operation(Request::EnableRaw) is None,
        Backend::Ansi.operation(Request::DisableRaw) is None,
        Backend::Native.operation(Request::EnableRaw) matches Some(Operation::EnableRaw(command))
            && command.mask() == 0x0007,
        Backend::Native.operation(Request::DisableRaw) matches Some(
            Operation::DisableRaw(command),
        ) && command.mask() == 0x0007,
{
    RawModeCommand::standard_mask();
}

/// Which failure a backend reports. Where it can carry the request out,
/// success is no failure, a write that failed is an input/output failure,
/// and what the console refused is a platform failure, each with the code
/// that the host gave. Raw mode on the sequence backend never succeeds.
pub proof fn failure_follows_the_mechanism(backend: Backend, request: Request, code: i32)
    ensures
        backend.operation(request) is Some ==> backend.failed(request, Ok(())) is None,
        backend.operation(request) is None ==> backend.failed(request, Ok(())) is Some,
        backend.operation(request) is None <==> backend == Backend::Ansi && (request
            == Request::EnableRaw || request == Request::DisableRaw),
        backend.failed(request, Err(code)) == Some(
            if backend.operation(request) matches Some(Operation::Write(_)) {
                Failure::Io(code)
            } else {
                Failure::Platform(code)
            },
        ),
        backend.operation(request) matches Some(Operation::Write(_)) <==> backend == Backend::Ansi
            && (request == Request::EnterAlternate || request == Request::LeaveAlternate),
{
}

/// The backend for a console of which it is known, or not, that it honours
/// control sequences. Without a positive answer the choice is the native
/// backend, which every console has.
pub open spec fn backend_for(answer: Option<bool>) -> Backend {
    if answer == Some(true) {
        Backend::Ansi
    } else {
        Backend::Native
    }
}

/// The backend for a console that does or does not honour control sequences.
pub fn alternate_screen(supports_ansi: bool) -> (backend: Backend)
    ensures
        backend == backend_for(Some(supports_ansi)),
{
    if supports_ansi {
        Backend::Ansi
    } else {
        Backend::Native
    }
}

/// Remembers the backend once it has been chosen, so that the console is
/// asked at most once.
#[derive(Clone, Copy, Debug)]
pub struct CapabilityProbe {
    chosen: Option<Backend>,
}

impl CapabilityProbe {
    /// The choice made so far.
    pub closed spec fn spec_chosen(&self) -> Option<Backend> {
        self.chosen
    }

    /// The choice that `select` makes, given the choice made so far and the
    /// console's answer.
    pub open spec fn selection(chosen: Option<Backend>, answer: Option<bool>) -> Backend {
        match chosen {
            Some(backend) => backend,
            None => backend_for(answer),
        }
    }

    /// A probe that has not chosen yet.
    pub fn new() -> (probe: Self)
        ensures
            probe.spec_chosen() is None,
    {
        CapabilityProbe { chosen: None }
    }

    /// A probe for a platform that offers one mechanism only.
    pub fn fixed(backend: Backend) -> (probe: Self)
        ensures
            probe.spec_chosen() == Some(backend),
    {
        CapabilityProbe { chosen: Some(backend) }
    }

    /// The choice made so far. While it is `None` the host asks the console
    /// and hands the answer to `select`; afterwards it need not ask again.
    #[verifier::when_used_as_spec(spec_chosen)]
    pub fn chosen(&self) -> (chosen: Option<Backend>)
        ensures
            chosen == self.spec_chosen(),
    {
        self.chosen
    }

    /// Chooses the backend. The first call decides by `answer`, where `None`
    /// says that the console could not be asked; every later call returns
    /// the first choice and ignores its argument.
    pub fn select(&mut self, answer: Option<bool>) -> (backend: Backend)
        ensures
            backend == Self::selection(old(self).chosen(), answer),
            final(self).chosen() == Some(backend),
    {
        match self.chosen {
            Some(backend) => backend,
            None => {
                let backend = match answer {
                    Some(supports_ansi) => alternate_screen(supports_ansi),
                    None => Backend::Native,
                };
                self.chosen = Some(backend);
                backend
            },
        }
    }
}

/// Once a backend has been chosen, no later answer changes the choice.
pub proof fn selection_is_memoized(chosen: Option<Backend>, first: Option<bool>, later: Option<bool>)
    ensures
        CapabilityProbe::selection(Some(CapabilityProbe::selection(chosen, first)), later)
            == CapabilityProbe::selection(chosen, first),
{
}

/// A console that cannot be asked, or that answers no, gets the native
/// backend; only a positive answer gives the sequence backend.
pub proof fn selection_fails_closed(answer: Option<bool>)
    ensures
        CapabilityProbe::selection(None, answer) == Backend::Ansi <==> answer == Some(true),
        CapabilityProbe::selection(None, answer) == Backend::Native <==> answer != Some(true),
{
}

} // verus!
