//! The two screen switches as commands for a dispatcher: each has its
//! control sequence, and an operation for consoles that take none.

use vstd::prelude::*;
use crate::backend::{
    alternate_screen,
    backend_for,
    Backend,
    Operation,
    Request,
    ENTER_ALTERNATE_SCREEN_CSI_SEQUENCE,
    LEAVE_ALTERNATE_SCREEN_CSI_SEQUENCE,
};

verus! {

/// A command to switch to the alternate screen.
#[derive(Clone, Copy, Debug, PartialEq, Eq)]
pub struct EnterAlternateScreen;

/// A command to switch back to the main screen.
#[derive(Clone, Copy, Debug, PartialEq, Eq)]
pub struct LeaveAlternateScreen;

impl EnterAlternateScreen {
    /// The transition that the command asks for.
    pub fn request(&self) -> (request: Request)
        ensures
            request == Request::EnterAlternate,
    {
        Request::EnterAlternate
    }

    /// The control sequence of the command: `ESC [ ? 1 0 4 9 h`.
    pub fn ansi_code(&self) -> (code: &'static str)
        ensures
            code == ENTER_ALTERNATE_SCREEN_CSI_SEQUENCE,
            code@ == seq!['\x1B', '[', '?', '1', '0', '4', '9', 'h'],
    {
        proof {
            reveal_strlit("\x1B[?1049h");
        }
        assert(ENTER_ALTERNATE_SCREEN_CSI_SEQUENCE@ =~= seq![
            '\x1B',
            '[',
            '?',
            '1',
            '0',
            '4',
            '9',
            'h',
        ]);
        ENTER_ALTERNATE_SCREEN_CSI_SEQUENCE
    }

    /// The operation that carries the command out on a console that does or
    /// does not honour control sequences.
    pub fn execute_winapi(&self, supports_ansi: bool) -> (operation: Operation)
        ensures
            Some(operation) == backend_for(Some(supports_ansi)).operation(Request::EnterAlternate),
    {
        match alternate_screen(supports_ansi) {
            Backend::Ansi => Operation::Write(ENTER_ALTERNATE_SCREEN_CSI_SEQUENCE),
            Backend::Native => Operation::CreateScreenBuffer,
        }
    }
}

impl LeaveAlternateScreen {
    /// The transition that the command asks for.
    pub fn request(&self) -> (request: Request)
        ensures
            request == Request::LeaveAlternate,
    {
        Request::LeaveAlternate
    }

    /// The control sequence of the command: `ESC [ ? 1 0 4 9 l`.
    pub fn ansi_code(&self) -> (code: &'static str)
        ensures
            code == LEAVE_ALTERNATE_SCREEN_CSI_SEQUENCE,
            code@ == seq!['\x1B', '[', '?', '1', '0', '4', '9', 'l'],
    {
        proof {
            reveal_strlit("\x1B[?1049l");
        }
        assert(LEAVE_ALTERNATE_SCREEN_CSI_SEQUENCE@ =~= seq![
            '\x1B',
            '[',
            '?',
            '1',
            '0',
            '4',
            '9',
            'l',
        ]);
        LEAVE_ALTERNATE_SCREEN_CSI_SEQUENCE
    }

    /// The operation that carries the command out on a console that does or
    /// does not honour control sequences.
    pub fn execute_winapi(&self, supports_ansi: bool) -> (operation: Operation)
        ensures
            Some(operation) == backend_for(Some(supports_ansi)).operation(Request::LeaveAlternate),
    {
        match alternate_screen(supports_ansi) {
            Backend::Ansi => Operation::Write(LEAVE_ALTERNATE_SCREEN_CSI_SEQUENCE),
            Backend::Native => Operation::RestoreScreenBuffer,
        }
    }
}

} // verus!
