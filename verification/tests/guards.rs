use crossterm_screen::{
    AlternateScreen, Backend, Enter, ErrorKind, Failure, IntoRawMode, Operation, Outcome,
    RawModeCommand, RawScreen, Release, Request, Transition,
};

/// A terminal that lives in memory: it keeps the input mode and the active
/// screen, writes down every request, and fails where it is told to.
struct FakeTerminal {
    mode: u32,
    raw_mask: u32,
    alternate: bool,
    written: Vec<&'static str>,
    log: Vec<Request>,
    failing: Vec<(Request, i32)>,
}

impl FakeTerminal {
    fn new() -> FakeTerminal {
        FakeTerminal {
            mode: 0b1111,
            raw_mask: 0b0011,
            alternate: false,
            written: Vec::new(),
            log: Vec::new(),
            failing: Vec::new(),
        }
    }

    fn failing(request: Request, code: i32) -> FakeTerminal {
        let mut terminal = FakeTerminal::new();
        terminal.failing.push((request, code));
        terminal
    }

    fn perform(&mut self, request: Request, operation: Operation) -> Outcome {
        self.log.push(request);
        for (failing, code) in self.failing.iter() {
            if *failing == request {
                return Err(*code);
            }
        }
        let command = RawModeCommand::with_mask(self.raw_mask);
        match operation {
            Operation::Write(sequence) => {
                self.written.push(sequence);
                self.alternate = sequence == "\u{1b}[?1049h";
            }
            Operation::CreateScreenBuffer => self.alternate = true,
            Operation::RestoreScreenBuffer => self.alternate = false,
            Operation::EnableRaw(_) => self.mode = command.enable(self.mode),
            Operation::DisableRaw(_) => self.mode = command.disable(self.mode),
        }
        Ok(())
    }

    fn drive<T: Transition>(&mut self, start: T) -> T {
        let mut transition = start;
        loop {
            let request = match transition.request() {
                Some(request) => request,
                None => return transition,
            };
            let operation = match transition.operation() {
                Some(operation) => operation,
                None => panic!("a pending request without an operation"),
            };
            let outcome = self.perform(request, operation);
            transition = transition.resume(outcome);
        }
    }

    fn enter(&mut self, raw_mode: bool, backend: Backend) -> Result<AlternateScreen, ErrorKind> {
        match self.drive(AlternateScreen::to_alternate(raw_mode, backend)).finish() {
            Some(result) => result,
            None => panic!("the switch did not come to an end"),
        }
    }

    fn release(&mut self, release: Release) -> Result<(), ErrorKind> {
        match self.drive(release).result() {
            Some(result) => result,
            None => panic!("the release did not come to an end"),
        }
    }
}

#[test]
fn enter_with_raw_mode_then_release() {
    let mut terminal = FakeTerminal::new();
    let guard = match terminal.enter(true, Backend::Native) {
        Ok(guard) => guard,
        Err(error) => panic!("no guard: {:?}", error),
    };
    assert_eq!(terminal.log, vec![Request::EnterAlternate, Request::EnableRaw]);
    assert!(terminal.alternate);
    assert_eq!(terminal.mode, 0b1100);
    assert!(guard.is_raw());
    assert_eq!(guard.backend(), Backend::Native);

    assert_eq!(terminal.release(guard.release()), Ok(()));
    assert_eq!(
        terminal.log,
        vec![
            Request::EnterAlternate,
            Request::EnableRaw,
            Request::DisableRaw,
            Request::LeaveAlternate,
        ]
    );
    assert!(!terminal.alternate);
    assert_eq!(terminal.mode, 0b1111);
}

#[test]
fn enter_on_the_sequence_backend_writes_both_sequences() {
    let mut terminal = FakeTerminal::new();
    let guard = match terminal.enter(true, Backend::Ansi) {
        Ok(guard) => guard,
        Err(error) => panic!("no guard: {:?}", error),
    };
    assert_eq!(terminal.written, vec!["\u{1b}[?1049h"]);
    assert_eq!(terminal.mode, 0b1100);
    assert_eq!(terminal.release(guard.release()), Ok(()));
    assert_eq!(terminal.written, vec!["\u{1b}[?1049h", "\u{1b}[?1049l"]);
    assert_eq!(
        terminal.log,
        vec![
            Request::EnterAlternate,
            Request::EnableRaw,
            Request::DisableRaw,
            Request::LeaveAlternate,
        ]
    );
    assert_eq!(terminal.mode, 0b1111);
}

#[test]
fn enter_without_raw_mode_touches_the_screen_only() {
    let mut terminal = FakeTerminal::new();
    let guard = match terminal.enter(false, Backend::Native) {
        Ok(guard) => guard,
        Err(error) => panic!("no guard: {:?}", error),
    };
    assert_eq!(terminal.log, vec![Request::EnterAlternate]);
    assert!(!guard.is_raw());
    assert_eq!(terminal.mode, 0b1111);
    assert_eq!(terminal.release(guard.release()), Ok(()));
    assert_eq!(
        terminal.log,
        vec![Request::EnterAlternate, Request::LeaveAlternate]
    );
}

#[test]
fn failed_raw_mode_rolls_the_screen_back() {
    let mut terminal = FakeTerminal::failing(Request::EnableRaw, 6);
    let result = terminal.enter(true, Backend::Native);
    assert!(matches!(
        result,
        Err(ErrorKind::CompositionError(Failure::Platform(6)))
    ));
    assert_eq!(
        terminal.log,
        vec![
            Request::EnterAlternate,
            Request::EnableRaw,
            Request::LeaveAlternate,
        ]
    );
    assert!(!terminal.alternate);
    assert_eq!(terminal.mode, 0b1111);
}

#[test]
fn rollback_asks_for_the_main_screen_exactly_once() {
    let mut terminal = FakeTerminal::failing(Request::EnableRaw, 6);
    let result = terminal.enter(true, Backend::Ansi);
    assert!(result.is_err());
    let leaves: usize = terminal
        .log
        .iter()
        .filter(|request| **request == Request::LeaveAlternate)
        .count();
    assert_eq!(leaves, 1);
    assert_eq!(terminal.written, vec!["\u{1b}[?1049h", "\u{1b}[?1049l"]);
}

#[test]
fn a_failed_rollback_does_not_replace_the_cause() {
    let mut terminal = FakeTerminal::failing(Request::EnableRaw, 6);
    terminal.failing.push((Request::LeaveAlternate, 32));
    let result = terminal.enter(true, Backend::Ansi);
    assert!(matches!(
        result,
        Err(ErrorKind::CompositionError(Failure::Platform(6)))
    ));
    assert_eq!(
        terminal.log,
        vec![
            Request::EnterAlternate,
            Request::EnableRaw,
            Request::LeaveAlternate,
        ]
    );
}

#[test]
fn a_failed_enter_surfaces_at_once() {
    let mut terminal = FakeTerminal::failing(Request::EnterAlternate, 32);
    let result = terminal.enter(true, Backend::Ansi);
    assert!(matches!(result, Err(ErrorKind::IoError(32))));
    assert_eq!(terminal.log, vec![Request::EnterAlternate]);

    let mut terminal = FakeTerminal::failing(Request::EnterAlternate, 5);
    let result = terminal.enter(false, Backend::Native);
    assert!(matches!(result, Err(ErrorKind::PlatformError(5))));
    assert_eq!(terminal.log, vec![Request::EnterAlternate]);
}

#[test]
fn the_switch_goes_step_by_step() {
    let enter = AlternateScreen::to_alternate(true, Backend::Ansi);
    assert!(matches!(
        enter,
        Enter::Entering {
            backend: Backend::Ansi,
            raw_mode: true
        }
    ));
    assert_eq!(enter.request(), Some(Request::EnterAlternate));
    assert_eq!(
        enter.operation(),
        Some(Operation::Write("\u{1b}[?1049h"))
    );

    let enter = enter.resume(Ok(()));
    assert!(matches!(
        enter,
        Enter::EnablingRaw {
            backend: Backend::Ansi
        }
    ));
    assert_eq!(enter.request(), Some(Request::EnableRaw));
    assert_eq!(
        enter.operation(),
        Some(Operation::EnableRaw(RawModeCommand::new()))
    );

    let enter = enter.resume(Err(6));
    assert!(matches!(
        enter,
        Enter::RollingBack {
            backend: Backend::Ansi,
            cause: Failure::Platform(6)
        }
    ));
    assert_eq!(enter.request(), Some(Request::LeaveAlternate));
    assert_eq!(
        enter.operation(),
        Some(Operation::Write("\u{1b}[?1049l"))
    );

    let enter = enter.resume(Ok(()));
    assert_eq!(enter.request(), None);
    assert_eq!(enter.operation(), None);
    assert!(matches!(
        enter.finish(),
        Some(Err(ErrorKind::CompositionError(Failure::Platform(6))))
    ));
}

#[test]
fn there_is_no_result_while_a_request_is_pending() {
    let enter = AlternateScreen::to_alternate(true, Backend::Native);
    assert!(enter.finish().is_none());
    let enter = AlternateScreen::to_alternate(true, Backend::Native).resume(Ok(()));
    assert!(enter.finish().is_none());
    let enter = AlternateScreen::to_alternate(true, Backend::Native)
        .resume(Ok(()))
        .resume(Err(1));
    assert!(enter.finish().is_none());
    let release = match RawScreen::into_raw_mode(Ok(())) {
        Ok(guard) => guard.release(),
        Err(error) => panic!("no guard: {:?}", error),
    };
    assert_eq!(release.result(), None);
}

#[test]
fn a_finished_switch_ignores_what_it_is_told() {
    let done = AlternateScreen::to_alternate(false, Backend::Native).resume(Ok(()));
    assert_eq!(done.request(), None);
    let still = done.resume(Err(1));
    assert_eq!(still.request(), None);
    assert!(matches!(still.finish(), Some(Ok(_))));

    let failed = AlternateScreen::to_alternate(false, Backend::Native).resume(Err(2));
    let still = failed.resume(Ok(()));
    assert!(matches!(
        still.finish(),
        Some(Err(ErrorKind::PlatformError(2)))
    ));
}

#[test]
fn leave_by_hand_then_release() {
    let mut terminal = FakeTerminal::new();
    let mut guard = match terminal.enter(true, Backend::Native) {
        Ok(guard) => guard,
        Err(error) => panic!("no guard: {:?}", error),
    };
    assert_eq!(terminal.release(guard.to_main()), Ok(()));
    assert!(!guard.is_raw());
    assert_eq!(guard.backend(), Backend::Native);
    assert_eq!(terminal.mode, 0b1111);
    assert!(!terminal.alternate);

    // the end of the guard leaves once more, and only leaves
    terminal.failing.push((Request::LeaveAlternate, 9));
    assert_eq!(terminal.release(guard.release()), Ok(()));
    assert_eq!(
        terminal.log,
        vec![
            Request::EnterAlternate,
            Request::EnableRaw,
            Request::DisableRaw,
            Request::LeaveAlternate,
            Request::LeaveAlternate,
        ]
    );
}

#[test]
fn leave_by_hand_reports_the_first_failure_and_still_leaves() {
    let mut terminal = FakeTerminal::new();
    let mut guard = match terminal.enter(true, Backend::Native) {
        Ok(guard) => guard,
        Err(error) => panic!("no guard: {:?}", error),
    };
    terminal.failing.push((Request::DisableRaw, 6));
    terminal.failing.push((Request::LeaveAlternate, 32));
    assert_eq!(
        terminal.release(guard.to_main()),
        Err(ErrorKind::PlatformError(6))
    );
    assert_eq!(
        terminal.log,
        vec![
            Request::EnterAlternate,
            Request::EnableRaw,
            Request::DisableRaw,
            Request::LeaveAlternate,
        ]
    );
}

#[test]
fn leave_by_hand_reports_a_failure_of_the_last_step() {
    let mut terminal = FakeTerminal::new();
    let mut guard = match terminal.enter(true, Backend::Ansi) {
        Ok(guard) => guard,
        Err(error) => panic!("no guard: {:?}", error),
    };
    terminal.failing.push((Request::LeaveAlternate, 32));
    assert_eq!(terminal.release(guard.to_main()), Err(ErrorKind::IoError(32)));
    assert_eq!(terminal.mode, 0b1111);
}

#[test]
fn release_at_the_end_of_a_guard_swallows_failures() {
    let mut terminal = FakeTerminal::new();
    let guard = match terminal.enter(true, Backend::Native) {
        Ok(guard) => guard,
        Err(error) => panic!("no guard: {:?}", error),
    };
    terminal.failing.push((Request::DisableRaw, 6));
    terminal.failing.push((Request::LeaveAlternate, 7));
    assert_eq!(terminal.release(guard.release()), Ok(()));
    assert_eq!(
        terminal.log,
        vec![
            Request::EnterAlternate,
            Request::EnableRaw,
            Request::DisableRaw,
            Request::LeaveAlternate,
        ]
    );
}

#[test]
fn release_goes_step_by_step() {
    let release = Release::begin(true, Some(Backend::Ansi), true);
    assert_eq!(
        release,
        Release::DisablingRaw {
            then_leave: Some(Backend::Ansi),
            explicit: true
        }
    );
    assert_eq!(release.request(), Some(Request::DisableRaw));
    assert_eq!(
        release.operation(),
        Some(Operation::DisableRaw(RawModeCommand::new()))
    );
    assert_eq!(release.result(), None);

    let release = release.resume(Err(6));
    assert_eq!(
        release,
        Release::Leaving {
            backend: Backend::Ansi,
            first: Some(Failure::Platform(6)),
            explicit: true
        }
    );
    assert_eq!(release.request(), Some(Request::LeaveAlternate));
    assert_eq!(
        release.operation(),
        Some(Operation::Write("\u{1b}[?1049l"))
    );

    let release = release.resume(Ok(()));
    assert_eq!(release, Release::Done(Err(ErrorKind::PlatformError(6))));
    assert_eq!(release.request(), None);
    assert_eq!(release.operation(), None);
    assert_eq!(release.result(), Some(Err(ErrorKind::PlatformError(6))));
    assert_eq!(release.resume(Ok(())), release);
}

#[test]
fn release_begins_where_there_is_something_to_do() {
    assert_eq!(
        Release::begin(true, None, false),
        Release::DisablingRaw {
            then_leave: None,
            explicit: false
        }
    );
    assert_eq!(
        Release::begin(false, Some(Backend::Native), true),
        Release::Leaving {
            backend: Backend::Native,
            first: None,
            explicit: true
        }
    );
    assert_eq!(Release::begin(false, None, true), Release::Done(Ok(())));
    assert_eq!(Release::begin(false, None, false), Release::Done(Ok(())));
    assert_eq!(
        Release::begin(true, None, true).resume(Err(3)),
        Release::Done(Err(ErrorKind::PlatformError(3)))
    );
    assert_eq!(
        Release::begin(true, None, false).resume(Err(3)),
        Release::Done(Ok(()))
    );
    assert_eq!(
        Release::begin(false, Some(Backend::Native), true).resume(Ok(())),
        Release::Done(Ok(()))
    );
}

#[test]
fn raw_guard_restores_on_release() {
    let mut terminal = FakeTerminal::new();
    let command = RawModeCommand::with_mask(terminal.raw_mask);
    let enabled = terminal.perform(Request::EnableRaw, Operation::EnableRaw(command));
    let guard = match RawScreen::into_raw_mode(enabled) {
        Ok(guard) => guard,
        Err(error) => panic!("no guard: {:?}", error),
    };
    assert!(guard.restores_on_release());
    assert_eq!(terminal.mode, 0b1100);
    assert_eq!(terminal.release(guard.release()), Ok(()));
    assert_eq!(terminal.log, vec![Request::EnableRaw, Request::DisableRaw]);
    assert_eq!(terminal.mode, 0b1111);
}

#[test]
fn raw_guard_that_keeps_raw_mode_asks_for_nothing() {
    let mut terminal = FakeTerminal::new();
    let command = RawModeCommand::with_mask(terminal.raw_mask);
    let enabled = terminal.perform(Request::EnableRaw, Operation::EnableRaw(command));
    let mut guard = match RawScreen::into_raw_mode(enabled) {
        Ok(guard) => guard,
        Err(error) => panic!("no guard: {:?}", error),
    };
    guard.keep_raw_mode_on_drop();
    assert!(!guard.restores_on_release());
    let release = guard.release();
    assert_eq!(release, Release::Done(Ok(())));
    assert_eq!(terminal.release(release), Ok(()));
    assert_eq!(terminal.log, vec![Request::EnableRaw]);
    assert_eq!(terminal.mode, 0b1100);
}

#[test]
fn restore_on_release_can_be_set_both_ways() {
    let mut guard = match RawScreen::into_raw_mode(Ok(())) {
        Ok(guard) => guard,
        Err(error) => panic!("no guard: {:?}", error),
    };
    guard.set_restore_on_release(false);
    assert!(!guard.restores_on_release());
    guard.set_restore_on_release(true);
    assert!(guard.restores_on_release());
    assert_eq!(
        guard.release(),
        Release::DisablingRaw {
            then_leave: None,
            explicit: false
        }
    );
}

#[test]
fn no_raw_guard_when_raw_mode_fails() {
    assert!(matches!(
        RawScreen::into_raw_mode(Err(6)),
        Err(ErrorKind::PlatformError(6))
    ));
    assert!(matches!(
        RawScreen::into_raw_mode(Err(0)),
        Err(ErrorKind::PlatformError(0))
    ));
}

#[test]
fn disable_by_hand_reports_its_failure() {
    assert_eq!(RawScreen::disable_raw_mode(Ok(())), Ok(()));
    assert_eq!(
        RawScreen::disable_raw_mode(Err(6)),
        Err(ErrorKind::PlatformError(6))
    );
    assert_eq!(
        RawScreen::disable_raw_mode(Err(-1)),
        Err(ErrorKind::PlatformError(-1))
    );
}

#[test]
fn standard_output_goes_into_raw_mode() {
    let guard = match std::io::stdout().into_raw_mode(Ok(())) {
        Ok(guard) => guard,
        Err(error) => panic!("no guard: {:?}", error),
    };
    assert!(guard.restores_on_release());
    assert!(matches!(
        std::io::stdout().into_raw_mode(Err(6)),
        Err(ErrorKind::PlatformError(6))
    ));
}
