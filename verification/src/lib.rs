//! Terminal screen state: raw mode and the alternate screen buffer.
//!
//! A terminal has two states that a program may change and must give back:
//! its input discipline (normal or raw) and its display buffer (main or
//! alternate screen). This crate holds the guards that stand for a state
//! that was entered, the order in which states are entered and left, and
//! what is done when a step fails.
//!
//! The crate does not touch a terminal. A guard says what is to be done, as
//! a [`Request`] and as the [`Operation`] that carries it out; the host does
//! it and reports the [`Outcome`]; the guard decides what follows:
//!
//! ```text
//! let mut enter = AlternateScreen::to_alternate(true, backend);
//! while let Some(operation) = enter.operation() {
//!     enter = enter.resume(perform(operation));
//! }
//! let guard = enter.finish();
//! ```
//!
//! The way into the alternate screen is an [`Enter`], the way out of either
//! state a [`Release`]; both are a [`Transition`].

pub mod alternate;
pub mod backend;
pub mod command;
pub mod error;
pub mod mode;
pub mod raw;
pub mod release;
pub mod transition;

pub use alternate::{AlternateScreen, Enter};
pub use backend::{alternate_screen, Backend, CapabilityProbe, Operation, Request};
pub use command::{EnterAlternateScreen, LeaveAlternateScreen};
pub use error::{ErrorKind, Failure, Outcome};
pub use mode::RawModeCommand;
pub use raw::{IntoRawMode, RawScreen};
pub use release::Release;
pub use transition::Transition;
