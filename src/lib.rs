//! Readiness-event adaptation layer: registration state machines for
//! level-triggered selectors, wake-signal drivers and their registrars.
//!
//! Every operation that would talk to the operating system is split in two:
//! the library decides which selector call or primitive access to make, and
//! the caller performs it and hands the outcome back.

pub mod error;
pub mod event;
pub mod selector;
pub mod registration;
pub mod edge_triggered;
pub mod level_triggered;
pub mod waker_driver;
pub mod shell;

pub use error::IoError;
pub use event::{Interest, Token};
pub use selector::SelectorRequest;
pub use registration::RegistrationRecord;
pub use level_triggered::IoSourceState;
pub use shell::Waker;
