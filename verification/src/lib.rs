//! Scaffolding dispatcher: which templates a component request renders, with
//! which context, in which order, and what is reported afterwards.
//!
//! The library performs no I/O. A [`Generation`] is a state machine: it names
//! the next [`Action`] to perform, and is advanced with the [`Event`] that
//! reports how the action went.

pub mod catalog;
pub mod clock;
pub mod component;
pub mod context;
pub mod dispatch;
pub mod error;
pub mod laws;
pub mod report;

pub use catalog::{shows_report, templates_for, Kind, Template};
pub use component::Component;
pub use context::{Context, Entry, Timestamp, Value};
pub use dispatch::{generate, Action, Event, Generation, PackageLookup};
pub use error::Error;
pub use report::{collect_messages, report_block, RenderOutcome};
