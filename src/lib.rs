//! Supervision of a game server's console: launching the server, deciding
//! how its input and output are mirrored, and classifying its console lines
//! into events.
pub mod builder;
pub mod flag;
pub mod number;
pub mod parsing;
pub mod pattern;
pub mod rules;
pub mod sanitize;
pub mod supervisor;
pub mod templates;

pub use crate::builder::PuppetBuilder;
pub use crate::flag::AtomicFlag;
pub use crate::parsing::{load_all, ConsoleLine, Patterns};
pub use crate::supervisor::NoHandler;
