//! What the operations promise, stated over what goes into them and what comes out.
//!
//! The statements here spell out the texts, the fields and the cases, so that each can be held
//! against what a client of the server sees.

pub mod changes;
pub mod ends;
pub mod first_puts;
pub mod forms;
pub mod gets;
pub mod imports;
pub mod puts;
pub mod rules;
pub mod stagings;
pub mod texts;
pub mod users;
pub mod views;
