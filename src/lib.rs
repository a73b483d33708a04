//! Decision logic of a desktop-automation backend: key-name parsing and
//! the key table, monitor lookup and coordinate translation, and the
//! sequences of input actions that each command issues.
pub mod dispatch;
pub mod error;
pub mod keys;
pub mod monitor;
