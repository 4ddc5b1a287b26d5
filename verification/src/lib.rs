//! Counterparts of the `Result` combinators `map`, `and_then`, `map_or`,
//! `map_or_else`, `map_err`, `inspect`, `inspect_err` and `is_ok_and` for an
//! operation that the caller supplies and that may take a while. A combinator
//! takes the outcome whole, runs the operation at most once and on one branch
//! only, and keeps no state.
//!
//! [`AsyncResultExt`] holds the combinators, each over an operation given as
//! an `FnOnce`, whose own contract the combinator's contract quotes.
//! [`step`] holds what each of them decides before the operation runs, for a
//! caller that has to suspend while the operation is under way.

pub mod combinators;
pub mod step;

pub use combinators::AsyncResultExt;
