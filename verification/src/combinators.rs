//! The combinators, each over an operation that has run to its end when it
//! returns.
//!
//! A contract speaks of an operation through its own contract: `op.requires`
//! holds of the one payload that the combinator hands to it, and `op.ensures`
//! relates that payload to the output that the combinator works on. On the
//! branch where an operation is not named in `requires`, nothing is assumed of
//! it, so a verified body cannot call it there.

use crate::step::{failure_ref, on_failure, on_success, on_success_or, success_ref, Step};
use vstd::prelude::*;

verus! {

/// Combinators for a value that is either a success holding a `T` or a
/// failure holding an `E`. Each takes the value whole and calls an operation
/// at most once.
pub trait AsyncResultExt<T, E>: Sized {
    /// The success or failure that `self` is.
    spec fn outcome(self) -> Result<T, E>;

    /// Runs `op` on the success value and wraps its output as a success. A
    /// failure is handed on as it is, and `op` is not called.
    fn async_map<U, F>(self, op: F) -> (result: Result<U, E>) where F: FnOnce(T) -> U
        requires
            self.outcome() matches Ok(value) ==> op.requires((value,)),
        ensures
            (match self.outcome() {
                Ok(value) => result matches Ok(output) && op.ensures((value,), output),
                Err(error) => result == Err::<U, E>(error),
            }),
    ;

    /// Runs `op` on the success value and returns its output, itself a success
    /// or a failure, without wrapping it again. A failure is handed on as it
    /// is, and `op` is not called.
    fn async_and_then<U, F>(self, op: F) -> (result: Result<U, E>) where
        F: FnOnce(T) -> Result<U, E>,
        requires
            self.outcome() matches Ok(value) ==> op.requires((value,)),
        ensures
            (match self.outcome() {
                Ok(value) => op.ensures((value,), result),
                Err(error) => result == Err::<U, E>(error),
            }),
    ;

    /// Runs `op` on the success value and returns its output. A failure gives
    /// `default`, which the caller has computed beforehand, and `op` is not
    /// called.
    fn async_map_or<U, F>(self, default: U, op: F) -> (result: U) where F: FnOnce(T) -> U
        requires
            self.outcome() matches Ok(value) ==> op.requires((value,)),
        ensures
            (match self.outcome() {
                Ok(value) => op.ensures((value,), result),
                Err(_) => result == default,
            }),
    ;

    /// Runs `op` on the success value, or `default` on the failure value, and
    /// returns the output of the one that ran. The other is not called.
    fn async_map_or_else<U, D, F>(self, default: D, op: F) -> (result: U) where
        D: FnOnce(E) -> U,
        F: FnOnce(T) -> U,
        requires
            (match self.outcome() {
                Ok(value) => op.requires((value,)),
                Err(error) => default.requires((error,)),
            }),
        ensures
            (match self.outcome() {
                Ok(value) => op.ensures((value,), result),
                Err(error) => default.ensures((error,), result),
            }),
    ;

    /// Runs `op` on the failure value and wraps its output as a failure. A
    /// success is handed on as it is, and `op` is not called.
    fn async_map_err<F, O>(self, op: F) -> (result: Result<T, O>) where F: FnOnce(E) -> O
        requires
            self.outcome() matches Err(error) ==> op.requires((error,)),
        ensures
            (match self.outcome() {
                Ok(value) => result == Ok::<T, O>(value),
                Err(error) => result matches Err(output) && op.ensures((error,), output),
            }),
    ;

    /// Shows the success value to `op` and returns `self` as it was given. On
    /// a failure `op` is not called.
    fn async_inspect<F>(self, op: F) -> (result: Self) where F: FnOnce(&T) -> ()
        requires
            self.outcome() matches Ok(value) ==> op.requires((&value,)),
        ensures
            result == self,
            self.outcome() matches Ok(value) ==> op.ensures((&value,), ()),
    ;

    /// Shows the failure value to `op` and returns `self` as it was given. On
    /// a success `op` is not called.
    fn async_inspect_err<F>(self, op: F) -> (result: Self) where F: FnOnce(&E) -> ()
        requires
            self.outcome() matches Err(error) ==> op.requires((&error,)),
        ensures
            result == self,
            self.outcome() matches Err(error) ==> op.ensures((&error,), ()),
    ;

    /// Runs `op` on the success value and returns its verdict. A failure gives
    /// `false`, and `op` is not called.
    fn async_is_ok_and<F>(self, op: F) -> (result: bool) where F: FnOnce(T) -> bool
        requires
            self.outcome() matches Ok(value) ==> op.requires((value,)),
        ensures
            (match self.outcome() {
                Ok(value) => op.ensures((value,), result),
                Err(_) => !result,
            }),
    ;
}

impl<T, E> AsyncResultExt<T, E> for Result<T, E> {
    open spec fn outcome(self) -> Result<T, E> {
        self
    }

    fn async_map<U, F>(self, op: F) -> (result: Result<U, E>) where F: FnOnce(T) -> U {
        match on_success(self) {
            Step::Invoke(value) => Ok(op(value)),
            Step::Ready(result) => result,
        }
    }

    fn async_and_then<U, F>(self, op: F) -> (result: Result<U, E>) where
        F: FnOnce(T) -> Result<U, E>,
    {
        match on_success(self) {
            Step::Invoke(value) => op(value),
            Step::Ready(result) => result,
        }
    }

    fn async_map_or<U, F>(self, default: U, op: F) -> (result: U) where F: FnOnce(T) -> U {
        match on_success_or(self, default) {
            Step::Invoke(value) => op(value),
            Step::Ready(result) => result,
        }
    }

    fn async_map_or_else<U, D, F>(self, default: D, op: F) -> (result: U) where
        D: FnOnce(E) -> U,
        F: FnOnce(T) -> U,
    {
        match self {
            Ok(value) => op(value),
            Err(error) => default(error),
        }
    }

    fn async_map_err<F, O>(self, op: F) -> (result: Result<T, O>) where F: FnOnce(E) -> O {
        match on_failure(self) {
            Step::Invoke(error) => Err(op(error)),
            Step::Ready(result) => result,
        }
    }

    fn async_inspect<F>(self, op: F) -> (result: Self) where F: FnOnce(&T) -> () {
        match success_ref(&self) {
            Some(value) => op(value),
            None => {},
        }
        self
    }

    fn async_inspect_err<F>(self, op: F) -> (result: Self) where F: FnOnce(&E) -> () {
        match failure_ref(&self) {
            Some(error) => op(error),
            None => {},
        }
        self
    }

    fn async_is_ok_and<F>(self, op: F) -> (result: bool) where F: FnOnce(T) -> bool {
        match on_success_or(self, false) {
            Step::Invoke(value) => op(value),
            Step::Ready(result) => result,
        }
    }
}

} // verus!
