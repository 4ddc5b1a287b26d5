//! Which payload a combinator hands to its operation, and what it answers when
//! it hands over none.
//!
//! Nothing here runs an operation. A caller that has to wait for the operation
//! asks for the step, waits where the step says `Invoke`, and answers with the
//! operation's output; on `Ready` it answers at once.

use vstd::prelude::*;

verus! {

/// What a combinator does next with the outcome it was given.
#[derive(Debug, PartialEq, Eq)]
pub enum Step<P, R> {
    /// The operation runs on this payload, once, and its output decides the answer.
    Invoke(P),
    /// No operation runs: this is the answer.
    Ready(R),
}

/// The step of a combinator that works on the success value and hands a
/// failure on as it is (`map`, `and_then`).
pub fn on_success<T, U, E>(outcome: Result<T, E>) -> (step: Step<T, Result<U, E>>)
    ensures
        step == (match outcome {
            Ok(value) => Step::<T, Result<U, E>>::Invoke(value),
            Err(error) => Step::<T, Result<U, E>>::Ready(Err(error)),
        }),
{
    match outcome {
        Ok(value) => Step::Invoke(value),
        Err(error) => Step::Ready(Err(error)),
    }
}

/// The step of a combinator that works on the success value and answers a
/// failure with `default`, whatever the failure holds (`map_or`, `is_ok_and`).
pub fn on_success_or<T, U, E>(outcome: Result<T, E>, default: U) -> (step: Step<T, U>)
    ensures
        step == (match outcome {
            Ok(value) => Step::<T, U>::Invoke(value),
            Err(_) => Step::<T, U>::Ready(default),
        }),
{
    match outcome {
        Ok(value) => Step::Invoke(value),
        Err(_) => Step::Ready(default),
    }
}

/// The step of a combinator that works on the failure value and hands a
/// success on as it is (`map_err`).
pub fn on_failure<T, E, O>(outcome: Result<T, E>) -> (step: Step<E, Result<T, O>>)
    ensures
        step == (match outcome {
            Ok(value) => Step::<E, Result<T, O>>::Ready(Ok(value)),
            Err(error) => Step::<E, Result<T, O>>::Invoke(error),
        }),
{
    match outcome {
        Ok(value) => Step::Ready(Ok(value)),
        Err(error) => Step::Invoke(error),
    }
}

/// The success value that `inspect` shows to its operation, if there is one.
pub fn success_ref<T, E>(outcome: &Result<T, E>) -> (shown: Option<&T>)
    ensures
        shown == (match *outcome {
            Ok(value) => Some(&value),
            Err(_) => None::<&T>,
        }),
{
    match outcome {
        Ok(value) => Some(value),
        Err(_) => None,
    }
}

/// The failure value that `inspect_err` shows to its operation, if there is one.
pub fn failure_ref<T, E>(outcome: &Result<T, E>) -> (shown: Option<&E>)
    ensures
        shown == (match *outcome {
            Ok(_) => None::<&E>,
            Err(error) => Some(&error),
        }),
{
    match outcome {
        Ok(_) => None,
        Err(error) => Some(error),
    }
}

} // verus!
