//! An extension trait for `Result` that lets a caller observe the error
//! payload of an outcome through a side-effecting callback, while the
//! outcome itself passes through unchanged.
//!
//! Bring the [`InspectError`] trait into scope and call `.inspect_error()`
//! on a `Result`. When the result is an error, the callback runs exactly
//! once with a read-only reference to the error payload; when the result is
//! a success, the callback does not run at all. Either way the original
//! result is handed back, same variant and same payload, so the call can be
//! chained inline, for instance right before `?`.

use vstd::prelude::*;

verus! {

/// Observation of the error payload of a success-or-failure outcome.
///
/// The contract of [`inspect_error`](InspectError::inspect_error) is stated
/// over two spec functions that every implementor provides: whether the
/// outcome is a failure, and, when it is, the error payload it holds.
pub trait InspectError<E>: Sized {
    /// Whether this outcome is the failure variant.
    spec fn is_failure(&self) -> bool;

    /// The error payload held by a failure outcome. Meaningful only when
    /// [`is_failure`](InspectError::is_failure) holds.
    spec fn failure_payload(&self) -> E;

    /// Call `inspect` with a reference to the contained error payload, if
    /// this outcome is a failure, and then return the outcome unchanged.
    /// Mainly intended for logging errors in a more natural manner than
    /// mapping over the error and handing it back by hand.
    ///
    /// The returned outcome is the input outcome: same variant, same
    /// payload. On a failure, the callback's postcondition is established
    /// for the error payload, which is the witness that the callback ran;
    /// being `FnOnce`, it cannot have run more than once. On a success the
    /// callback's precondition is not demanded, so a callback that could
    /// not be invoked at all is still accepted there, and verification of
    /// the body guarantees it is never reached.
    fn inspect_error<F: FnOnce(&E)>(self, inspect: F) -> (r: Self)
        requires
            self.is_failure() ==> call_requires(inspect, (&self.failure_payload(),)),
        ensures
            r == self,
            self.is_failure() ==> call_ensures(inspect, (&self.failure_payload(),), ()),
    ;
}

impl<T, E> InspectError<E> for Result<T, E> {
    open spec fn is_failure(&self) -> bool {
        self is Err
    }

    open spec fn failure_payload(&self) -> E {
        self->Err_0
    }

    fn inspect_error<F: FnOnce(&E)>(self, inspect: F) -> (r: Self)
        ensures
            r == self,
            self is Err ==> call_ensures(inspect, (&self->Err_0,), ()),
    {
        match self {
            Ok(value) => Ok(value),
            Err(error) => {
                inspect(&error);
                Err(error)
            },
        }
    }
}

} // verus!
