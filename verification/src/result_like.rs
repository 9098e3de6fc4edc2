//! Generalisation over value-carrying result-like types.
//!
//! A screen declares the shape of its per-step outcome through this trait.
//! Three shapes are sanctioned: a bare value (never fails), an optional value
//! (fails without detail), and an explicit result (fails with detail). The
//! event loop is generic over the shape, so it can propagate whichever kind of
//! failure a concrete screen chose without committing to one error type.

use vstd::prelude::*;
use vstd::pervasive::unreached;
use vstd::pervasive::arbitrary;

verus! {

/// A value that stands for a `Result`: it can be taken apart into one and
/// rebuilt from one, and the two directions invert each other.
pub trait ResultLike<T>: Sized {
    /// The error half of the result this shape stands for.
    type Error;

    /// The result this value stands for.
    spec fn to_result_spec(self) -> Result<T, Self::Error>;

    /// The results this shape can be built from. Only the bare-value shape is
    /// selective: it has no failure to represent, so it accepts only `Ok`.
    spec fn accepts(r: Result<T, Self::Error>) -> bool;

    /// The value built from an accepted result.
    spec fn from_result_spec(r: Result<T, Self::Error>) -> Self;

    /// Builds the value that stands for `result`.
    fn from_result(result: Result<T, Self::Error>) -> (s: Self)
        requires
            Self::accepts(result),
        ensures
            s == Self::from_result_spec(result),
    ;

    /// Takes the value apart into the result it stands for.
    fn into_result(self) -> (r: Result<T, Self::Error>)
        ensures
            r == self.to_result_spec(),
            Self::accepts(r),
    ;

    /// Round-trip law: rebuilding a value from the result it stands for gives
    /// the value back, for every value of the shape.
    proof fn lemma_round_trip(self)
        ensures
            Self::from_result_spec(self.to_result_spec()) == self,
    ;
}

/// The error type of the bare-value shape. It is never produced: a bare value
/// always stands for `Ok`.
#[derive(Clone, Copy, Debug, PartialEq, Eq, Structural)]
pub struct NoFailure;

impl<T> ResultLike<T> for T {
    type Error = NoFailure;

    open spec fn to_result_spec(self) -> Result<T, NoFailure> {
        Result::Ok(self)
    }

    open spec fn accepts(r: Result<T, NoFailure>) -> bool {
        r is Ok
    }

    open spec fn from_result_spec(r: Result<T, NoFailure>) -> T {
        match r {
            Result::Ok(x) => x,
            Result::Err(_) => arbitrary(),
        }
    }

    fn from_result(result: Result<T, NoFailure>) -> (s: T) {
        match result {
            Result::Ok(x) => x,
            Result::Err(_) => unreached(),
        }
    }

    fn into_result(self) -> (r: Result<T, NoFailure>) {
        Result::Ok(self)
    }

    proof fn lemma_round_trip(self) {
    }
}

impl<T, E> ResultLike<T> for Result<T, E> {
    type Error = E;

    open spec fn to_result_spec(self) -> Result<T, E> {
        self
    }

    open spec fn accepts(r: Result<T, E>) -> bool {
        true
    }

    open spec fn from_result_spec(r: Result<T, E>) -> Result<T, E> {
        r
    }

    fn from_result(result: Result<T, E>) -> (s: Result<T, E>) {
        result
    }

    fn into_result(self) -> (r: Result<T, E>) {
        self
    }

    proof fn lemma_round_trip(self) {
    }
}

impl<T> ResultLike<T> for Option<T> {
    type Error = ();

    open spec fn to_result_spec(self) -> Result<T, ()> {
        match self {
            Option::Some(x) => Result::Ok(x),
            Option::None => Result::Err(()),
        }
    }

    open spec fn accepts(r: Result<T, ()>) -> bool {
        true
    }

    open spec fn from_result_spec(r: Result<T, ()>) -> Option<T> {
        match r {
            Result::Ok(x) => Option::Some(x),
            Result::Err(_) => Option::None,
        }
    }

    fn from_result(result: Result<T, ()>) -> (s: Option<T>) {
        match result {
            Result::Ok(x) => Option::Some(x),
            Result::Err(_) => Option::None,
        }
    }

    fn into_result(self) -> (r: Result<T, ()>) {
        match self {
            Option::Some(x) => Result::Ok(x),
            Option::None => Result::Err(()),
        }
    }

    proof fn lemma_round_trip(self) {
    }
}

} // verus!
