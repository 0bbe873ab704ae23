use vstd::prelude::*;
use vstd::std_specs::cmp::PartialEqSpec;

verus! {

/// The outcome of an operation that may succeed with a value or fail with
/// an error: a minimal fallible-result type for environments that cannot
/// link the standard library's own.
#[derive(Debug, PartialEq)]
pub enum Res<T, E> {
    Success(T),
    Failure(E),
}

impl<T, E> Res<T, E> {
    /// Brings the standard library's result value into this crate's type,
    /// variant for variant.
    pub fn from_native(o: Result<T, E>) -> (r: Res<T, E>)
        ensures
            o matches Ok(x) ==> r == Res::<T, E>::Success(x),
            o matches Err(e) ==> r == Res::<T, E>::Failure(e),
    {
        match o {
            Ok(x) => Res::Success(x),
            Err(e) => Res::Failure(e),
        }
    }

    /// Hands this result value back as the standard library's type,
    /// variant for variant.
    pub fn into_native(self) -> (r: Result<T, E>)
        ensures
            self matches Res::Success(x) ==> r == Ok::<T, E>(x),
            self matches Res::Failure(e) ==> r == Err::<T, E>(e),
    {
        match self {
            Res::Success(x) => Ok(x),
            Res::Failure(e) => Err(e),
        }
    }
}

/// The combinators of a fallible result.
///
/// `as_res` names the result value that the implementer stands for; every
/// contract below speaks of that view.
pub trait ResultFns<T, E>: Sized {
    /// The result value that `self` stands for.
    spec fn as_res(&self) -> Res<T, E>;

    /// On a success, applies `f` to the value; a failure passes through
    /// untouched, without invoking `f`.
    fn map<U, F: Fn(T) -> U>(self, f: F) -> (r: Res<U, E>)
        requires
            self.as_res() matches Res::Success(x) ==> f.requires((x,)),
        ensures
            self.as_res() matches Res::Success(x) ==> r matches Res::Success(y) && f.ensures(
                (x,),
                y,
            ),
            self.as_res() matches Res::Failure(e) ==> r == Res::<U, E>::Failure(e),
    ;

    /// Chains a fallible step: on a success, hands the value to `f` and
    /// returns what `f` returns; a failure short-circuits past `f`.
    fn and_then<U, F: Fn(T) -> Res<U, E>>(self, f: F) -> (r: Res<U, E>)
        requires
            self.as_res() matches Res::Success(x) ==> f.requires((x,)),
        ensures
            self.as_res() matches Res::Success(x) ==> f.ensures((x,), r),
            self.as_res() matches Res::Failure(e) ==> r == Res::<U, E>::Failure(e),
    ;

    /// A recovery hook: a success is returned unchanged, and `f` is invoked
    /// only on a failure, with the error value.
    fn or_else<F: Fn(E) -> Res<T, E>>(self, f: F) -> (r: Res<T, E>)
        requires
            self.as_res() matches Res::Failure(e) ==> f.requires((e,)),
        ensures
            self.as_res() is Success ==> r == self.as_res(),
            self.as_res() matches Res::Failure(e) ==> f.ensures((e,), r),
    ;

    /// The success value. Failure is a violated caller assumption, so a
    /// failed argument is ruled out by the `requires` clause.
    fn unwrap(self) -> (r: T)
        requires
            self.as_res() is Success,
        ensures
            self.as_res() == Res::<T, E>::Success(r),
    ;

    /// The success value if any, else the eagerly supplied `default`.
    fn unwrap_or(self, default: T) -> (r: T)
        ensures
            self.as_res() matches Res::Success(x) ==> r == x,
            self.as_res() is Failure ==> r == default,
    ;

    /// The success value if any, else the result of handing the error value
    /// to the recovery function `f`.
    fn unwrap_or_else<F: Fn(E) -> T>(self, f: F) -> (r: T)
        requires
            self.as_res() matches Res::Failure(e) ==> f.requires((e,)),
        ensures
            self.as_res() matches Res::Success(x) ==> r == x,
            self.as_res() matches Res::Failure(e) ==> f.ensures((e,), r),
    ;

    /// The success value, with a caller-supplied diagnostic for the failed
    /// case; that case is a violated assumption and is ruled out by the
    /// `requires` clause, so the diagnostic is never consulted.
    fn expect<M>(self, msg: M) -> (r: T)
        requires
            self.as_res() is Success,
        ensures
            self.as_res() == Res::<T, E>::Success(r),
    ;

    /// True exactly when the outcome is a success.
    fn is_ok(&self) -> (r: bool)
        ensures
            r == (self.as_res() is Success),
    ;

    /// True exactly when the outcome is a failure.
    fn is_err(&self) -> (r: bool)
        ensures
            r == (self.as_res() is Failure),
    ;
}

impl<T, E> ResultFns<T, E> for Res<T, E> {
    open spec fn as_res(&self) -> Res<T, E> {
        *self
    }

    fn map<U, F: Fn(T) -> U>(self, f: F) -> (r: Res<U, E>) {
        match self {
            Res::Success(x) => Res::Success(f(x)),
            Res::Failure(e) => Res::Failure(e),
        }
    }

    fn and_then<U, F: Fn(T) -> Res<U, E>>(self, f: F) -> (r: Res<U, E>) {
        match self {
            Res::Success(x) => f(x),
            Res::Failure(e) => Res::Failure(e),
        }
    }

    fn or_else<F: Fn(E) -> Res<T, E>>(self, f: F) -> (r: Res<T, E>) {
        match self {
            Res::Success(x) => Res::Success(x),
            Res::Failure(e) => f(e),
        }
    }

    fn unwrap(self) -> (r: T) {
        match self {
            Res::Success(x) => x,
            Res::Failure(_) => vstd::pervasive::unreached(),
        }
    }

    fn unwrap_or(self, default: T) -> (r: T) {
        match self {
            Res::Success(x) => x,
            Res::Failure(_) => default,
        }
    }

    fn unwrap_or_else<F: Fn(E) -> T>(self, f: F) -> (r: T) {
        match self {
            Res::Success(x) => x,
            Res::Failure(e) => f(e),
        }
    }

    fn expect<M>(self, msg: M) -> (r: T) {
        match self {
            Res::Success(x) => x,
            Res::Failure(_) => vstd::pervasive::unreached(),
        }
    }

    fn is_ok(&self) -> (r: bool) {
        match self {
            Res::Success(_) => true,
            Res::Failure(_) => false,
        }
    }

    fn is_err(&self) -> (r: bool) {
        match self {
            Res::Success(_) => false,
            Res::Failure(_) => true,
        }
    }
}

/// Exactly one variant of a fallible result is active at any time: an
/// outcome is a success or a failure, never both and never neither.
pub proof fn lemma_res_variants_exclusive<T, E>(s: Res<T, E>)
    ensures
        (s is Success) != (s is Failure),
{
}

/// A chain of fallible steps short-circuits at the first failure: when the
/// starting outcome has failed, the results that `and_then`'s contract
/// allows for two chained steps both carry that same error, whatever the
/// chained functions do.
pub proof fn lemma_and_then_short_circuits<T, U, V, E>(s: Res<T, E>, r1: Res<U, E>, r2: Res<V, E>)
    requires
        s matches Res::Failure(e) ==> r1 == Res::<U, E>::Failure(e),
        r1 matches Res::Failure(e) ==> r2 == Res::<V, E>::Failure(e),
    ensures
        s matches Res::Failure(e) ==> r2 == Res::<V, E>::Failure(e),
{
}

/// An equality probe for fallible results, usable on this crate's own type
/// and on the standard library's.
///
/// `check_view` names the result value that the implementer stands for.
/// What `==` on a payload type returns is pinned down only for types whose
/// equality obeys its specification, which is how `vstd` states the contract
/// of `PartialEq::eq` itself.
pub trait ResultCheck<T: PartialEq, E: PartialEq> {
    /// The result value that `self` stands for.
    spec fn check_view(&self) -> Res<T, E>;

    /// True exactly when the outcome is a success whose value equals
    /// `other`; false on a failure, whatever `other` is.
    fn check(&self, other: T) -> (r: bool)
        ensures
            self.check_view() is Failure ==> r == false,
            T::obeys_eq_spec() ==> r == (self.check_view() matches Res::Success(x) && x.eq_spec(
                &other,
            )),
    ;

    /// True exactly when the outcome is a failure whose error equals
    /// `other`; false on a success, whatever `other` is.
    fn check_err(&self, other: E) -> (r: bool)
        ensures
            self.check_view() is Success ==> r == false,
            E::obeys_eq_spec() ==> r == (self.check_view() matches Res::Failure(e) && e.eq_spec(
                &other,
            )),
    ;
}

impl<T: PartialEq, E: PartialEq> ResultCheck<T, E> for Res<T, E> {
    open spec fn check_view(&self) -> Res<T, E> {
        *self
    }

    fn check(&self, other: T) -> (r: bool) {
        match self {
            Res::Success(x) => *x == other,
            Res::Failure(_) => false,
        }
    }

    fn check_err(&self, other: E) -> (r: bool) {
        match self {
            Res::Success(_) => false,
            Res::Failure(e) => *e == other,
        }
    }
}

impl<T: PartialEq, E: PartialEq> ResultCheck<T, E> for Result<T, E> {
    open spec fn check_view(&self) -> Res<T, E> {
        match *self {
            Result::Ok(x) => Res::Success(x),
            Result::Err(e) => Res::Failure(e),
        }
    }

    fn check(&self, other: T) -> (r: bool) {
        match self {
            Result::Ok(x) => *x == other,
            Result::Err(_) => false,
        }
    }

    fn check_err(&self, other: E) -> (r: bool) {
        match self {
            Result::Ok(_) => false,
            Result::Err(e) => *e == other,
        }
    }
}

} // verus!
