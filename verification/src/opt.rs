use vstd::prelude::*;
use vstd::std_specs::cmp::PartialEqSpec;

verus! {

/// A value that may or may not be present: a minimal optional type for
/// environments that cannot link the standard library's own.
#[derive(Debug, PartialEq)]
pub enum Opt<T> {
    Present(T),
    Absent,
}

impl<T> Opt<T> {
    /// Brings the standard library's optional value into this crate's type,
    /// variant for variant.
    pub fn from_native(o: Option<T>) -> (r: Opt<T>)
        ensures
            o matches Some(x) ==> r == Opt::Present(x),
            o is None ==> r is Absent,
    {
        match o {
            Some(x) => Opt::Present(x),
            None => Opt::Absent,
        }
    }

    /// Hands this optional value back as the standard library's type,
    /// variant for variant.
    pub fn into_native(self) -> (r: Option<T>)
        ensures
            self matches Opt::Present(x) ==> r == Some(x),
            self is Absent ==> r is None,
    {
        match self {
            Opt::Present(x) => Some(x),
            Opt::Absent => None,
        }
    }
}

/// The combinators of an optional value.
///
/// `as_opt` names the optional value that the implementer stands for;
/// every contract below speaks of that view.
pub trait OptionFns<T>: Sized {
    /// The optional value that `self` stands for.
    spec fn as_opt(&self) -> Opt<T>;

    /// On a present value, applies `f` to it; on an absent one, returns an
    /// absent value without invoking `f`.
    fn map<U, F: Fn(T) -> U>(self, f: F) -> (r: Opt<U>)
        requires
            self.as_opt() matches Opt::Present(x) ==> f.requires((x,)),
        ensures
            self.as_opt() matches Opt::Present(x) ==> r matches Opt::Present(y) && f.ensures(
                (x,),
                y,
            ),
            self.as_opt() is Absent ==> r is Absent,
    ;

    /// On a present value, hands it to `f` and returns what `f` returns; on
    /// an absent one, returns an absent value without invoking `f`.
    fn and_then<U, F: Fn(T) -> Opt<U>>(self, f: F) -> (r: Opt<U>)
        requires
            self.as_opt() matches Opt::Present(x) ==> f.requires((x,)),
        ensures
            self.as_opt() matches Opt::Present(x) ==> f.ensures((x,), r),
            self.as_opt() is Absent ==> r is Absent,
    ;

    /// A lazy fallback: a present value is returned unchanged, and `f` is
    /// invoked only on an absent one, as the `requires` clause records.
    fn or_else<F: Fn() -> Opt<T>>(self, f: F) -> (r: Opt<T>)
        requires
            self.as_opt() is Absent ==> f.requires(()),
        ensures
            self.as_opt() is Present ==> r == self.as_opt(),
            self.as_opt() is Absent ==> f.ensures((), r),
    ;

    /// The contained value. Absence is a violated caller assumption, so an
    /// absent argument is ruled out by the `requires` clause.
    fn unwrap(self) -> (r: T)
        requires
            self.as_opt() is Present,
        ensures
            self.as_opt() == Opt::Present(r),
    ;

    /// The contained value if present, else the eagerly supplied `default`.
    fn unwrap_or(self, default: T) -> (r: T)
        ensures
            self.as_opt() matches Opt::Present(x) ==> r == x,
            self.as_opt() is Absent ==> r == default,
    ;

    /// The contained value if present, else the result of the thunk `f`,
    /// which is invoked only on an absent value.
    fn unwrap_or_else<F: Fn() -> T>(self, f: F) -> (r: T)
        requires
            self.as_opt() is Absent ==> f.requires(()),
        ensures
            self.as_opt() matches Opt::Present(x) ==> r == x,
            self.as_opt() is Absent ==> f.ensures((), r),
    ;

    /// The contained value, with a caller-supplied diagnostic for the absent
    /// case; that case is a violated assumption and is ruled out by the
    /// `requires` clause, so the diagnostic is never consulted.
    fn expect<M>(self, msg: M) -> (r: T)
        requires
            self.as_opt() is Present,
        ensures
            self.as_opt() == Opt::Present(r),
    ;

    /// Keeps a present value only if the predicate accepts it; an absent
    /// value, or a rejected one, comes out absent.
    fn filter<F: Fn(&T) -> bool>(self, f: F) -> (r: Opt<T>)
        requires
            self.as_opt() matches Opt::Present(x) ==> f.requires((&x,)),
        ensures
            self.as_opt() matches Opt::Present(x) ==> (r == self.as_opt() && f.ensures((&x,), true))
                || (r is Absent && f.ensures((&x,), false)),
            self.as_opt() is Absent ==> r is Absent,
    ;

    /// True exactly when the value is present.
    fn is_some(&self) -> (r: bool)
        ensures
            r == (self.as_opt() is Present),
    ;

    /// True exactly when the value is absent.
    fn is_none(&self) -> (r: bool)
        ensures
            r == (self.as_opt() is Absent),
    ;
}

impl<T> OptionFns<T> for Opt<T> {
    open spec fn as_opt(&self) -> Opt<T> {
        *self
    }

    fn map<U, F: Fn(T) -> U>(self, f: F) -> (r: Opt<U>) {
        match self {
            Opt::Present(x) => Opt::Present(f(x)),
            Opt::Absent => Opt::Absent,
        }
    }

    fn and_then<U, F: Fn(T) -> Opt<U>>(self, f: F) -> (r: Opt<U>) {
        match self {
            Opt::Present(x) => f(x),
            Opt::Absent => Opt::Absent,
        }
    }

    fn or_else<F: Fn() -> Opt<T>>(self, f: F) -> (r: Opt<T>) {
        match self {
            Opt::Present(x) => Opt::Present(x),
            Opt::Absent => f(),
        }
    }

    fn unwrap(self) -> (r: T) {
        match self {
            Opt::Present(x) => x,
            Opt::Absent => vstd::pervasive::unreached(),
        }
    }

    fn unwrap_or(self, default: T) -> (r: T) {
        match self {
            Opt::Present(x) => x,
            Opt::Absent => default,
        }
    }

    fn unwrap_or_else<F: Fn() -> T>(self, f: F) -> (r: T) {
        match self {
            Opt::Present(x) => x,
            Opt::Absent => f(),
        }
    }

    fn expect<M>(self, msg: M) -> (r: T) {
        match self {
            Opt::Present(x) => x,
            Opt::Absent => vstd::pervasive::unreached(),
        }
    }

    fn filter<F: Fn(&T) -> bool>(self, f: F) -> (r: Opt<T>) {
        match self {
            Opt::Present(x) => {
                if f(&x) {
                    Opt::Present(x)
                } else {
                    Opt::Absent
                }
            },
            Opt::Absent => Opt::Absent,
        }
    }

    fn is_some(&self) -> (r: bool) {
        match self {
            Opt::Present(_) => true,
            Opt::Absent => false,
        }
    }

    fn is_none(&self) -> (r: bool) {
        match self {
            Opt::Present(_) => false,
            Opt::Absent => true,
        }
    }
}

/// Exactly one variant of an optional value is active at any time: a value
/// is present or absent, never both and never neither.
pub proof fn lemma_opt_variants_exclusive<T>(o: Opt<T>)
    ensures
        (o is Present) != (o is Absent),
{
}

/// Mapping with an identity function changes nothing: any result that
/// `map`'s contract allows for an `f` relating each value only to itself
/// is the input optional unchanged, and an absent input stays absent
/// whatever `f` is.
pub proof fn lemma_map_identity<T, F: Fn(T) -> T>(o: Opt<T>, f: F, r: Opt<T>)
    requires
        forall|x: T, y: T| f.ensures((x,), y) ==> y == x,
        o matches Opt::Present(x) ==> r matches Opt::Present(y) && f.ensures((x,), y),
        o is Absent ==> r is Absent,
    ensures
        r == o,
{
}

/// An equality probe for optional values, usable on this crate's own type
/// and on the standard library's.
///
/// `check_view` names the optional value that the implementer stands for.
/// What `==` on the payload type returns is pinned down only for types whose
/// equality obeys its specification, which is how `vstd` states the contract
/// of `PartialEq::eq` itself.
pub trait OptionCheck<T: PartialEq> {
    /// The optional value that `self` stands for.
    spec fn check_view(&self) -> Opt<T>;

    /// True exactly when a value is present and equals `other`; false on an
    /// absent value, whatever `other` is.
    fn check(&self, other: T) -> (r: bool)
        ensures
            self.check_view() is Absent ==> r == false,
            T::obeys_eq_spec() ==> r == (self.check_view() matches Opt::Present(x) && x.eq_spec(
                &other,
            )),
    ;
}

impl<T: PartialEq> OptionCheck<T> for Opt<T> {
    open spec fn check_view(&self) -> Opt<T> {
        *self
    }

    fn check(&self, other: T) -> (r: bool) {
        match self {
            Opt::Present(x) => *x == other,
            Opt::Absent => false,
        }
    }
}

impl<T: PartialEq> OptionCheck<T> for Option<T> {
    open spec fn check_view(&self) -> Opt<T> {
        match *self {
            Option::Some(x) => Opt::Present(x),
            Option::None => Opt::Absent,
        }
    }

    fn check(&self, other: T) -> (r: bool) {
        match self {
            Option::Some(x) => *x == other,
            Option::None => false,
        }
    }
}

} // verus!
