//! Early return that works on `Option<T>` as well as on `Result<T, E>`.
//!
//! A container that implements [`Try`] splits into the value that evaluation
//! goes on with, or the value that the enclosing function returns at once.
//! [`propagate`] runs that split and hands the continue value to the rest of
//! the function; the `laws` module states what comes out for each shape.
use vstd::prelude::*;

pub mod laws;

verus! {

/// A container that can be split into the value that evaluation goes on
/// with, or the value that the enclosing function returns at once.
pub trait Try<T, E>: Sized {
    /// `r` is an outcome of splitting `self`.
    spec fn splits_to(self, r: Result<T, E>) -> bool;

    /// `Ok(v)`: go on with `v`; `Err(b)`: return `b` from the enclosing function.
    fn branch(self) -> (r: Result<T, E>)
        ensures
            self.splits_to(r),
    ;
}

/// An absent value returns the absent value of the enclosing function's own
/// optional type; the payload type may differ on the two sides.
impl<T, R> Try<T, Option<R>> for Option<T> {
    open spec fn splits_to(self, r: Result<T, Option<R>>) -> bool {
        r == match self {
            Some(v) => Ok(v),
            None => Err(None::<R>),
        }
    }

    fn branch(self) -> (r: Result<T, Option<R>>) {
        match self {
            Some(v) => Ok(v),
            None => Err(None),
        }
    }
}

/// A failure returns a failure of the enclosing function's own result type,
/// its value converted by `From`.
impl<T, E, R: From<E>> Try<T, Result<T, R>> for Result<T, E> {
    open spec fn splits_to(self, r: Result<T, Result<T, R>>) -> bool {
        match self {
            Ok(v) => r == Ok::<T, Result<T, R>>(v),
            Err(e) => r is Err && r->Err_0 is Err && call_ensures(R::from, (e,), r->Err_0->Err_0),
        }
    }

    fn branch(self) -> (r: Result<T, Result<T, R>>) {
        match self {
            Ok(v) => Ok(v),
            Err(e) => Err(Err(R::from(e))),
        }
    }
}

/// Relies on std's `impl<T> From<T> for T`, whose `from` hands its argument
/// back unchanged.
pub assume_specification<V>[ <V as std::convert::From<V>>::from ](v: V) -> (r: V)
    ensures
        r == v,
;

/// `out` is what a function returns that propagates `c` and, on the continue
/// path with value `v`, returns an `o` for which `rest(v, o)` holds.
pub open spec fn propagated<T, B, C: Try<T, B>>(c: C, rest: spec_fn(T, B) -> bool, out: B) -> bool {
    exists|r: Result<T, B>|
        #[trigger] c.splits_to(r) && match r {
            Ok(v) => rest(v, out),
            Err(b) => out == b,
        }
}

/// Propagates `c`: on the continue path the result of `rest` applied to the
/// payload, on the abort path the abort value, with `rest` never called.
pub fn propagate<T, B, C: Try<T, B>, F: FnOnce(T) -> B>(c: C, rest: F) -> (out: B)
    requires
        forall|r: Result<T, B>| #[trigger] c.splits_to(r) && r is Ok ==> call_requires(rest, (r->Ok_0,)),
    ensures
        propagated(c, |v: T, o: B| call_ensures(rest, (v,), o), out),
{
    match c.branch() {
        Ok(v) => rest(v),
        Err(b) => b,
    }
}

} // verus!
