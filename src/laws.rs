//! What propagation returns, for each container shape.
use vstd::prelude::*;

use crate::{propagated, Try};

verus! {

/// A present value continues: the enclosing function returns what the rest
/// of its body returns for that value.
pub proof fn lemma_option_some_continues<T, R>(
    v: T,
    rest: spec_fn(T, Option<R>) -> bool,
    out: Option<R>,
)
    ensures
        propagated(Some(v), rest, out) <==> rest(v, out),
{
    let r = Ok::<T, Option<R>>(v);
    assert(Some(v).splits_to(r));
}

/// An absent value makes the enclosing function return its own absent value,
/// whatever the rest of its body would have returned.
pub proof fn lemma_option_none_aborts<T, R>(rest: spec_fn(T, Option<R>) -> bool, out: Option<R>)
    ensures
        propagated(None::<T>, rest, out) <==> out == None::<R>,
{
    let r = Err::<T, Option<R>>(None);
    assert(None::<T>.splits_to(r));
}

/// A success value continues: the enclosing function returns what the rest of
/// its body returns for that value.
pub proof fn lemma_result_ok_continues<T, E, R: From<E>>(
    v: T,
    rest: spec_fn(T, Result<T, R>) -> bool,
    out: Result<T, R>,
)
    ensures
        propagated(Ok::<T, E>(v), rest, out) <==> rest(v, out),
{
    let r = Ok::<T, Result<T, R>>(v);
    assert(Ok::<T, E>(v).splits_to(r));
}

/// A failure `e` makes the enclosing function return a failure that holds
/// what `R::from(e)` returns, whatever the rest of its body would have
/// returned.
pub proof fn lemma_result_err_aborts<T, E, R: From<E>>(
    e: E,
    rest: spec_fn(T, Result<T, R>) -> bool,
    out: Result<T, R>,
)
    ensures
        propagated(Err::<T, E>(e), rest, out) <==> (out is Err && call_ensures(
            R::from,
            (e,),
            out->Err_0,
        )),
{
    if out is Err && call_ensures(R::from, (e,), out->Err_0) {
        let r = Err::<T, Result<T, R>>(out);
        assert(Err::<T, E>(e).splits_to(r));
    }
}

/// Where the failure types of the container and of the enclosing function are
/// the same, the failure is returned unchanged.
pub proof fn lemma_result_err_same_type<T, E>(
    e: E,
    rest: spec_fn(T, Result<T, E>) -> bool,
    out: Result<T, E>,
)
    ensures
        propagated(Err::<T, E>(e), rest, out) ==> out == Err::<T, E>(e),
{
    lemma_result_err_aborts::<T, E, E>(e, rest, out);
}

/// Propagating what a function returns, where that function itself
/// propagates `c` and goes on as `inner`, gives the same outcomes as
/// propagating `c` in the outer function and going on with the inner body
/// followed by the outer one.
pub proof fn lemma_option_compose<A, B, C>(
    c: Option<A>,
    inner: spec_fn(A, Option<B>) -> bool,
    outer: spec_fn(B, Option<C>) -> bool,
    out: Option<C>,
)
    ensures
        (exists|m: Option<B>| #[trigger] propagated(c, inner, m) && propagated(m, outer, out))
            <==> propagated(
            c,
            |v: A, o: Option<C>| exists|m: Option<B>| #[trigger] inner(v, m) && propagated(m, outer, o),
            out,
        ),
{
    let k = |v: A, o: Option<C>| exists|m: Option<B>| #[trigger] inner(v, m) && propagated(m, outer, o);
    match c {
        Some(v) => {
            assert forall|m: Option<B>| #[trigger] propagated(c, inner, m) <==> inner(v, m) by {
                lemma_option_some_continues(v, inner, m);
            }
            lemma_option_some_continues(v, k, out);
            if k(v, out) {
                let m = choose|m: Option<B>| #[trigger] inner(v, m) && propagated(m, outer, out);
                assert(propagated(c, inner, m));
            }
        },
        None => {
            assert forall|m: Option<B>| #[trigger] propagated(c, inner, m) <==> m == None::<B> by {
                lemma_option_none_aborts(inner, m);
            }
            lemma_option_none_aborts(outer, out);
            lemma_option_none_aborts(k, out);
            if out == None::<C> {
                assert(propagated(c, inner, None::<B>) && propagated(None::<B>, outer, out));
            }
        },
    }
}

/// The same for failures, where converting a failure to the inner function's
/// failure type and then to the outer one gives what converting it to the
/// outer type at once gives: the failure is converted once by each step, and
/// never wrapped twice.
pub proof fn lemma_result_compose<A, E1, E2: From<E1>, E3: From<E2> + From<E1>>(
    c: Result<A, E1>,
    inner: spec_fn(A, Result<A, E2>) -> bool,
    outer: spec_fn(A, Result<A, E3>) -> bool,
    out: Result<A, E3>,
)
    requires
        forall|e: E1, y: E3|
            #[trigger] call_ensures(<E3 as From<E1>>::from, (e,), y) <==> exists|x: E2|
                #[trigger] call_ensures(<E2 as From<E1>>::from, (e,), x) && call_ensures(
                    <E3 as From<E2>>::from,
                    (x,),
                    y,
                ),
    ensures
        (exists|m: Result<A, E2>| #[trigger] propagated(c, inner, m) && propagated(m, outer, out))
            <==> propagated(
            c,
            |v: A, o: Result<A, E3>|
                exists|m: Result<A, E2>| #[trigger] inner(v, m) && propagated(m, outer, o),
            out,
        ),
{
    let k = |v: A, o: Result<A, E3>|
        exists|m: Result<A, E2>| #[trigger] inner(v, m) && propagated(m, outer, o);
    match c {
        Ok(v) => {
            assert forall|m: Result<A, E2>| #[trigger] propagated(c, inner, m) <==> inner(v, m) by {
                lemma_result_ok_continues::<A, E1, E2>(v, inner, m);
            }
            lemma_result_ok_continues::<A, E1, E3>(v, k, out);
            if k(v, out) {
                let m = choose|m: Result<A, E2>| #[trigger] inner(v, m) && propagated(m, outer, out);
                assert(propagated(c, inner, m));
            }
        },
        Err(e) => {
            assert forall|m: Result<A, E2>| #[trigger]
                propagated(c, inner, m) <==> (m is Err && call_ensures(
                    <E2 as From<E1>>::from,
                    (e,),
                    m->Err_0,
                )) by {
                lemma_result_err_aborts::<A, E1, E2>(e, inner, m);
            }
            assert forall|m: Result<A, E2>| m is Err implies #[trigger]
                propagated(m, outer, out) <==> (out is Err && call_ensures(
                    <E3 as From<E2>>::from,
                    (m->Err_0,),
                    out->Err_0,
                )) by {
                lemma_result_err_aborts::<A, E2, E3>(m->Err_0, outer, out);
            }
            lemma_result_err_aborts::<A, E1, E3>(e, k, out);
            if propagated(c, k, out) {
                let y = out->Err_0;
                let x = choose|x: E2|
                    #[trigger] call_ensures(<E2 as From<E1>>::from, (e,), x) && call_ensures(
                        <E3 as From<E2>>::from,
                        (x,),
                        y,
                    );
                let m = Err::<A, E2>(x);
                assert(propagated(c, inner, m) && propagated(m, outer, out));
            }
        },
    }
}

/// Where the three failure types are one type, every conversion is the
/// identity, so converting in two steps gives what converting at once gives.
pub proof fn lemma_same_type_conversions_compose<E>()
    ensures
        forall|e: E, y: E|
            #[trigger] call_ensures(<E as From<E>>::from, (e,), y) <==> exists|x: E|
                #[trigger] call_ensures(<E as From<E>>::from, (e,), x) && call_ensures(
                    <E as From<E>>::from,
                    (x,),
                    y,
                ),
{
    assert forall|e: E, y: E|
        #[trigger] call_ensures(<E as From<E>>::from, (e,), y) <==> exists|x: E|
            #[trigger] call_ensures(<E as From<E>>::from, (e,), x) && call_ensures(
                <E as From<E>>::from,
                (x,),
                y,
            ) by {
        if call_ensures(<E as From<E>>::from, (e,), y) {
            assert(call_ensures(<E as From<E>>::from, (e,), e));
        }
    }
}

} // verus!
