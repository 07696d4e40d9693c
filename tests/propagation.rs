use try2::{propagate, Try};

fn try_option_none() -> Option<i32> {
    propagate(None, |a: i32| Some(a))
}

fn try_option_some() -> Option<i32> {
    propagate(Some(1), |a: i32| Some(a))
}

fn try_option_alt() -> Option<String> {
    propagate(Some(1), |a: i32| Some(a.to_string()))
}

#[test]
fn test_option() {
    assert_eq!(try_option_none(), None);
    assert_eq!(try_option_some(), Some(1));
    assert_eq!(try_option_alt(), Some("1".to_string()));
}

fn try_result_ok() -> Result<i32, ()> {
    propagate(Ok::<i32, ()>(1), |v: i32| Ok(v))
}

fn try_result_err() -> Result<(), &'static str> {
    propagate(Err("foo"), |v: ()| Ok(v))
}

fn try_result_alt() -> Result<(), String> {
    propagate(try_result_err(), |v: ()| Ok(v))
}

#[test]
fn test_result() {
    assert_eq!(try_result_ok(), Ok(1));
    assert_eq!(try_result_err(), Err("foo"));
    assert_eq!(try_result_alt(), Err("foo".to_string()));
}

#[derive(Debug, PartialEq)]
struct Wide(u32);

impl From<u8> for Wide {
    fn from(b: u8) -> Wide {
        Wide(b as u32 * 1000)
    }
}

#[test]
fn branch_option_present() {
    let r: Result<i32, Option<String>> = Some(7).branch();
    assert_eq!(r, Ok(7));
}

#[test]
fn branch_option_absent() {
    let r: Result<i32, Option<String>> = None.branch();
    assert_eq!(r, Err(None));
}

#[test]
fn branch_result_success() {
    let r: Result<i32, Result<i32, Wide>> = Ok::<i32, u8>(3).branch();
    assert_eq!(r, Ok(3));
}

#[test]
fn branch_result_failure_converts() {
    let r: Result<i32, Result<i32, Wide>> = Err::<i32, u8>(4).branch();
    assert_eq!(r, Err(Err(Wide(4000))));
}

#[test]
fn branch_result_failure_same_type() {
    let r: Result<i32, Result<i32, u8>> = Err::<i32, u8>(5).branch();
    assert_eq!(r, Err(Err(5)));
}

#[test]
fn option_present_continues_with_value() {
    let out: Option<i64> = propagate(Some(20), |a: i32| Some(a as i64 + 1));
    assert_eq!(out, Some(21));
}

#[test]
fn option_absent_skips_the_rest() {
    let out: Option<i64> = propagate(None, |_a: i32| -> Option<i64> { panic!("the rest ran") });
    assert_eq!(out, None);
}

#[test]
fn result_success_continues_with_value() {
    let out: Result<i32, Wide> = propagate(Ok::<i32, u8>(9), |v: i32| Ok(v * 2));
    assert_eq!(out, Ok(18));
}

#[test]
fn result_failure_converts_and_skips_the_rest() {
    let out: Result<i32, Wide> =
        propagate(Err::<i32, u8>(2), |_v: i32| -> Result<i32, Wide> { panic!("the rest ran") });
    assert_eq!(out, Err(Wide(2000)));
}

#[test]
fn result_failure_same_type_is_unchanged() {
    let out: Result<i32, u8> = propagate(Err::<i32, u8>(17), |v: i32| Ok(v));
    assert_eq!(out, Err(17));
}

#[test]
fn rest_may_itself_fail() {
    let out: Result<i32, u8> = propagate(Ok::<i32, u8>(1), |_v: i32| Err(42));
    assert_eq!(out, Err(42));
    let none: Option<i32> = propagate(Some(1), |_a: i32| None);
    assert_eq!(none, None);
}

fn halve(n: i32) -> Option<i32> {
    if n % 2 == 0 {
        Some(n / 2)
    } else {
        None
    }
}

fn quarter_nested(n: i32) -> Option<i32> {
    propagate(propagate(halve(n), |h: i32| halve(h)), |q: i32| Some(q))
}

fn quarter_inlined(n: i32) -> Option<i32> {
    propagate(halve(n), |h: i32| propagate(halve(h), |q: i32| Some(q)))
}

#[test]
fn option_nesting_matches_inlining() {
    for n in [-8, -6, -3, 0, 1, 2, 4, 6, 8, 12, 13] {
        assert_eq!(quarter_nested(n), quarter_inlined(n));
    }
    assert_eq!(quarter_nested(12), Some(3));
    assert_eq!(quarter_nested(6), None);
}

fn checked_double(v: i32) -> Result<i32, u8> {
    if v < 100 {
        Ok(v * 2)
    } else {
        Err(1)
    }
}

fn result_nested(c: Result<i32, u8>) -> Result<i32, Wide> {
    let inner = |c: Result<i32, u8>| -> Result<i32, u8> { propagate(c, |v: i32| checked_double(v)) };
    propagate(inner(c), |w: i32| Ok(w + 1))
}

fn result_inlined(c: Result<i32, u8>) -> Result<i32, Wide> {
    propagate(c, |v: i32| propagate(checked_double(v), |w: i32| Ok(w + 1)))
}

#[test]
fn result_nesting_matches_inlining() {
    let cases = [Ok(3), Ok(150), Err(7), Err(0)];
    for c in cases {
        assert_eq!(result_nested(c), result_inlined(c));
    }
    assert_eq!(result_nested(Ok(3)), Ok(7));
    assert_eq!(result_nested(Ok(150)), Err(Wide(1000)));
    assert_eq!(result_nested(Err(7)), Err(Wide(7000)));
}
