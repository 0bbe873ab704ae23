use std::cell::Cell;

use optres::Res;
use optres::ResultCheck;
use optres::ResultFns;

#[test]
fn map_applies_on_success() {
    let x: Res<i32, &str> = Res::Success(2);
    assert_eq!(x.map(|v| v + 1), Res::Success(3));
}

#[test]
fn map_passes_failure_through() {
    let x: Res<i32, &str> = Res::Failure("e");
    assert_eq!(x.map(|v| v + 1), Res::Failure("e"));
}

#[test]
fn and_then_applies_on_success() {
    let f = |v: i32| {
        if v > 0 {
            Res::Success(v)
        } else {
            Res::Failure("neg")
        }
    };
    let x: Res<i32, &str> = Res::Success(2);
    assert_eq!(x.and_then(f), Res::Success(2));
    let y: Res<i32, &str> = Res::Success(2);
    assert_eq!(y.and_then(f), f(2));
}

#[test]
fn and_then_chain_short_circuits_at_first_failure() {
    let calls: Cell<i32> = Cell::new(0);
    let x: Res<i32, &str> = Res::Success(-1);
    let r = x
        .and_then(|v| {
            if v > 0 {
                Res::Success(v)
            } else {
                Res::Failure("neg")
            }
        })
        .and_then(|v| {
            calls.set(calls.get() + 1);
            Res::Success(v + 1)
        });
    assert_eq!(r, Res::Failure("neg"));
    assert_eq!(calls.get(), 0);
}

#[test]
fn or_else_keeps_success() {
    let calls: Cell<i32> = Cell::new(0);
    let x: Res<i32, &str> = Res::Success(3);
    let r = x.or_else(|_e| {
        calls.set(calls.get() + 1);
        Res::Success(0)
    });
    assert_eq!(r, Res::Success(3));
    assert_eq!(calls.get(), 0);
}

#[test]
fn or_else_recovers_from_failure() {
    let x: Res<i32, &str> = Res::Failure("oops");
    let r = x.or_else(|e| Res::Success(e.len() as i32));
    assert_eq!(r, Res::Success(4));
}

#[test]
fn result_unwrap_round_trip() {
    let x: Res<i32, &str> = Res::Success(5);
    let v: i32 = x.unwrap();
    assert_eq!(v, 5);
}

#[test]
fn result_unwrap_or_takes_value_or_default() {
    let x: Res<i32, &str> = Res::Success(4);
    let v: i32 = x.unwrap_or(9);
    assert_eq!(v, 4);
    let y: Res<i32, &str> = Res::Failure("e");
    let w: i32 = y.unwrap_or(9);
    assert_eq!(w, 9);
}

#[test]
fn unwrap_or_else_hands_error_to_recovery() {
    let x: Res<i32, &str> = Res::Success(4);
    let v: i32 = x.unwrap_or_else(|e| e.len() as i32);
    assert_eq!(v, 4);
    let y: Res<i32, &str> = Res::Failure("abc");
    let w: i32 = y.unwrap_or_else(|e| e.len() as i32);
    assert_eq!(w, 3);
}

#[test]
fn expect_returns_success_value() {
    let x: Res<i32, &str> = Res::Success(8);
    let v: i32 = x.expect("value was expected");
    assert_eq!(v, 8);
}

#[test]
fn is_ok_is_err_are_complementary() {
    let x: Res<i32, &str> = Res::Success(1);
    assert_eq!(x.is_ok(), true);
    assert_eq!(x.is_err(), false);
    let y: Res<i32, &str> = Res::Failure("e");
    assert_eq!(y.is_ok(), false);
    assert_eq!(y.is_err(), true);
}

#[test]
fn check_compares_success_payload() {
    let x: Res<i32, i32> = Res::Success(5);
    assert_eq!(x.check(5), true);
    assert_eq!(x.check(6), false);
    assert_eq!(x.check_err(5), false);
    let y: Res<i32, i32> = Res::Failure(7);
    assert_eq!(y.check(5), false);
    assert_eq!(y.check_err(7), true);
    assert_eq!(y.check_err(8), false);
}

#[test]
fn check_works_on_native_result() {
    let x: Result<i32, i32> = Ok(5);
    assert_eq!(x.check(5), true);
    assert_eq!(x.check_err(5), false);
    let y: Result<i32, i32> = Err(7);
    assert_eq!(y.check(5), false);
    assert_eq!(y.check_err(7), true);
}

#[test]
fn native_conversions_round_trip_result() {
    let x: Res<i32, &str> = Res::from_native(Ok(5));
    assert_eq!(x, Res::Success(5));
    assert_eq!(x.into_native(), Ok(5));
    let y: Res<i32, &str> = Res::from_native(Err("e"));
    assert_eq!(y, Res::Failure("e"));
    assert_eq!(y.into_native(), Err("e"));
}
