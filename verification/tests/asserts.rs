use typekit::asserts::assert_err;
use typekit::asserts::assert_err_eq;
use typekit::asserts::assert_ok;
use typekit::asserts::assert_ok_eq;
use typekit::asserts::assert_some;
use typekit::asserts::ensure;

#[test]
fn assert_ok_success() {
    assert_ok(Ok::<(), ()>(()));
    assert_ok_eq(Ok::<_, ()>(10), 10);
}

#[test]
fn assert_err_success() {
    assert_err(Err::<(), _>("fail"));
    assert_eq!(assert_err(Err::<(), _>("error message")), "error message");
}

#[test]
fn assert_err_eq_success() {
    assert_err_eq(Err::<(), _>(10), 10);
}

#[test]
fn assert_some_success() {
    assert_some(Some(10));
}

#[test]
fn assert_ok_returns_the_value() {
    assert_eq!(assert_ok(Ok::<u32, ()>(3)), 3);
}

#[test]
fn assert_some_returns_the_value() {
    assert_eq!(assert_some(Some(10)), 10);
}

#[test]
fn ensure_gives_ok_or_the_error() {
    assert_eq!(ensure(true, 5), Ok(()));
    assert_eq!(ensure(false, 5), Err(5));
}
