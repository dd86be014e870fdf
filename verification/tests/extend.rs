use typekit::extend::OptionFlatten;
use typekit::extend::ResultFlatten;

#[test]
fn option_flatten() {
    // flatted the inner option
    assert_eq!(Some(Some(1)).flatted(), Some(1));

    // flatten the None value is None
    assert_eq!(None::<Option<i32>>.flatted(), None::<i32>);

    // flattens only once at a time
    assert_eq!(Some(Some(Some(10))).flatted(), Some(Some(10)));
}

#[test]
fn result_flatten() {
    // flatted the inner result
    assert_eq!(Ok(Ok::<i32, ()>(1)).flatted(), Ok(1));

    // flatten the Err value is error
    assert_eq!(Ok(Err::<(), i32>(1)).flatted(), Err(1));

    // flatten only once at a time
    assert_eq!(Ok(Ok::<_, ()>(Ok::<i32, ()>(10))).flatted(), Ok(Ok(10)));
}

#[test]
fn option_flatten_absent_inner() {
    // a present outer wrapping an absent inner flattens to absent
    assert_eq!(Some(None::<i32>).flatted(), None::<i32>);
}

#[test]
fn result_flatten_outer_failure() {
    // an outer failure passes through; the inner layer is never inspected
    assert_eq!(Err::<Result<i32, &str>, &str>("e").flatted(), Err("e"));
}
