use primer::advanced_functions::do_twice;

#[test]
fn test_outline_print_point() {
    fn add_one(x: i32) -> i32 {
        x + 1
    }

    let value = do_twice(add_one, 5);

    assert_eq!(12, value);
}

#[test]
fn do_twice_takes_closures_too() {
    assert_eq!(do_twice(|x| x * x, -3), 18);
    assert_eq!(do_twice(|_| 0, 7), 0);
}
