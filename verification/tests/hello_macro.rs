use primer::hello_macro::{hello, HelloMacro, Pancakes};

struct Waffles;

impl HelloMacro for Waffles {
    fn hello_macro() -> String {
        hello("Waffles")
    }
}

#[test]
fn pancakes_say_hello_by_name() {
    assert_eq!(Pancakes::hello_macro(), "Hello, Macro! My name is Pancakes");
}

#[test]
fn any_type_can_say_hello() {
    assert_eq!(Waffles::hello_macro(), "Hello, Macro! My name is Waffles");
    assert_eq!(hello(""), "Hello, Macro! My name is ");
}
