use primer::mockgui::{Button, Draw, Screen};

struct SelectBox {
    width: u32,
    height: u32,
    options: Vec<String>,
}

impl Draw for SelectBox {
    fn draw(&self) -> String {
        format!("在屏幕画了一个宽{} 高{}的选择框：{:?}", self.width, self.height, self.options)
    }
}

#[test]
fn a_screen_draws_its_components_in_order() {
    let screen = Screen {
        components: vec![
            Box::new(SelectBox {
                width: 75,
                height: 10,
                options: vec![String::from("Yes"), String::from("Maybe"), String::from("No")],
            }),
            Box::new(Button { width: 50, height: 10, label: String::from("OK") }),
        ],
    };

    assert_eq!(
        screen.run(),
        vec![
            "在屏幕画了一个宽75 高10的选择框：[\"Yes\", \"Maybe\", \"No\"]",
            "在屏幕画了一个宽50 高10的OK按钮",
        ]
    );
}

#[test]
fn an_empty_screen_draws_nothing() {
    let screen = Screen { components: vec![] };
    assert!(screen.run().is_empty());
}

#[test]
fn a_button_says_its_size_and_label() {
    let button = Button { width: 0, height: u32::MAX, label: String::new() };
    assert_eq!(button.draw(), "在屏幕画了一个宽0 高4294967295的按钮");
}
