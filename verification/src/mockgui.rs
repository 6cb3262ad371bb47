//! A screen draws whatever can be drawn, without knowing what it is.

use vstd::prelude::*;
use vstd::string::StringExecFns;
use crate::decimal::{digits, unsigned_text};

verus! {

/// Whatever can be drawn. To draw is to say what appears on the screen.
pub trait Draw {
    /// What appears on the screen when the value is drawn, for a type that
    /// commits itself to it. A type that says nothing leaves it open.
    open spec fn appearance(&self) -> Option<Seq<char>> {
        None
    }

    /// Draws the value: returns what appears on the screen.
    fn draw(&self) -> (drawn: String)
        ensures
            self.appearance() matches Some(text) ==> drawn@ == text,
    ;
}

impl Draw for Box<dyn Draw> {
    /// A box appears as what is in it.
    open spec fn appearance(&self) -> Option<Seq<char>> {
        (**self).appearance()
    }

    /// Draws what is in the box.
    fn draw(&self) -> (drawn: String) {
        (**self).draw()
    }
}

/// Whether `drawn` is something that `component` may draw.
pub open spec fn draws<T: Draw>(component: &T, drawn: String) -> bool {
    call_ensures(T::draw, (component,), drawn)
}

/// Draws each of `components`, in order, and returns what each one drew.
pub fn draw_all<T: Draw>(components: &Vec<T>) -> (drawn: Vec<String>)
    ensures
        drawn.len() == components.len(),
        forall|i: int| 0 <= i < drawn.len() ==> draws(&components[i], #[trigger] drawn[i]),
{
    let mut drawn: Vec<String> = Vec::new();
    let mut i: usize = 0;
    while i < components.len()
        invariant
            i <= components.len(),
            drawn.len() == i,
            forall|j: int| 0 <= j < i ==> draws(&components[j], #[trigger] drawn[j]),
        decreases components.len() - i,
    {
        let component = components[i].draw();
        drawn.push(component);
        i += 1;
    }
    drawn
}

/// A screen with its components, in the order in which they are drawn.
pub struct Screen {
    pub components: Vec<Box<dyn Draw>>,
}

impl Screen {
    /// Draws every component, in order, and returns what each one drew.
    pub fn run(&self) -> (drawn: Vec<String>)
        ensures
            drawn.len() == self.components.len(),
            forall|i: int|
                0 <= i < drawn.len() ==> draws(&self.components[i], #[trigger] drawn[i]),
    {
        draw_all(&self.components)
    }
}

/// A button.
pub struct Button {
    pub width: u32,
    pub height: u32,
    pub label: String,
}

impl Button {
    /// What appears on the screen when the button is drawn.
    pub open spec fn rendering(&self) -> Seq<char> {
        "在屏幕画了一个宽"@ + digits(self.width as nat) + " 高"@ + digits(self.height as nat)
            + "的"@ + self.label@ + "按钮"@
    }
}

impl Draw for Button {
    open spec fn appearance(&self) -> Option<Seq<char>> {
        Some(self.rendering())
    }

    /// Says how wide and how high a button with which label was drawn.
    fn draw(&self) -> (drawn: String)
        ensures
            drawn@ == self.rendering(),
    {
        let mut drawn = String::from_str("在屏幕画了一个宽");
        drawn.append(unsigned_text(self.width as u64).as_str());
        drawn.append(" 高");
        drawn.append(unsigned_text(self.height as u64).as_str());
        drawn.append("的");
        drawn.append(self.label.as_str());
        drawn.append("按钮");
        drawn
    }
}

/// What a button draws is its rendering, and nothing else.
pub proof fn lemma_button_drawing(button: Button, drawn: String)
    requires
        draws(&button, drawn),
    ensures
        drawn@ == button.rendering(),
{
}

} // verus!
