//! The widget layer: elements with a position and an optional background,
//! text labels, and buttons, all modeled over plain pixel coordinates and
//! plain RGBA colors.

use vstd::prelude::*;

verus! {

/// Character size a text label is built with.
pub const DEFAULT_TEXT_SIZE: u32 = 12;

/// An RGBA color, one byte per channel.
#[derive(Clone, Copy, Debug, PartialEq, Eq, Structural)]
pub struct Color {
    pub r: u8,
    pub g: u8,
    pub b: u8,
    pub a: u8,
}

impl Color {
    /// Opaque red, the default fill color of a text label.
    pub open spec fn spec_red() -> Color {
        Color { r: 255, g: 0, b: 0, a: 255 }
    }

    /// Opaque magenta, the background a text label is built with.
    pub open spec fn spec_magenta() -> Color {
        Color { r: 255, g: 0, b: 255, a: 255 }
    }

    /// Opaque yellow, the background a button is built with.
    pub open spec fn spec_yellow() -> Color {
        Color { r: 255, g: 255, b: 0, a: 255 }
    }

    /// Opaque black, the color each frame is cleared to.
    pub open spec fn spec_black() -> Color {
        Color { r: 0, g: 0, b: 0, a: 255 }
    }

    pub fn red() -> (c: Color)
        ensures
            c == Color::spec_red(),
    {
        Color { r: 255, g: 0, b: 0, a: 255 }
    }

    pub fn magenta() -> (c: Color)
        ensures
            c == Color::spec_magenta(),
    {
        Color { r: 255, g: 0, b: 255, a: 255 }
    }

    pub fn yellow() -> (c: Color)
        ensures
            c == Color::spec_yellow(),
    {
        Color { r: 255, g: 255, b: 0, a: 255 }
    }

    pub fn black() -> (c: Color)
        ensures
            c == Color::spec_black(),
    {
        Color { r: 0, g: 0, b: 0, a: 255 }
    }
}

/// A filled rectangle standing behind a widget: its fill color and the
/// position it is drawn at. A freshly built one sits at the origin.
#[derive(Clone, Copy, Debug, PartialEq, Eq)]
pub struct Rectangle {
    pub fill_color: Color,
    pub position: (i32, i32),
}

/// A drawable element: a logical position, an optional size, and an
/// optional background rectangle.
#[derive(Debug, PartialEq, Eq)]
pub struct UIElement {
    pub position: (i32, i32),
    pub size: Option<(i32, i32)>,
    pub background: Option<Rectangle>,
}

/// Holds when the element's background, if it has one, is drawn at the
/// element's own logical position.
pub open spec fn background_in_sync(e: UIElement) -> bool {
    e.background matches Some(b) ==> b.position == e.position
}

impl UIElement {
    fn new(position: (i32, i32)) -> (b: UIElementBuilder)
        ensures
            b == (UIElementBuilder { position, size: None, background: None }),
    {
        UIElementBuilder { position, size: None, background: None }
    }

    /// Moves the element: the logical position and, when a background
    /// exists, the background's draw position both become the new
    /// coordinates, so the two end up in sync.
    pub fn set_position(&mut self, coord_x: i32, coord_y: i32)
        ensures
            final(self).position == (coord_x, coord_y),
            final(self).size == old(self).size,
            old(self).background is None ==> final(self).background is None,
            old(self).background matches Some(b) ==> final(self).background == Some(
                Rectangle { fill_color: b.fill_color, position: (coord_x, coord_y) },
            ),
            background_in_sync(*final(self)),
    {
        self.position.0 = coord_x;
        self.position.1 = coord_y;
        match &mut self.background {
            Some(x) => {
                x.position = self.position;
            },
            None => (),
        }
    }

    pub fn get_position(&self) -> (p: (i32, i32))
        ensures
            p == self.position,
    {
        (self.position.0, self.position.1)
    }
}

/// Accumulates an optional size and background onto a position, then
/// materializes the element in one step.
#[derive(Debug, PartialEq, Eq)]
pub struct UIElementBuilder {
    pub position: (i32, i32),
    pub size: Option<(i32, i32)>,
    pub background: Option<Rectangle>,
}

impl UIElementBuilder {
    fn build(self) -> (e: UIElement)
        ensures
            e == (UIElement {
                position: self.position,
                size: self.size,
                background: self.background,
            }),
    {
        UIElement { position: self.position, size: self.size, background: self.background }
    }

    fn size(self, size: (i32, i32)) -> (b: UIElementBuilder)
        ensures
            b == (UIElementBuilder { size: Some(size), ..self }),
    {
        UIElementBuilder { position: self.position, size: Some(size), background: self.background }
    }

    /// Adds a background: a fresh rectangle of the given fill color,
    /// sitting at the origin until the element is repositioned.
    fn background(self, color: Color) -> (b: UIElementBuilder)
        ensures
            b == (UIElementBuilder {
                background: Some(Rectangle { fill_color: color, position: (0, 0) }),
                ..self
            }),
    {
        let rect = Rectangle { fill_color: color, position: (0, 0) };
        UIElementBuilder { position: self.position, size: self.size, background: Some(rect) }
    }
}

/// Render style of a text label: regular or bold.
#[derive(Clone, Copy, Debug, PartialEq, Eq, Structural)]
pub enum TextStyle {
    Regular,
    Bold,
}

/// A text label: a backing element plus the label string and how it is
/// rendered.
#[derive(Debug, PartialEq, Eq)]
pub struct UIText {
    pub ui_element: UIElement,
    pub text: String,
    pub char_size: u32,
    pub color: Color,
    pub style: TextStyle,
}

/// What a freshly built text label for `s` looks like: a magenta
/// background at the origin, the default character size, red fill, and
/// the regular style.
pub open spec fn is_fresh_text(t: UIText, s: Seq<char>) -> bool {
    &&& t.ui_element == (UIElement {
        position: (0, 0),
        size: None,
        background: Some(Rectangle { fill_color: Color::spec_magenta(), position: (0, 0) }),
    })
    &&& t.text@ == s
    &&& t.char_size == DEFAULT_TEXT_SIZE
    &&& t.color == Color::spec_red()
    &&& t.style is Regular
}

impl UIText {
    pub fn new(text: &str) -> (t: UIText)
        ensures
            is_fresh_text(t, text@),
    {
        let magenta = Color::magenta();
        let mut ui_text = UIText {
            ui_element: UIElement::new((0, 0)).background(magenta).build(),
            text: String::from_str(text),
            char_size: DEFAULT_TEXT_SIZE,
            color: Color::red(),
            style: TextStyle::Regular,
        };
        let red = Color::red();
        ui_text.set_color(red);
        ui_text
    }

    pub fn set_color(&mut self, color: Color)
        ensures
            final(self).color == color,
            final(self).ui_element == old(self).ui_element,
            final(self).text == old(self).text,
            final(self).char_size == old(self).char_size,
            final(self).style == old(self).style,
    {
        self.color = color;
    }

    /// Turns the bold style on or off; every other part of the label is
    /// left as it was.
    pub fn set_bold(&mut self, active: bool)
        ensures
            final(self).style == (if active {
                TextStyle::Bold
            } else {
                TextStyle::Regular
            }),
            final(self).ui_element == old(self).ui_element,
            final(self).text == old(self).text,
            final(self).char_size == old(self).char_size,
            final(self).color == old(self).color,
    {
        let style = if active {
            TextStyle::Bold
        } else {
            TextStyle::Regular
        };
        self.style = style;
    }
}

/// A button: a backing element with a yellow background of the given
/// size, and a fresh text label. Its click action is held by the caller,
/// outside this model.
#[derive(Debug, PartialEq, Eq)]
pub struct UIButton {
    pub ui_element: UIElement,
    pub label: UIText,
}

impl UIButton {
    pub fn new(label: &str, position: (i32, i32), size: (i32, i32)) -> (b: UIButton)
        ensures
            b.ui_element == (UIElement {
                position,
                size: Some(size),
                background: Some(Rectangle { fill_color: Color::spec_yellow(), position: (0, 0) }),
            }),
            is_fresh_text(b.label, label@),
    {
        let yellow = Color::yellow();
        UIButton {
            ui_element: UIElement::new(position).background(yellow).size(size).build(),
            label: UIText::new(label),
        }
    }
}

} // verus!
