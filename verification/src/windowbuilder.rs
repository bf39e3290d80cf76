//! The window builder: the information a window is created from, gathered
//! before the OS layer registers it.

use vstd::prelude::*;

use crate::common::{Point, Size, Theme, utf16_of, utf16_units};

verus! {

/// Describes a window before the OS layer creates it.
#[derive(Clone, Debug, PartialEq)]
pub struct WindowBuilder {
    /// The window title.
    pub title: String,
    /// Path of the icon file, or empty for none.
    pub icon: String,
    /// Initial position of the window.
    pub pos: Point,
    /// Initial size of the window.
    pub size: Size,
    /// Whether the window may be resized by the user.
    pub resizable: bool,
    /// Theme of the window chrome.
    pub theme: Theme,
}

impl WindowBuilder {
    /// Creates a builder with the default settings.
    pub fn new() -> (b: Self)
        ensures
            b.title@ == "Direct Game Engine Window"@,
            b.icon@ == Seq::<char>::empty(),
            b.pos == (Point { x: 0, y: 0 }),
            b.size == (Size { width: 800, height: 640 }),
            !b.resizable,
            b.theme == Theme::Light,
    {
        WindowBuilder {
            title: "Direct Game Engine Window".to_owned(),
            icon: String::new(),
            pos: Point::new(0, 0),
            size: Size::new(800, 640),
            resizable: false,
            theme: Theme::Light,
        }
    }

    /// Returns the title.
    pub fn get_title(&self) -> (t: String)
        ensures
            t@ == self.title@,
    {
        self.title.clone()
    }

    /// Returns the icon path.
    pub fn get_icon(&self) -> (i: String)
        ensures
            i@ == self.icon@,
    {
        self.icon.clone()
    }

    /// The title as a NUL-terminated UTF-16 buffer for the OS layer.
    pub fn title(&self) -> (v: Vec<u16>)
        ensures
            v@ == utf16_of(self.title@).push(0u16),
    {
        let mut v = utf16_units(self.title.as_str());
        v.push(0);
        v
    }

    /// The icon path as a NUL-terminated UTF-16 buffer for the OS layer.
    pub fn icon(&self) -> (v: Vec<u16>)
        ensures
            v@ == utf16_of(self.icon@).push(0u16),
    {
        let mut v = utf16_units(self.icon.as_str());
        v.push(0);
        v
    }

    /// Returns the position.
    pub fn get_pos(&self) -> (p: Point)
        ensures
            p == self.pos,
    {
        self.pos
    }

    /// Returns the x position.
    pub fn get_x(&self) -> (x: i32)
        ensures
            x == self.pos.x,
    {
        self.pos.x
    }

    /// Returns the y position.
    pub fn get_y(&self) -> (y: i32)
        ensures
            y == self.pos.y,
    {
        self.pos.y
    }

    /// Returns the size.
    pub fn get_size(&self) -> (s: Size)
        ensures
            s == self.size,
    {
        self.size
    }

    /// Returns the width.
    pub fn get_width(&self) -> (w: i32)
        ensures
            w == self.size.width,
    {
        self.size.width
    }

    /// Returns the height.
    pub fn get_height(&self) -> (h: i32)
        ensures
            h == self.size.height,
    {
        self.size.height
    }

    /// Returns the theme.
    pub fn get_theme(&self) -> (t: Theme)
        ensures
            t == self.theme,
    {
        self.theme
    }

    /// Returns the builder with the given title.
    pub fn with_title(self, title: &str) -> (b: Self)
        ensures
            b == (WindowBuilder { title: b.title, ..self }),
            b.title@ == title@,
    {
        WindowBuilder { title: title.to_owned(), ..self }
    }

    /// Returns the builder with the given icon path.
    pub fn with_icon(self, path: &str) -> (b: Self)
        ensures
            b == (WindowBuilder { icon: b.icon, ..self }),
            b.icon@ == path@,
    {
        WindowBuilder { icon: path.to_owned(), ..self }
    }

    /// Returns the builder with the given position.
    pub fn with_pos(self, x: i32, y: i32) -> (b: Self)
        ensures
            b == (WindowBuilder { pos: (Point { x, y }), ..self }),
    {
        WindowBuilder { pos: Point::new(x, y), ..self }
    }

    /// Returns the builder with the given size.
    pub fn with_dimensions(self, width: i32, height: i32) -> (b: Self)
        ensures
            b == (WindowBuilder { size: (Size { width, height }), ..self }),
    {
        WindowBuilder { size: Size::new(width, height), ..self }
    }

    /// Returns the builder with the given resizability.
    pub fn with_resizable(self, resizable: bool) -> (b: Self)
        ensures
            b == (WindowBuilder { resizable, ..self }),
    {
        WindowBuilder { resizable, ..self }
    }

    /// Returns the builder with the given theme.
    pub fn with_theme(self, theme: Theme) -> (b: Self)
        ensures
            b == (WindowBuilder { theme, ..self }),
    {
        WindowBuilder { theme, ..self }
    }

    /// Returns whether the window may be resized by the user.
    pub fn is_resizable(&self) -> (r: bool)
        ensures
            r == self.resizable,
    {
        self.resizable
    }
}

impl Default for WindowBuilder {
    /// The default builder.
    fn default() -> (b: Self)
        ensures
            b.title@ == "Direct Game Engine Window"@,
            b.icon@ == Seq::<char>::empty(),
            b.pos == (Point { x: 0, y: 0 }),
            b.size == (Size { width: 800, height: 640 }),
            !b.resizable,
            b.theme == Theme::Light,
    {
        WindowBuilder::new()
    }
}

} // verus!
