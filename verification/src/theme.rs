//! Default colors for each widget kind, kept as hex strings.

use vstd::prelude::*;

use crate::color::Color;
use crate::color::color_of_hex;
use crate::color::valid_hex;
use crate::error::Error;

verus! {

/// The palette used to color widgets whose builder was not given an
/// explicit color. Each entry is a `#RRGGBBAA` hex string.
#[derive(Debug)]
pub struct Theme {
    /// The toolbar color.
    pub bar: String,
    /// The container color.
    pub container: String,
    /// The dock color.
    pub dock: String,
    /// The label text color.
    pub label_text: String,
    /// The label background color.
    pub label_background: String,
    /// The window container color.
    pub window_container: String,
}

impl Clone for Theme {
    /// An exact copy.
    fn clone(&self) -> (r: Self)
        ensures
            r == *self,
    {
        Theme {
            bar: self.bar.clone(),
            container: self.container.clone(),
            dock: self.dock.clone(),
            label_text: self.label_text.clone(),
            label_background: self.label_background.clone(),
            window_container: self.window_container.clone(),
        }
    }
}

impl Theme {
    /// A theme from its six hex strings, in the field order of the
    /// struct.
    pub fn new(
        bar: String,
        container: String,
        dock: String,
        label_text: String,
        label_background: String,
        window_container: String,
    ) -> (r: Theme)
        ensures
            r == (Theme { bar, container, dock, label_text, label_background, window_container }),
    {
        Theme { bar, container, dock, label_text, label_background, window_container }
    }

    /// The built-in default palette.
    pub fn default() -> (r: Self)
        ensures
            r.bar@ == "#161B6DFF"@,
            r.container@ == "#161B1DFF"@,
            r.dock@ == "#161B6DFF"@,
            r.label_text@ == "#FFFFFFFF"@,
            r.label_background@ == "#161B1DFF"@,
            r.window_container@ == "#161B3DFF"@,
    {
        Self {
            bar: String::from_str("#161B6DFF"),
            container: String::from_str("#161B1DFF"),
            dock: String::from_str("#161B6DFF"),
            label_text: String::from_str("#FFFFFFFF"),
            label_background: String::from_str("#161B1DFF"),
            window_container: String::from_str("#161B3DFF"),
        }
    }

    /// The color for toolbars.
    pub fn bar_color(&self) -> (r: Result<Color, Error>)
        ensures
            valid_hex(self.bar@) ==> r == Ok::<Color, Error>(color_of_hex(self.bar@)),
            !valid_hex(self.bar@) ==> r == Err::<Color, Error>(Error::ColorFormat),
    {
        Color::from_hex(self.bar.as_str())
    }

    /// The color for containers.
    pub fn container_color(&self) -> (r: Result<Color, Error>)
        ensures
            valid_hex(self.container@) ==> r == Ok::<Color, Error>(color_of_hex(self.container@)),
            !valid_hex(self.container@) ==> r == Err::<Color, Error>(Error::ColorFormat),
    {
        Color::from_hex(self.container.as_str())
    }

    /// The color for docks.
    pub fn dock_color(&self) -> (r: Result<Color, Error>)
        ensures
            valid_hex(self.dock@) ==> r == Ok::<Color, Error>(color_of_hex(self.dock@)),
            !valid_hex(self.dock@) ==> r == Err::<Color, Error>(Error::ColorFormat),
    {
        Color::from_hex(self.dock.as_str())
    }

    /// The color for label text.
    pub fn label_text_color(&self) -> (r: Result<Color, Error>)
        ensures
            valid_hex(self.label_text@) ==> r == Ok::<Color, Error>(
                color_of_hex(self.label_text@),
            ),
            !valid_hex(self.label_text@) ==> r == Err::<Color, Error>(Error::ColorFormat),
    {
        Color::from_hex(self.label_text.as_str())
    }

    /// The color for label backgrounds.
    pub fn label_background_color(&self) -> (r: Result<Color, Error>)
        ensures
            valid_hex(self.label_background@) ==> r == Ok::<Color, Error>(
                color_of_hex(self.label_background@),
            ),
            !valid_hex(self.label_background@) ==> r == Err::<Color, Error>(Error::ColorFormat),
    {
        Color::from_hex(self.label_background.as_str())
    }

    /// The color for window containers.
    pub fn window_container_color(&self) -> (r: Result<Color, Error>)
        ensures
            valid_hex(self.window_container@) ==> r == Ok::<Color, Error>(
                color_of_hex(self.window_container@),
            ),
            !valid_hex(self.window_container@) ==> r == Err::<Color, Error>(Error::ColorFormat),
    {
        Color::from_hex(self.window_container.as_str())
    }
}

} // verus!
