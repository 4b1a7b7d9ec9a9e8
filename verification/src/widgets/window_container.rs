//! The builder for the window container widget at the root of the tree.

use vstd::prelude::*;

use crate::color::Color;
use crate::color::color_of_hex;
use crate::color::valid_hex;
use crate::enums::Position;
use crate::enums::Size;
use crate::error::Error;
use crate::frac::Frac;
use crate::frac::rat_of_int;
use crate::ui::Ui;
use crate::ui::spec_added;
use crate::ui::spec_find;
use crate::widget::Id;
use crate::widget::Widget;
use crate::widget::WindowConfig;
use crate::widget::WindowContainer;
use crate::widgets::chosen_hex;

verus! {

/// The builder for the window container widget.
#[derive(Clone, Debug)]
pub struct WindowContainerBuilder {
    /// The id the window container will carry.
    pub id: Id,
    /// The position bucket; a window container is always drawn centered.
    pub position: Position,
    /// The explicit color hex string; empty means the theme's window
    /// container color.
    pub color: String,
    /// Requested dimensions in logical pixels, if any.
    pub dimensions: Option<(u64, u64)>,
    /// Minimum dimensions in logical pixels, if any.
    pub min_dimensions: Option<(u64, u64)>,
    /// Maximum dimensions in logical pixels, if any.
    pub max_dimensions: Option<(u64, u64)>,
    /// Whether the window is resizable.
    pub resizable: bool,
    /// The index of the monitor to go fullscreen on, if any.
    pub fullscreen: Option<u32>,
    /// The window title.
    pub title: String,
    /// Whether the window starts maximized.
    pub maximized: bool,
    /// Whether the window starts visible.
    pub visible: bool,
    /// Whether the window background is transparent.
    pub transparent: bool,
    /// Whether the window has decorations.
    pub decorations: bool,
    /// Whether the window is always on top.
    pub always_on_top: bool,
    /// Whether multitouch is enabled.
    pub multitouch: bool,
}

impl Default for WindowContainerBuilder {
    /// The default window: resizable, maximized, visible and decorated,
    /// with the default title.
    fn default() -> (r: Self)
        ensures
            r.id@.len() == 0,
            r.position == Position::Center,
            r.color@.len() == 0,
            r.dimensions is None,
            r.min_dimensions is None,
            r.max_dimensions is None,
            r.resizable,
            r.fullscreen is None,
            r.title@ == "o2tk window"@,
            r.maximized,
            r.visible,
            !r.transparent,
            r.decorations,
            !r.always_on_top,
            !r.multitouch,
    {
        WindowContainerBuilder {
            id: String::new(),
            position: Position::Center,
            color: String::new(),
            dimensions: None,
            min_dimensions: None,
            max_dimensions: None,
            resizable: true,
            fullscreen: None,
            title: String::from_str("o2tk window"),
            maximized: true,
            visible: true,
            transparent: false,
            decorations: true,
            always_on_top: false,
            multitouch: false,
        }
    }
}

impl WindowContainerBuilder {
    /// Initialize the builder for the window container widget.
    pub fn new(id: &str) -> (r: Self)
        ensures
            r.id@ == id@,
            r.position == Position::Center,
            r.color@.len() == 0,
            r.dimensions is None,
            r.min_dimensions is None,
            r.max_dimensions is None,
            r.resizable,
            r.fullscreen is None,
            r.title@ == "o2tk window"@,
            r.maximized,
            r.visible,
            !r.transparent,
            r.decorations,
            !r.always_on_top,
            !r.multitouch,
    {
        WindowContainerBuilder { id: String::from_str(id), ..WindowContainerBuilder::default() }
    }

    /// Set the color.
    pub fn with_color(self, color: &str) -> (r: Self)
        ensures
            r == (WindowContainerBuilder { color: r.color, ..self }),
            r.color@ == color@,
    {
        WindowContainerBuilder { color: String::from_str(color), ..self }
    }

    /// Requests the window to be of specific dimensions, in logical
    /// pixels.
    pub fn with_dimensions(self, width: u64, height: u64) -> (r: Self)
        ensures
            r == (WindowContainerBuilder { dimensions: Some((width, height)), ..self }),
    {
        WindowContainerBuilder { dimensions: Some((width, height)), ..self }
    }

    /// Sets a minimum dimension size for the window, in logical pixels.
    pub fn with_min_dimensions(self, width: u64, height: u64) -> (r: Self)
        ensures
            r == (WindowContainerBuilder { min_dimensions: Some((width, height)), ..self }),
    {
        WindowContainerBuilder { min_dimensions: Some((width, height)), ..self }
    }

    /// Sets a maximum dimension size for the window, in logical pixels.
    pub fn with_max_dimensions(self, width: u64, height: u64) -> (r: Self)
        ensures
            r == (WindowContainerBuilder { max_dimensions: Some((width, height)), ..self }),
    {
        WindowContainerBuilder { max_dimensions: Some((width, height)), ..self }
    }

    /// Sets whether the window is resizable.
    pub fn with_resizable(self, resizable: bool) -> (r: Self)
        ensures
            r == (WindowContainerBuilder { resizable, ..self }),
    {
        WindowContainerBuilder { resizable, ..self }
    }

    /// Requests a specific title for the window.
    pub fn with_title(self, title: &str) -> (r: Self)
        ensures
            r == (WindowContainerBuilder { title: r.title, ..self }),
            r.title@ == title@,
    {
        WindowContainerBuilder { title: String::from_str(title), ..self }
    }

    /// Sets the window fullscreen state: `None` means a normal window,
    /// `Some` the index of the monitor to go fullscreen on.
    pub fn with_fullscreen(self, monitor: Option<u32>) -> (r: Self)
        ensures
            r == (WindowContainerBuilder { fullscreen: monitor, ..self }),
    {
        WindowContainerBuilder { fullscreen: monitor, ..self }
    }

    /// Requests maximized mode.
    pub fn with_maximized(self, maximized: bool) -> (r: Self)
        ensures
            r == (WindowContainerBuilder { maximized, ..self }),
    {
        WindowContainerBuilder { maximized, ..self }
    }

    /// Sets whether the window will be initially hidden or visible.
    pub fn with_visibility(self, visible: bool) -> (r: Self)
        ensures
            r == (WindowContainerBuilder { visible, ..self }),
    {
        WindowContainerBuilder { visible, ..self }
    }

    /// Sets whether the background of the window should be transparent.
    pub fn with_transparency(self, transparent: bool) -> (r: Self)
        ensures
            r == (WindowContainerBuilder { transparent, ..self }),
    {
        WindowContainerBuilder { transparent, ..self }
    }

    /// Sets whether the window should have a border, a title bar and so
    /// on.
    pub fn with_decorations(self, decorations: bool) -> (r: Self)
        ensures
            r == (WindowContainerBuilder { decorations, ..self }),
    {
        WindowContainerBuilder { decorations, ..self }
    }

    /// Sets whether or not the window will always be on top of other
    /// windows.
    pub fn with_always_on_top(self, always_on_top: bool) -> (r: Self)
        ensures
            r == (WindowContainerBuilder { always_on_top, ..self }),
    {
        WindowContainerBuilder { always_on_top, ..self }
    }

    /// Enables multitouch.
    pub fn with_multitouch(self) -> (r: Self)
        ensures
            r == (WindowContainerBuilder { multitouch: true, ..self }),
    {
        WindowContainerBuilder { multitouch: true, ..self }
    }

    /// Build the window container widget and add it to the UI context.
    /// The widget always spans the full canvas, centered. Fails exactly
    /// when the resolved color hex string is malformed, in which case
    /// the context is left untouched.
    pub fn build(&self, ui: &mut Ui) -> (r: Result<WindowContainer, Error>)
        ensures
            spec_find(old(ui).widgets@, self.id@) is Some ==> r == Err::<WindowContainer, Error>(
                Error::DuplicateId,
            ) && *final(ui) == *old(ui),
            spec_find(old(ui).widgets@, self.id@) is None ==> ({
                let hex = chosen_hex(self.color@, old(ui).theme.window_container@);
                &&& !valid_hex(hex) ==> r == Err::<WindowContainer, Error>(Error::ColorFormat)
                    && *final(ui) == *old(ui)
                &&& valid_hex(hex) ==> (r matches Ok(w) && w.id@ == self.id@ && w.color
                    == color_of_hex(hex) && w.position == Position::Center && (w.size
                    matches Size::Size(sw, sh) && sw@ == rat_of_int(100) && sh@ == rat_of_int(100))
                    && w.window.title@ == self.title@ && w.window.dimensions == self.dimensions
                    && w.window.min_dimensions == self.min_dimensions && w.window.max_dimensions
                    == self.max_dimensions && w.window.resizable == self.resizable
                    && w.window.fullscreen == self.fullscreen && w.window.maximized
                    == self.maximized && w.window.visible == self.visible && w.window.transparent
                    == self.transparent && w.window.decorations == self.decorations
                    && w.window.always_on_top == self.always_on_top && w.window.multitouch
                    == self.multitouch && spec_added(
                    *old(ui),
                    *final(ui),
                    Widget::WindowContainer(w),
                ))
            }),
    {
        if ui.find_widget(&self.id).is_some() {
            return Err(Error::DuplicateId);
        }
        let color = if self.color.as_str().is_empty() {
            match ui.theme.window_container_color() {
                Ok(c) => c,
                Err(err) => {
                    return Err(err);
                },
            }
        } else {
            match Color::from_hex(self.color.as_str()) {
                Ok(c) => c,
                Err(err) => {
                    return Err(err);
                },
            }
        };
        let window = WindowConfig {
            title: self.title.clone(),
            dimensions: self.dimensions,
            min_dimensions: self.min_dimensions,
            max_dimensions: self.max_dimensions,
            resizable: self.resizable,
            fullscreen: self.fullscreen,
            maximized: self.maximized,
            visible: self.visible,
            transparent: self.transparent,
            decorations: self.decorations,
            always_on_top: self.always_on_top,
            multitouch: self.multitouch,
        };
        let w = WindowContainer {
            id: self.id.clone(),
            size: Size::Size(Frac::from_int(100), Frac::from_int(100)),
            position: Position::Center,
            color,
            window,
        };
        ui.add_widget(Widget::WindowContainer(w.clone()));
        Ok(w)
    }
}

} // verus!
