//! The builder for the toolbar widget.

use vstd::prelude::*;

use crate::color::Color;
use crate::color::color_of_hex;
use crate::color::valid_hex;
use crate::enums::DockSize;
use crate::enums::Orientation;
use crate::enums::Position;
use crate::enums::Size;
use crate::enums::spec_dock_size_percent;
use crate::error::Error;
use crate::frac::Frac;
use crate::frac::rat_of_int;
use crate::ui::Ui;
use crate::ui::spec_added;
use crate::ui::spec_find;
use crate::widget::Id;
use crate::widget::Toolbar;
use crate::widget::Widget;
use crate::widgets::chosen_hex;

verus! {

/// The builder for the toolbar widget.
#[derive(Clone, Debug)]
pub struct ToolbarBuilder {
    /// The id the toolbar will carry.
    pub id: Id,
    /// The thickness of the toolbar.
    pub thickness: DockSize,
    /// The screen edge the toolbar is attached to.
    pub orientation: Orientation,
    /// The explicit color hex string; empty means the theme's bar color.
    pub color: String,
    /// The id of the parent widget.
    pub parent_id: Id,
    /// Whether the toolbar starts visible.
    pub visible: bool,
}

impl ToolbarBuilder {
    /// Initialize the builder for the toolbar widget.
    pub fn new(id: &str, parent_id: &str) -> (r: Self)
        ensures
            r.id@ == id@,
            r.parent_id@ == parent_id@,
            r.thickness == DockSize::Normal,
            r.orientation == Orientation::Top,
            r.color@.len() == 0,
            r.visible,
    {
        ToolbarBuilder {
            id: String::from_str(id),
            thickness: DockSize::Normal,
            orientation: Orientation::Top,
            color: String::new(),
            parent_id: String::from_str(parent_id),
            visible: true,
        }
    }

    /// Initialize the builder from another toolbar widget.
    pub fn new_from_toolbar(toolbar: &Toolbar) -> (r: Self)
        ensures
            r.id@ == toolbar.id@,
            r.parent_id@ == toolbar.parent_id@,
            r.thickness == toolbar.thickness,
            r.orientation == toolbar.orientation,
            r.color@ == crate::color::color_hex(toolbar.color),
            r.visible == toolbar.visible,
    {
        ToolbarBuilder {
            id: toolbar.id.clone(),
            thickness: toolbar.thickness,
            orientation: toolbar.orientation,
            color: toolbar.color.into_hex(),
            parent_id: toolbar.parent_id.clone(),
            visible: toolbar.visible,
        }
    }

    /// Set the orientation.
    pub fn with_orientation(self, orientation: Orientation) -> (r: Self)
        ensures
            r == (ToolbarBuilder { orientation, ..self }),
    {
        ToolbarBuilder { orientation, ..self }
    }

    /// Set the color.
    pub fn with_color(self, color: &str) -> (r: Self)
        ensures
            r == (ToolbarBuilder { color: r.color, ..self }),
            r.color@ == color@,
    {
        ToolbarBuilder { color: String::from_str(color), ..self }
    }

    /// Set the thickness.
    pub fn with_thickness(self, thickness: DockSize) -> (r: Self)
        ensures
            r == (ToolbarBuilder { thickness, ..self }),
    {
        ToolbarBuilder { thickness, ..self }
    }

    /// Build the toolbar widget and add it to the UI context. A toolbar
    /// always spans the full length of its edge; the orientation picks
    /// the position bucket and maps the thickness onto the cross axis.
    /// Fails exactly when the resolved color hex string is malformed, in
    /// which case the context is left untouched.
    pub fn build(&self, ui: &mut Ui) -> (r: Result<Toolbar, Error>)
        ensures
            spec_find(old(ui).widgets@, self.id@) is Some ==> r == Err::<Toolbar, Error>(
                Error::DuplicateId,
            ) && *final(ui) == *old(ui),
            spec_find(old(ui).widgets@, self.id@) is None ==> ({
                let hex = chosen_hex(self.color@, old(ui).theme.bar@);
                &&& !valid_hex(hex) ==> r == Err::<Toolbar, Error>(Error::ColorFormat) && *final(ui) == *old(ui)
                &&& valid_hex(hex) ==> (r matches Ok(t) && t.id@ == self.id@ && t.parent_id@
                    == self.parent_id@ && t.thickness == self.thickness && t.length@ == rat_of_int(
                    100,
                ) && t.orientation == self.orientation && t.color == color_of_hex(hex) && t.visible
                    == self.visible && t.position == match self.orientation {
                    Orientation::Top => Position::Top,
                    Orientation::Bottom => Position::Bottom,
                    Orientation::Left => Position::Left,
                    Orientation::Right => Position::Right,
                } && (t.size matches Size::Size(w, h) && match self.orientation {
                    Orientation::Top | Orientation::Bottom => w@ == rat_of_int(100) && h@
                        == spec_dock_size_percent(self.thickness),
                    Orientation::Left | Orientation::Right => w@ == spec_dock_size_percent(
                        self.thickness,
                    ) && h@ == rat_of_int(100),
                }) && spec_added(*old(ui), *final(ui), Widget::Toolbar(t)))
            }),
    {
        if ui.find_widget(&self.id).is_some() {
            return Err(Error::DuplicateId);
        }
        let thickness = self.thickness;
        let length = Frac::from_int(100);
        let (size, position) = match self.orientation {
            Orientation::Top => (Size::Size(length, thickness.into_percent()), Position::Top),
            Orientation::Bottom => (
                Size::Size(length, thickness.into_percent()),
                Position::Bottom,
            ),
            Orientation::Left => (Size::Size(thickness.into_percent(), length), Position::Left),
            Orientation::Right => (Size::Size(thickness.into_percent(), length), Position::Right),
        };
        let color = if self.color.as_str().is_empty() {
            match ui.theme.bar_color() {
                Ok(c) => c,
                Err(err) => {
                    return Err(err);
                },
            }
        } else {
            match Color::from_hex(self.color.as_str()) {
                Ok(c) => c,
                Err(err) => {
                    return Err(err);
                },
            }
        };
        let t = Toolbar {
            id: self.id.clone(),
            parent_id: self.parent_id.clone(),
            size,
            position,
            color,
            visible: self.visible,
            thickness,
            length,
            orientation: self.orientation,
        };
        ui.add_widget(Widget::Toolbar(t.clone()));
        Ok(t)
    }
}

} // verus!
