//! The builder for the dock widget.

use vstd::prelude::*;

use crate::color::Color;
use crate::color::color_of_hex;
use crate::color::valid_hex;
use crate::enums::DockSize;
use crate::enums::Orientation;
use crate::enums::Position;
use crate::enums::Size;
use crate::enums::spec_dock_size_percent;
use crate::error::Error;
use crate::frac::Frac;
use crate::frac::rat_of_int;
use crate::ui::Ui;
use crate::ui::spec_added;
use crate::ui::spec_find;
use crate::widget::Dock;
use crate::widget::Id;
use crate::widget::Widget;
use crate::widgets::chosen_hex;

verus! {

/// The builder for the dock widget.
#[derive(Clone, Debug)]
pub struct DockBuilder {
    /// The id the dock will carry.
    pub id: Id,
    /// The thickness of the dock.
    pub thickness: DockSize,
    /// The length of the dock along its edge, as a percentage.
    pub length: Frac,
    /// The screen edge the dock is attached to.
    pub orientation: Orientation,
    /// The explicit color hex string; empty means the theme's dock color.
    pub color: String,
    /// The id of the parent widget.
    pub parent_id: Id,
    /// Whether the dock starts visible.
    pub visible: bool,
}

impl DockBuilder {
    /// Initialize the builder for the dock widget. The length defaults to
    /// half the parent's span.
    pub fn new(id: &str, parent_id: &str) -> (r: Self)
        ensures
            r.id@ == id@,
            r.parent_id@ == parent_id@,
            r.thickness == DockSize::Normal,
            r.length@ == rat_of_int(50),
            r.orientation == Orientation::Top,
            r.color@.len() == 0,
            r.visible,
    {
        DockBuilder {
            id: String::from_str(id),
            thickness: DockSize::Normal,
            length: Frac::from_int(50),
            orientation: Orientation::Top,
            color: String::new(),
            parent_id: String::from_str(parent_id),
            visible: true,
        }
    }

    /// Initialize the builder from another dock widget.
    pub fn new_from_dock(dock: &Dock) -> (r: Self)
        ensures
            r.id@ == dock.id@,
            r.parent_id@ == dock.parent_id@,
            r.thickness == dock.thickness,
            r.length == dock.length,
            r.orientation == dock.orientation,
            r.color@ == crate::color::color_hex(dock.color),
            r.visible == dock.visible,
    {
        DockBuilder {
            id: dock.id.clone(),
            thickness: dock.thickness,
            length: dock.length,
            orientation: dock.orientation,
            color: dock.color.into_hex(),
            parent_id: dock.parent_id.clone(),
            visible: dock.visible,
        }
    }

    /// Set the orientation.
    pub fn with_orientation(self, orientation: Orientation) -> (r: Self)
        ensures
            r == (DockBuilder { orientation, ..self }),
    {
        DockBuilder { orientation, ..self }
    }

    /// Set the color.
    pub fn with_color(self, color: &str) -> (r: Self)
        ensures
            r == (DockBuilder { color: r.color, ..self }),
            r.color@ == color@,
    {
        DockBuilder { color: String::from_str(color), ..self }
    }

    /// Set the length.
    pub fn with_length(self, length: Frac) -> (r: Self)
        ensures
            r == (DockBuilder { length, ..self }),
    {
        DockBuilder { length, ..self }
    }

    /// Set the thickness.
    pub fn with_thickness(self, thickness: DockSize) -> (r: Self)
        ensures
            r == (DockBuilder { thickness, ..self }),
    {
        DockBuilder { thickness, ..self }
    }

    /// Build the dock widget and add it to the UI context. The
    /// orientation picks the position bucket, and maps thickness and
    /// length onto the size axes: the thickness is the height at the top
    /// and bottom edges and the width at the left and right edges. Fails when the id is
    /// already in use or when the resolved color hex string is
    /// malformed, in which case the context is left untouched.
    pub fn build(&self, ui: &mut Ui) -> (r: Result<Dock, Error>)
        ensures
            spec_find(old(ui).widgets@, self.id@) is Some ==> r == Err::<Dock, Error>(
                Error::DuplicateId,
            ) && *final(ui) == *old(ui),
            spec_find(old(ui).widgets@, self.id@) is None ==> ({
                let hex = chosen_hex(self.color@, old(ui).theme.dock@);
                &&& !valid_hex(hex) ==> r == Err::<Dock, Error>(Error::ColorFormat) && *final(ui)
                    == *old(ui)
                &&& valid_hex(hex) ==> (r matches Ok(d) && d.id@ == self.id@ && d.parent_id@
                    == self.parent_id@ && d.thickness == self.thickness && d.length == self.length
                    && d.orientation == self.orientation && d.color == color_of_hex(hex)
                    && d.visible == self.visible && d.position == match self.orientation {
                    Orientation::Top => Position::Top,
                    Orientation::Bottom => Position::Bottom,
                    Orientation::Left => Position::Left,
                    Orientation::Right => Position::Right,
                } && (d.size matches Size::Size(w, h) && match self.orientation {
                    Orientation::Top | Orientation::Bottom => w == self.length && h@
                        == spec_dock_size_percent(self.thickness),
                    Orientation::Left | Orientation::Right => w@ == spec_dock_size_percent(
                        self.thickness,
                    ) && h == self.length,
                }) && spec_added(*old(ui), *final(ui), Widget::Dock(d)))
            }),
    {
        if ui.find_widget(&self.id).is_some() {
            return Err(Error::DuplicateId);
        }
        let thickness = self.thickness;
        let length = self.length;
        let (size, position) = match self.orientation {
            Orientation::Top => (Size::Size(length, thickness.into_percent()), Position::Top),
            Orientation::Bottom => (
                Size::Size(length, thickness.into_percent()),
                Position::Bottom,
            ),
            Orientation::Left => (Size::Size(thickness.into_percent(), length), Position::Left),
            Orientation::Right => (Size::Size(thickness.into_percent(), length), Position::Right),
        };
        let color = if self.color.as_str().is_empty() {
            match ui.theme.dock_color() {
                Ok(c) => c,
                Err(err) => {
                    return Err(err);
                },
            }
        } else {
            match Color::from_hex(self.color.as_str()) {
                Ok(c) => c,
                Err(err) => {
                    return Err(err);
                },
            }
        };
        let d = Dock {
            id: self.id.clone(),
            parent_id: self.parent_id.clone(),
            size,
            position,
            color,
            visible: self.visible,
            thickness,
            length,
            orientation: self.orientation,
        };
        ui.add_widget(Widget::Dock(d.clone()));
        Ok(d)
    }
}

} // verus!
