//! The builder for the container widget.

use vstd::prelude::*;

use crate::color::Color;
use crate::color::color_of_hex;
use crate::color::valid_hex;
use crate::enums::Position;
use crate::enums::Size;
use crate::error::Error;
use crate::ui::Ui;
use crate::ui::spec_added;
use crate::ui::spec_find;
use crate::widget::Container;
use crate::widget::Id;
use crate::widget::Widget;

verus! {

/// The hex string a builder resolves its color from: the explicitly set
/// one, or the theme's entry when none was set.
pub open spec fn chosen_hex(color: Seq<char>, theme_hex: Seq<char>) -> Seq<char> {
    if color.len() == 0 {
        theme_hex
    } else {
        color
    }
}

/// The builder for the container widget.
#[derive(Clone, Debug)]
pub struct ContainerBuilder {
    /// The id the container will carry.
    pub id: Id,
    /// The declared size.
    pub size: Size,
    /// The position bucket.
    pub position: Position,
    /// The explicit color hex string; empty means the theme's container
    /// color.
    pub color: String,
    /// The id of the parent widget.
    pub parent_id: Id,
    /// Whether the container starts visible.
    pub visible: bool,
}

impl ContainerBuilder {
    /// Initialize the builder for the container widget.
    pub fn new(id: &str, parent_id: &str, position: Position) -> (r: Self)
        ensures
            r.id@ == id@,
            r.parent_id@ == parent_id@,
            r.position == position,
            r.size == Size::Full,
            r.color@.len() == 0,
            r.visible,
    {
        ContainerBuilder {
            id: String::from_str(id),
            size: Size::Full,
            position,
            color: String::new(),
            parent_id: String::from_str(parent_id),
            visible: true,
        }
    }

    /// Initialize the builder from another container widget.
    pub fn new_from_container(container: &Container) -> (r: Self)
        ensures
            r.id@ == container.id@,
            r.parent_id@ == container.parent_id@,
            r.position == container.position,
            r.size == container.size,
            r.color@ == crate::color::color_hex(container.color),
            r.visible == container.visible,
    {
        ContainerBuilder {
            id: container.id.clone(),
            size: container.size,
            position: container.position,
            color: container.color.into_hex(),
            parent_id: container.parent_id.clone(),
            visible: container.visible,
        }
    }

    /// Set the color.
    pub fn with_color(self, color: &str) -> (r: Self)
        ensures
            r == (ContainerBuilder { color: r.color, ..self }),
            r.color@ == color@,
    {
        ContainerBuilder { color: String::from_str(color), ..self }
    }

    /// Set the size.
    pub fn with_size(self, size: Size) -> (r: Self)
        ensures
            r == (ContainerBuilder { size, ..self }),
    {
        ContainerBuilder { size, ..self }
    }

    /// Build the container widget and add it to the UI context. Fails when the id is
    /// already in use or when the resolved color hex string is
    /// malformed, in which case the context is left untouched.
    pub fn build(&self, ui: &mut Ui) -> (r: Result<Container, Error>)
        ensures
            spec_find(old(ui).widgets@, self.id@) is Some ==> r == Err::<Container, Error>(
                Error::DuplicateId,
            ) && *final(ui) == *old(ui),
            spec_find(old(ui).widgets@, self.id@) is None ==> ({
                let hex = chosen_hex(self.color@, old(ui).theme.container@);
                &&& !valid_hex(hex) ==> r == Err::<Container, Error>(Error::ColorFormat) && *final(ui) == *old(ui)
                &&& valid_hex(hex) ==> (r matches Ok(c) && c.id@ == self.id@ && c.parent_id@
                    == self.parent_id@ && c.size == self.size && c.position == self.position
                    && c.color == color_of_hex(hex) && c.visible == self.visible && spec_added(
                    *old(ui),
                    *final(ui),
                    Widget::Container(c),
                ))
            }),
    {
        if ui.find_widget(&self.id).is_some() {
            return Err(Error::DuplicateId);
        }
        let color = if self.color.as_str().is_empty() {
            match ui.theme.container_color() {
                Ok(c) => c,
                Err(err) => {
                    return Err(err);
                },
            }
        } else {
            match Color::from_hex(self.color.as_str()) {
                Ok(c) => c,
                Err(err) => {
                    return Err(err);
                },
            }
        };
        let c = Container {
            id: self.id.clone(),
            parent_id: self.parent_id.clone(),
            size: self.size,
            position: self.position,
            color,
            visible: self.visible,
        };
        ui.add_widget(Widget::Container(c.clone()));
        Ok(c)
    }
}

} // verus!
