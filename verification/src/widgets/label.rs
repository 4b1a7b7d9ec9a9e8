//! The builder for the label widget.

use vstd::prelude::*;

use crate::color::Color;
use crate::color::color_of_hex;
use crate::color::valid_hex;
use crate::enums::Position;
use crate::enums::Size;
use crate::error::Error;
use crate::frac::Frac;
use crate::frac::rat_le;
use crate::frac::rat_of_int;
use crate::ui::Ui;
use crate::ui::spec_added;
use crate::ui::spec_find;
use crate::widget::Id;
use crate::widget::Label;
use crate::widget::Widget;
use crate::widgets::chosen_hex;

verus! {

/// The builder for the label widget.
#[derive(Clone, Debug)]
pub struct LabelBuilder {
    /// The id the label will carry.
    pub id: Id,
    /// The declared size.
    pub size: Size,
    /// The position bucket.
    pub position: Position,
    /// The explicit background color hex string; empty means the theme's
    /// label background color.
    pub bg_color: String,
    /// The explicit text color hex string; empty means the theme's label
    /// text color.
    pub text_color: String,
    /// The id of the parent widget.
    pub parent_id: Id,
    /// Whether the label starts visible.
    pub visible: bool,
    /// The text shown on the label.
    pub label: String,
    /// The text size, as a percentage of the label's height.
    pub text_size: Frac,
}

impl LabelBuilder {
    /// Initialize the builder for the label widget.
    pub fn new(id: &str, parent_id: &str, position: Position, label: &str) -> (r: Self)
        ensures
            r.id@ == id@,
            r.parent_id@ == parent_id@,
            r.position == position,
            r.label@ == label@,
            r.size == Size::Full,
            r.bg_color@.len() == 0,
            r.text_color@.len() == 0,
            r.visible,
            r.text_size@ == rat_of_int(100),
    {
        LabelBuilder {
            id: String::from_str(id),
            size: Size::Full,
            position,
            bg_color: String::new(),
            text_color: String::new(),
            parent_id: String::from_str(parent_id),
            visible: true,
            label: String::from_str(label),
            text_size: Frac::from_int(100),
        }
    }

    /// Initialize the builder from another label widget.
    pub fn new_from_label(label: &Label) -> (r: Self)
        ensures
            r.id@ == label.id@,
            r.parent_id@ == label.parent_id@,
            r.position == label.position,
            r.size == label.size,
            r.bg_color@ == crate::color::color_hex(label.bg_color),
            r.text_color@ == crate::color::color_hex(label.text_color),
            r.visible == label.visible,
            r.label@ == label.label@,
            r.text_size == label.text_size,
    {
        LabelBuilder {
            id: label.id.clone(),
            size: label.size,
            position: label.position,
            bg_color: label.bg_color.into_hex(),
            text_color: label.text_color.into_hex(),
            parent_id: label.parent_id.clone(),
            visible: label.visible,
            label: label.label.clone(),
            text_size: label.text_size,
        }
    }

    /// Set the background color.
    pub fn with_background_color(self, bg_color: &str) -> (r: Self)
        ensures
            r == (LabelBuilder { bg_color: r.bg_color, ..self }),
            r.bg_color@ == bg_color@,
    {
        LabelBuilder { bg_color: String::from_str(bg_color), ..self }
    }

    /// Set the text color.
    pub fn with_text_color(self, text_color: &str) -> (r: Self)
        ensures
            r == (LabelBuilder { text_color: r.text_color, ..self }),
            r.text_color@ == text_color@,
    {
        LabelBuilder { text_color: String::from_str(text_color), ..self }
    }

    /// Set the size.
    pub fn with_size(self, size: Size) -> (r: Self)
        ensures
            r == (LabelBuilder { size, ..self }),
    {
        LabelBuilder { size, ..self }
    }

    /// Set the text size.
    pub fn with_text_size(self, text_size: Frac) -> (r: Self)
        ensures
            r == (LabelBuilder { text_size, ..self }),
    {
        LabelBuilder { text_size, ..self }
    }

    /// Build the label widget and add it to the UI context. Fails when
    /// the id is already in use, with a color format error when the
    /// resolved background or text hex string is malformed (in that
    /// order), and with a text size error when the text size is not in
    /// (0, 100]; on any failure the context is left untouched.
    pub fn build(&self, ui: &mut Ui) -> (r: Result<Label, Error>)
        ensures
            spec_find(old(ui).widgets@, self.id@) is Some ==> r == Err::<Label, Error>(
                Error::DuplicateId,
            ) && *final(ui) == *old(ui),
            spec_find(old(ui).widgets@, self.id@) is None ==> ({
                let bg = chosen_hex(self.bg_color@, old(ui).theme.label_background@);
                let tc = chosen_hex(self.text_color@, old(ui).theme.label_text@);
                let size_ok = !rat_le(self.text_size@, rat_of_int(0)) && rat_le(
                    self.text_size@,
                    rat_of_int(100),
                );
                &&& !valid_hex(bg) ==> r == Err::<Label, Error>(Error::ColorFormat) && *final(ui)
                    == *old(ui)
                &&& valid_hex(bg) && !valid_hex(tc) ==> r == Err::<Label, Error>(
                    Error::ColorFormat,
                ) && *final(ui) == *old(ui)
                &&& valid_hex(bg) && valid_hex(tc) && !size_ok ==> r == Err::<Label, Error>(
                    Error::TextSizeRange,
                ) && *final(ui) == *old(ui)
                &&& valid_hex(bg) && valid_hex(tc) && size_ok ==> (r matches Ok(l) && l.id@
                    == self.id@ && l.parent_id@ == self.parent_id@ && l.size == self.size
                    && l.position == self.position && l.bg_color == color_of_hex(bg) && l.text_color
                    == color_of_hex(tc) && l.visible == self.visible && l.label@ == self.label@
                    && l.text_size == self.text_size && spec_added(
                    *old(ui),
                    *final(ui),
                    Widget::Label(l),
                ))
            }),
    {
        if ui.find_widget(&self.id).is_some() {
            return Err(Error::DuplicateId);
        }
        let bg_color = if self.bg_color.as_str().is_empty() {
            match ui.theme.label_background_color() {
                Ok(c) => c,
                Err(err) => {
                    return Err(err);
                },
            }
        } else {
            match Color::from_hex(self.bg_color.as_str()) {
                Ok(c) => c,
                Err(err) => {
                    return Err(err);
                },
            }
        };
        let text_color = if self.text_color.as_str().is_empty() {
            match ui.theme.label_text_color() {
                Ok(c) => c,
                Err(err) => {
                    return Err(err);
                },
            }
        } else {
            match Color::from_hex(self.text_color.as_str()) {
                Ok(c) => c,
                Err(err) => {
                    return Err(err);
                },
            }
        };
        if self.text_size.le(Frac::from_int(0)) {
            return Err(Error::TextSizeRange);
        }
        if !self.text_size.le(Frac::from_int(100)) {
            return Err(Error::TextSizeRange);
        }
        let l = Label {
            id: self.id.clone(),
            parent_id: self.parent_id.clone(),
            size: self.size,
            position: self.position,
            bg_color,
            visible: self.visible,
            label: self.label.clone(),
            text_color,
            text_size: self.text_size,
        };
        ui.add_widget(Widget::Label(l.clone()));
        Ok(l)
    }
}

} // verus!
