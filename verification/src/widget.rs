//! The widget data model: a closed sum over the widget kinds, each with a
//! shared geometry record (id, parent link, size, position, color,
//! visibility) and its kind-specific payload.

use vstd::prelude::*;

use crate::color::Color;
use crate::enums::DockSize;
use crate::enums::Orientation;
use crate::enums::Position;
use crate::enums::Size;
use crate::enums::WidgetType;
use crate::frac::Frac;

verus! {

/// Identifier type for looking up widgets.
pub type Id = String;

/// The window attributes a window container asks the windowing system
/// for, held as plain values.
#[derive(Debug)]
pub struct WindowConfig {
    /// The window title.
    pub title: String,
    /// Requested dimensions in logical pixels, if any.
    pub dimensions: Option<(u64, u64)>,
    /// Minimum dimensions in logical pixels, if any.
    pub min_dimensions: Option<(u64, u64)>,
    /// Maximum dimensions in logical pixels, if any.
    pub max_dimensions: Option<(u64, u64)>,
    /// Whether the window is resizable.
    pub resizable: bool,
    /// The index of the monitor to go fullscreen on, if any.
    pub fullscreen: Option<u32>,
    /// Whether the window starts maximized.
    pub maximized: bool,
    /// Whether the window starts visible.
    pub visible: bool,
    /// Whether the window background is transparent.
    pub transparent: bool,
    /// Whether the window has decorations.
    pub decorations: bool,
    /// Whether the window is always on top.
    pub always_on_top: bool,
    /// Whether multitouch is enabled.
    pub multitouch: bool,
}

/// The most top level widget: the root of the tree, always spanning the
/// whole canvas.
#[derive(Debug)]
pub struct WindowContainer {
    /// The unique id.
    pub id: Id,
    /// The declared size; the builder always sets the full canvas.
    pub size: Size,
    /// The position bucket; the builder always sets the center.
    pub position: Position,
    /// The background color.
    pub color: Color,
    /// The window attributes.
    pub window: WindowConfig,
}

/// The container widget.
#[derive(Debug)]
pub struct Container {
    /// The unique id.
    pub id: Id,
    /// The id of the parent widget.
    pub parent_id: Id,
    /// The declared size.
    pub size: Size,
    /// The position bucket.
    pub position: Position,
    /// The background color.
    pub color: Color,
    /// Whether the widget is drawn.
    pub visible: bool,
}

/// The dock widget.
#[derive(Debug)]
pub struct Dock {
    /// The unique id.
    pub id: Id,
    /// The id of the parent widget.
    pub parent_id: Id,
    /// The declared size, derived from orientation, thickness and length.
    pub size: Size,
    /// The position bucket, derived from the orientation.
    pub position: Position,
    /// The background color.
    pub color: Color,
    /// Whether the widget is drawn.
    pub visible: bool,
    /// The thickness of the dock.
    pub thickness: DockSize,
    /// The length of the dock, as a percentage of the parent.
    pub length: Frac,
    /// The screen edge the dock is attached to.
    pub orientation: Orientation,
}

/// The toolbar widget.
#[derive(Debug)]
pub struct Toolbar {
    /// The unique id.
    pub id: Id,
    /// The id of the parent widget.
    pub parent_id: Id,
    /// The declared size, derived from orientation and thickness.
    pub size: Size,
    /// The position bucket, derived from the orientation.
    pub position: Position,
    /// The background color.
    pub color: Color,
    /// Whether the widget is drawn.
    pub visible: bool,
    /// The thickness of the toolbar.
    pub thickness: DockSize,
    /// The length of the toolbar: always the full parent span.
    pub length: Frac,
    /// The screen edge the toolbar is attached to.
    pub orientation: Orientation,
}

/// The label widget.
#[derive(Debug)]
pub struct Label {
    /// The unique id.
    pub id: Id,
    /// The id of the parent widget.
    pub parent_id: Id,
    /// The declared size.
    pub size: Size,
    /// The position bucket.
    pub position: Position,
    /// The background color.
    pub bg_color: Color,
    /// Whether the widget is drawn.
    pub visible: bool,
    /// The text shown on the label.
    pub label: String,
    /// The text color.
    pub text_color: Color,
    /// The text size, as a percentage of the label's height.
    pub text_size: Frac,
}

/// The button widget.
#[derive(Debug)]
pub struct Button {
    /// The unique id.
    pub id: Id,
    /// The id of the parent widget.
    pub parent_id: Id,
    /// The declared size.
    pub size: Size,
    /// The position bucket.
    pub position: Position,
    /// The background color.
    pub color: Color,
    /// The text color.
    pub text_color: Color,
    /// The text size, as a percentage of the button's height.
    pub text_size: Frac,
    /// The color when the button is selected.
    pub selected_color: Color,
    /// Whether the widget is drawn.
    pub visible: bool,
    /// The text shown on the button.
    pub label: String,
}

/// Any widget of the toolkit.
#[derive(Debug)]
pub enum Widget {
    /// The window container widget at the root of the tree.
    WindowContainer(WindowContainer),
    /// The toolbar widget.
    Toolbar(Toolbar),
    /// The dock widget.
    Dock(Dock),
    /// The container widget.
    Container(Container),
    /// The label widget.
    Label(Label),
    /// The button widget.
    Button(Button),
}

impl Widget {
    /// The id of the widget.
    pub open spec fn spec_id(self) -> Seq<char> {
        match self {
            Widget::WindowContainer(w) => w.id@,
            Widget::Toolbar(w) => w.id@,
            Widget::Dock(w) => w.id@,
            Widget::Container(w) => w.id@,
            Widget::Label(w) => w.id@,
            Widget::Button(w) => w.id@,
        }
    }

    /// The id of the parent, `None` only for the window container.
    pub open spec fn spec_parent_id(self) -> Option<Seq<char>> {
        match self {
            Widget::WindowContainer(_) => None,
            Widget::Toolbar(w) => Some(w.parent_id@),
            Widget::Dock(w) => Some(w.parent_id@),
            Widget::Container(w) => Some(w.parent_id@),
            Widget::Label(w) => Some(w.parent_id@),
            Widget::Button(w) => Some(w.parent_id@),
        }
    }

    /// The declared size of the widget.
    pub open spec fn spec_size(self) -> Size {
        match self {
            Widget::WindowContainer(w) => w.size,
            Widget::Toolbar(w) => w.size,
            Widget::Dock(w) => w.size,
            Widget::Container(w) => w.size,
            Widget::Label(w) => w.size,
            Widget::Button(w) => w.size,
        }
    }

    /// The position bucket of the widget.
    pub open spec fn spec_position(self) -> Position {
        match self {
            Widget::WindowContainer(w) => w.position,
            Widget::Toolbar(w) => w.position,
            Widget::Dock(w) => w.position,
            Widget::Container(w) => w.position,
            Widget::Label(w) => w.position,
            Widget::Button(w) => w.position,
        }
    }

    /// The background color of the widget.
    pub open spec fn spec_color(self) -> Color {
        match self {
            Widget::WindowContainer(w) => w.color,
            Widget::Toolbar(w) => w.color,
            Widget::Dock(w) => w.color,
            Widget::Container(w) => w.color,
            Widget::Label(w) => w.bg_color,
            Widget::Button(w) => w.color,
        }
    }

    /// Whether the widget is drawn; the window container is always
    /// visible.
    pub open spec fn spec_visible(self) -> bool {
        match self {
            Widget::WindowContainer(_) => true,
            Widget::Toolbar(w) => w.visible,
            Widget::Dock(w) => w.visible,
            Widget::Container(w) => w.visible,
            Widget::Label(w) => w.visible,
            Widget::Button(w) => w.visible,
        }
    }

    /// The same widget with its declared size replaced.
    pub open spec fn spec_with_size(self, size: Size) -> Widget {
        match self {
            Widget::WindowContainer(w) => Widget::WindowContainer(w),
            Widget::Toolbar(w) => Widget::Toolbar(Toolbar { size, ..w }),
            Widget::Dock(w) => Widget::Dock(Dock { size, ..w }),
            Widget::Container(w) => Widget::Container(Container { size, ..w }),
            Widget::Label(w) => Widget::Label(Label { size, ..w }),
            Widget::Button(w) => Widget::Button(Button { size, ..w }),
        }
    }

    /// The kind of this widget.
    pub fn widget_type(&self) -> (r: WidgetType)
        ensures
            r == match self {
                Widget::WindowContainer(_) => WidgetType::WindowContainer,
                Widget::Toolbar(_) => WidgetType::Toolbar,
                Widget::Dock(_) => WidgetType::Dock,
                Widget::Container(_) => WidgetType::Container,
                Widget::Label(_) => WidgetType::Label,
                Widget::Button(_) => WidgetType::Button,
            },
    {
        match self {
            Widget::WindowContainer(_) => WidgetType::WindowContainer,
            Widget::Toolbar(_) => WidgetType::Toolbar,
            Widget::Dock(_) => WidgetType::Dock,
            Widget::Container(_) => WidgetType::Container,
            Widget::Label(_) => WidgetType::Label,
            Widget::Button(_) => WidgetType::Button,
        }
    }

    /// A borrow of this widget's id.
    pub fn id_ref(&self) -> (r: &Id)
        ensures
            r@ == self.spec_id(),
    {
        match self {
            Widget::WindowContainer(w) => &w.id,
            Widget::Toolbar(w) => &w.id,
            Widget::Dock(w) => &w.id,
            Widget::Container(w) => &w.id,
            Widget::Label(w) => &w.id,
            Widget::Button(w) => &w.id,
        }
    }

    /// The id of this widget.
    pub fn id(&self) -> (r: Id)
        ensures
            r@ == self.spec_id(),
    {
        match self {
            Widget::WindowContainer(w) => w.id.clone(),
            Widget::Toolbar(w) => w.id.clone(),
            Widget::Dock(w) => w.id.clone(),
            Widget::Container(w) => w.id.clone(),
            Widget::Label(w) => w.id.clone(),
            Widget::Button(w) => w.id.clone(),
        }
    }

    /// The id of the parent of this widget; `None` for the window
    /// container at the root.
    pub fn parent_id(&self) -> (r: Option<Id>)
        ensures
            r is Some <==> self.spec_parent_id() is Some,
            r matches Some(p) ==> self.spec_parent_id() == Some(p@),
    {
        match self {
            Widget::WindowContainer(_) => None,
            Widget::Toolbar(w) => Some(w.parent_id.clone()),
            Widget::Dock(w) => Some(w.parent_id.clone()),
            Widget::Container(w) => Some(w.parent_id.clone()),
            Widget::Label(w) => Some(w.parent_id.clone()),
            Widget::Button(w) => Some(w.parent_id.clone()),
        }
    }

    /// The declared size of this widget.
    pub fn size(&self) -> (r: Size)
        ensures
            r == self.spec_size(),
    {
        match self {
            Widget::WindowContainer(w) => w.size,
            Widget::Toolbar(w) => w.size,
            Widget::Dock(w) => w.size,
            Widget::Container(w) => w.size,
            Widget::Label(w) => w.size,
            Widget::Button(w) => w.size,
        }
    }

    /// Replace the declared size of this widget. The window container's
    /// size is fixed, so it is excluded.
    pub fn set_size(&mut self, size: Size)
        requires
            !(old(self) matches Widget::WindowContainer(_)),
        ensures
            *final(self) == old(self).spec_with_size(size),
    {
        match self {
            Widget::WindowContainer(_) => {},
            Widget::Toolbar(w) => w.size = size,
            Widget::Dock(w) => w.size = size,
            Widget::Container(w) => w.size = size,
            Widget::Label(w) => w.size = size,
            Widget::Button(w) => w.size = size,
        }
    }

    /// The position bucket of this widget.
    pub fn position(&self) -> (r: Position)
        ensures
            r == self.spec_position(),
    {
        match self {
            Widget::WindowContainer(w) => w.position,
            Widget::Toolbar(w) => w.position,
            Widget::Dock(w) => w.position,
            Widget::Container(w) => w.position,
            Widget::Label(w) => w.position,
            Widget::Button(w) => w.position,
        }
    }

    /// The background color of this widget.
    pub fn color(&self) -> (r: Color)
        ensures
            r == self.spec_color(),
    {
        match self {
            Widget::WindowContainer(w) => w.color,
            Widget::Toolbar(w) => w.color,
            Widget::Dock(w) => w.color,
            Widget::Container(w) => w.color,
            Widget::Label(w) => w.bg_color,
            Widget::Button(w) => w.color,
        }
    }

    /// Whether this widget is drawn.
    pub fn visible(&self) -> (r: bool)
        ensures
            r == self.spec_visible(),
    {
        match self {
            Widget::WindowContainer(_) => true,
            Widget::Toolbar(w) => w.visible,
            Widget::Dock(w) => w.visible,
            Widget::Container(w) => w.visible,
            Widget::Label(w) => w.visible,
            Widget::Button(w) => w.visible,
        }
    }

    /// Make this widget visible. The window container is always visible,
    /// so it is excluded.
    pub fn show(&mut self)
        requires
            !(old(self) matches Widget::WindowContainer(_)),
        ensures
            final(self).spec_visible(),
            final(self).spec_id() == old(self).spec_id(),
            final(self).spec_parent_id() == old(self).spec_parent_id(),
            final(self).spec_size() == old(self).spec_size(),
            final(self).spec_position() == old(self).spec_position(),
            final(self).spec_color() == old(self).spec_color(),
    {
        match self {
            Widget::WindowContainer(_) => {},
            Widget::Toolbar(w) => w.visible = true,
            Widget::Dock(w) => w.visible = true,
            Widget::Container(w) => w.visible = true,
            Widget::Label(w) => w.visible = true,
            Widget::Button(w) => w.visible = true,
        }
    }

    /// Hide this widget. The window container is always visible, so it is
    /// excluded.
    pub fn conceal(&mut self)
        requires
            !(old(self) matches Widget::WindowContainer(_)),
        ensures
            !final(self).spec_visible(),
            final(self).spec_id() == old(self).spec_id(),
            final(self).spec_parent_id() == old(self).spec_parent_id(),
            final(self).spec_size() == old(self).spec_size(),
            final(self).spec_position() == old(self).spec_position(),
            final(self).spec_color() == old(self).spec_color(),
    {
        match self {
            Widget::WindowContainer(_) => {},
            Widget::Toolbar(w) => w.visible = false,
            Widget::Dock(w) => w.visible = false,
            Widget::Container(w) => w.visible = false,
            Widget::Label(w) => w.visible = false,
            Widget::Button(w) => w.visible = false,
        }
    }
}

impl WindowContainer {
    /// Retrieve the window attributes the application window was asked to
    /// carry.
    pub fn window(&self) -> (r: WindowConfig)
        ensures
            r == self.window,
    {
        self.window.clone()
    }
}

impl Clone for WindowConfig {
    /// An exact copy.
    fn clone(&self) -> (r: Self)
        ensures
            r == *self,
    {
        WindowConfig {
            title: self.title.clone(),
            dimensions: self.dimensions,
            min_dimensions: self.min_dimensions,
            max_dimensions: self.max_dimensions,
            resizable: self.resizable,
            fullscreen: self.fullscreen,
            maximized: self.maximized,
            visible: self.visible,
            transparent: self.transparent,
            decorations: self.decorations,
            always_on_top: self.always_on_top,
            multitouch: self.multitouch,
        }
    }
}

impl Clone for WindowContainer {
    /// An exact copy.
    fn clone(&self) -> (r: Self)
        ensures
            r == *self,
    {
        WindowContainer {
            id: self.id.clone(),
            size: self.size,
            position: self.position,
            color: self.color,
            window: self.window.clone(),
        }
    }
}

impl Clone for Container {
    /// An exact copy.
    fn clone(&self) -> (r: Self)
        ensures
            r == *self,
    {
        Container {
            id: self.id.clone(),
            parent_id: self.parent_id.clone(),
            size: self.size,
            position: self.position,
            color: self.color,
            visible: self.visible,
        }
    }
}

impl Clone for Dock {
    /// An exact copy.
    fn clone(&self) -> (r: Self)
        ensures
            r == *self,
    {
        Dock {
            id: self.id.clone(),
            parent_id: self.parent_id.clone(),
            size: self.size,
            position: self.position,
            color: self.color,
            visible: self.visible,
            thickness: self.thickness,
            length: self.length,
            orientation: self.orientation,
        }
    }
}

impl Clone for Toolbar {
    /// An exact copy.
    fn clone(&self) -> (r: Self)
        ensures
            r == *self,
    {
        Toolbar {
            id: self.id.clone(),
            parent_id: self.parent_id.clone(),
            size: self.size,
            position: self.position,
            color: self.color,
            visible: self.visible,
            thickness: self.thickness,
            length: self.length,
            orientation: self.orientation,
        }
    }
}

impl Clone for Label {
    /// An exact copy.
    fn clone(&self) -> (r: Self)
        ensures
            r == *self,
    {
        Label {
            id: self.id.clone(),
            parent_id: self.parent_id.clone(),
            size: self.size,
            position: self.position,
            bg_color: self.bg_color,
            visible: self.visible,
            label: self.label.clone(),
            text_color: self.text_color,
            text_size: self.text_size,
        }
    }
}

impl Clone for Button {
    /// An exact copy.
    fn clone(&self) -> (r: Self)
        ensures
            r == *self,
    {
        Button {
            id: self.id.clone(),
            parent_id: self.parent_id.clone(),
            size: self.size,
            position: self.position,
            color: self.color,
            text_color: self.text_color,
            text_size: self.text_size,
            selected_color: self.selected_color,
            visible: self.visible,
            label: self.label.clone(),
        }
    }
}

impl Clone for Widget {
    /// An exact copy.
    fn clone(&self) -> (r: Self)
        ensures
            r == *self,
    {
        match self {
            Widget::WindowContainer(w) => Widget::WindowContainer(w.clone()),
            Widget::Toolbar(w) => Widget::Toolbar(w.clone()),
            Widget::Dock(w) => Widget::Dock(w.clone()),
            Widget::Container(w) => Widget::Container(w.clone()),
            Widget::Label(w) => Widget::Label(w.clone()),
            Widget::Button(w) => Widget::Button(w.clone()),
        }
    }
}

} // verus!
