//! The widget builders: one per widget kind, each collecting optional
//! attributes and then validating and inserting the finished widget into
//! a UI context.

mod container;
mod dock;
mod label;
mod toolbar;
mod window_container;

pub use container::ContainerBuilder;
pub use container::chosen_hex;
pub use dock::DockBuilder;
pub use label::LabelBuilder;
pub use toolbar::ToolbarBuilder;
pub use window_container::WindowContainerBuilder;
