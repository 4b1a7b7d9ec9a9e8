//! A small GUI widget toolkit core: a tree of widgets (window containers,
//! toolbars, docks, containers, labels) whose screen geometry is computed from
//! percentage-based layout rules.
//!
//! All layout arithmetic is exact: sizes and coordinates are rational numbers,
//! so the geometry a caller gets back is precisely the geometry the layout
//! rules describe.

mod color;
mod draw;
mod enums;
mod error;
mod frac;
mod geometry;
mod normalize;
mod theme;
mod ui;
mod widget;
mod widgets;

pub use color::Color;
pub use color::color_hex;
pub use color::color_of_hex;
pub use color::hex_char_of_nibble;
pub use color::is_hex_digit;
pub use color::lemma_color_hex_round_trip;
pub use color::lemma_hex_color_round_trip;
pub use color::nibble_of_hex_char;
pub use color::uppercase_hex;
pub use color::valid_hex;
pub use enums::Anchor;
pub use enums::Col;
pub use enums::DockSize;
pub use enums::Orientation;
pub use enums::Position;
pub use enums::Row;
pub use enums::Run;
pub use enums::Size;
pub use enums::WidgetType;
pub use enums::col_of;
pub use enums::row_of;
pub use enums::spec_col_of;
pub use enums::spec_dock_size_percent;
pub use enums::spec_row_of;
pub use enums::spec_x_anchor;
pub use enums::spec_y_anchor;
pub use enums::x_anchor;
pub use enums::y_anchor;
pub use error::AxisGroup;
pub use error::Error;
pub use frac::Frac;
pub use geometry::DrawVertex;
pub use geometry::Vertex;
pub use geometry::calc_bl;
pub use geometry::calc_fits;
pub use geometry::calc_tr;
pub use geometry::calc_vertices;
pub use geometry::interval_fits;
pub use geometry::interval_hi;
pub use geometry::interval_lo;
pub use geometry::interval_scaled;
pub use geometry::RatBox;
pub use geometry::box_fits;
pub use geometry::box_reduce;
pub use geometry::box_resolve;
pub use geometry::device_fits;
pub use geometry::rat_pct;
pub use geometry::lemma_resolve_contained;
pub use geometry::lemma_resolve_identity;
pub use geometry::root_box;
pub use frac::FRAC_BOUND;
pub use frac::Rat;
pub use frac::rat_add;
pub use frac::rat_div;
pub use frac::rat_eq;
pub use frac::lemma_gcd_divides;
pub use frac::lemma_rat_reduce_eq;
pub use frac::rat_half;
pub use frac::rat_reduce;
pub use frac::spec_gcd;
pub use frac::rat_in_bounds;
pub use frac::rat_le;
pub use frac::rat_mul;
pub use frac::rat_of_int;
pub use frac::rat_sub;
pub use frac::rat_wf;
pub use theme::Theme;
pub use widget::Button;
pub use widget::Container;
pub use widget::Dock;
pub use widget::Id;
pub use widget::Label;
pub use widget::Toolbar;
pub use widget::Widget;
pub use widget::WindowConfig;
pub use widget::WindowContainer;
pub use ui::Ui;
pub use ui::lemma_spec_find_first;
pub use ui::lemma_spec_find_none;
pub use ui::lemma_spec_find_same_ids;
pub use ui::lemma_spec_find_some;
pub use ui::spec_find;
pub use ui::spec_find_entry;
pub use normalize::child_widget;
pub use normalize::entry_error;
pub use normalize::entry_first_over;
pub use normalize::entry_has_child;
pub use normalize::entry_shares_fit;
pub use normalize::entry_sums_fit;
pub use normalize::height_full_count;
pub use normalize::height_pct_sum;
pub use normalize::height_share;
pub use normalize::height_share_fits;
pub use normalize::height_sum_fits;
pub use normalize::is_normalize_target;
pub use normalize::normalize_first_error;
pub use normalize::normalized_as;
pub use normalize::width_full_count;
pub use normalize::width_pct_sum;
pub use normalize::width_share;
pub use normalize::width_share_fits;
pub use normalize::width_sum_fits;
pub use draw::ChainResult;
pub use draw::DrawOutcome;
pub use draw::WalkResult;
pub use draw::build_vertices;
pub use draw::draw_all;
pub use draw::draw_first_error;
pub use draw::quad_count;
pub use draw::quad_matches;
pub use draw::spec_draw_all_post;
pub use draw::widget_draw_error;
pub use draw::widget_draws_quad;
pub use draw::widget_quad_box;
pub use draw::idxs_of;
pub use draw::opt_id_view;
pub use draw::spec_chain;
pub use draw::spec_chain_rec;
pub use draw::spec_draw_box;
pub use draw::walk_from;
pub use draw::walk_step;
pub use normalize::normalize_sizes;
pub use normalize::pair_processed;
pub use normalize::spec_normalized;
pub use normalize::lemma_equal_shares;
pub use ui::slot_before;
pub use ui::spec_added;
pub use widgets::ContainerBuilder;
pub use widgets::DockBuilder;
pub use widgets::LabelBuilder;
pub use widgets::ToolbarBuilder;
pub use widgets::WindowContainerBuilder;
pub use widgets::chosen_hex;
