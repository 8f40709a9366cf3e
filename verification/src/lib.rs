//! Compose rectangular terminal-style layouts out of nested horizontal and
//! vertical splits. A layout is a tree of cells; a split divides a rectangle
//! into two adjacent regions according to a constraint and renders a cell into
//! each. The split arithmetic is ratatui's; the output surface and the cells
//! are this crate's own, and rendering into the surface is verified.

mod cells;
mod geometry;
mod laws;
mod split;
mod surface;
mod widget;

pub use cells::BorderedBox;
pub use cells::EmptyWidget;
pub use cells::TextBlock;
pub use geometry::Constraint;
pub use geometry::Rect;
pub use laws::lemma_empty_bottom_region_unchanged;
pub use laws::lemma_empty_left_region_unchanged;
pub use laws::lemma_empty_right_region_unchanged;
pub use laws::lemma_empty_top_region_unchanged;
pub use laws::lemma_nested_split_rendered;
pub use split::Columns;
pub use split::Rows;
pub use split::clamped;
pub use split::first_extent;
pub use split::hsplit_first;
pub use split::hsplit_second;
pub use split::lemma_hsplit_extents_sum;
pub use split::lemma_hsplit_partition;
pub use split::lemma_vsplit_extents_sum;
pub use split::lemma_vsplit_partition;
pub use split::solved_first_extent;
pub use split::vsplit_first;
pub use split::vsplit_second;
pub use surface::Surface;
pub use surface::grid_wf;
pub use widget::Widget;
pub use widget::frame_preserved;
pub use widget::overlay;
