//! Small rules of the interactive tool: moving the cursor, selecting findings
//! and ordering them.

pub mod navigation;
pub mod selection;
pub mod sorting;

pub use navigation::{navigate_category_next, navigate_category_prev, navigate_down, navigate_up};
pub use selection::{deselect_all, select_all_in_category, toggle_selection};
pub use sorting::apply_sort;
