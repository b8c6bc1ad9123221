//! Widget state: buttons, checkboxes, lists, menus, modals, selects, tabs,
//! panels, text fields, tooltips and tree views.
//! Drawing goes through the painter in the application layer; the
//! state and its rules are here.

pub mod button;
pub mod checkbox;
pub mod laws;
pub mod list;
pub mod menu;
pub mod modal;
pub mod select;
pub mod tabs;
pub mod text_area;
pub mod text_input;
pub mod tooltip;
pub mod tree;

pub use button::Button;
pub use checkbox::{Checkbox, Radio};
pub use list::{List, Table};
pub use menu::{Menu, MenuItem};
pub use modal::Modal;
pub use select::Select;
pub use tabs::{Panel, Tabs};
pub use text_area::TextArea;
pub use text_input::TextInput;
pub use tooltip::Tooltip;
pub use tree::{TreeNode, TreeView};
