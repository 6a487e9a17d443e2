//! A retained-mode declarative UI core: view primitives (stack, grid, label,
//! button) assembled with a fluent builder API, each carrying a style record
//! that controls sizing, alignment, spacing, color, and borders. The crate
//! builds and inspects the view tree; layout, painting and event dispatch are
//! external collaborators that consume the tree.

pub mod elements;
pub mod fragment;
pub mod layout;
pub mod pixels;
pub mod style;
pub mod utils;
pub mod view;

pub use elements::Button;
pub use elements::Element;
pub use elements::Grid;
pub use elements::GridPosition;
pub use elements::Handler;
pub use elements::Label;
pub use elements::VStack;
pub use fragment::Fragment;
pub use layout::Align;
pub use layout::Edges;
pub use layout::Size;
pub use pixels::Px;
pub use style::Stylable;
pub use style::Style;
pub use utils::Colors;
pub use utils::Rgba;
pub use view::ItemView;
pub use view::ItemsView;
pub use view::ViewNode;
