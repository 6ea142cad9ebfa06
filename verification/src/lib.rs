//! A character-cell user interface: a tree of panels, labels and progress
//! bars that decides, for each cell of a grid, the one character to draw
//! there, and the pixel geometry of a bitmap font to draw it with.
//!
//! Every widget is [`Renderable`]: asked for a cell in its own coordinates,
//! it answers with a character or with nothing. What each widget answers is
//! stated over its model, the `@` view of the widget, and proved of the code.

pub mod error;
pub mod events;
pub mod font;
pub mod geometry;
pub mod grid;
pub mod label;
pub mod panel;
pub mod progress;
pub mod renderable;

pub use error::WidgetError;
pub use font::{Color, Fonts, Placement};
pub use geometry::{Point, Rect};
pub use grid::{render_grid, Glyph};
pub use label::Label;
pub use panel::{Panel, Widget};
pub use progress::Progress;
pub use renderable::Renderable;
