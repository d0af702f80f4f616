//! A typed builder for CSS declaration blocks.
//!
//! Values of each CSS domain are closed sum types, each with a `text` that
//! defines how it is written and a `render` that is proved to compute it.
//! A property pairs a name with a rendered value; a `Style` collects
//! properties in order and renders them as one block.
//!
//! ```text
//! style().color(Color::White).font_size(Size::Px(16)).apply()
//!     == "color: white; font-size: 16px;"
//! ```
pub mod number;
pub mod properties;
pub mod style;
pub mod text;
pub mod values;
pub mod variable;

pub use style::style;
pub use variable::{var, CssVar};
