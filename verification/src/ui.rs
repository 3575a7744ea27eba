//! Colors, style sheets and render configurations.

pub mod color;
pub mod render_config;
pub mod style;

pub use color::Color;
pub use render_config::{ErrorMessageRenderConfig, InputRenderConfig, RenderConfig};
pub use style::{Attribute, Attributes, StyleSheet, Styled};
