//! The items that most users of the library need.

pub use crate::engine::ConfigEngine;
pub use crate::error::ConfigError;
pub use crate::source::ConfigSource;
pub use crate::value::ConfigValue;
