//! Layered application configuration: value trees from several sources,
//! merged by priority and handed to a typed configuration engine.

pub mod engine;
pub mod error;
pub mod json;
pub mod model;
pub mod prelude;
pub mod schema;
pub mod source;
pub mod value;

pub use engine::ConfigEngine;
pub use error::ConfigError;
