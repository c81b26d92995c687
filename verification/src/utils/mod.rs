//! Small utilities: paths and model providers.

pub mod path;
pub mod model;
