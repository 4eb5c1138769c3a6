//! The layers of a resolution: construction, scope and mapping.

pub mod mapping;
pub mod scope;
pub mod service;
