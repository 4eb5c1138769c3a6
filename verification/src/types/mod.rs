//! Type keys, erased values and the error type.

pub mod arc_service;
pub mod boxed_service;
pub mod boxed_service_sync;
pub mod error;
pub mod type_info;
pub mod type_map;
