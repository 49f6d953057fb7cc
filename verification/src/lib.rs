//! A typed adapter in front of a dynamically typed pose-estimation engine.
//!
//! The library turns typed model and estimation settings into dynamic records,
//! plans every call that is made to the engine, keeps track of a detector's
//! lifetime, and turns the engine's untyped answers back into typed poses.
//! The calls themselves are made by the code around the library.

pub mod create;
pub mod model;
pub mod naming;
pub mod pose;
pub mod pose_detector;
pub mod util;
pub mod value;

pub use create::{create_detector, created, CreationError};
