//! Drill trainer core: vocabulary sets, the answer matcher, the training
//! session engine and the two screen-level state machines that drive it.

pub mod text;
pub mod matcher;
pub mod dict;
pub mod dictionary;
pub mod engine;
pub mod app;
pub mod ui;
