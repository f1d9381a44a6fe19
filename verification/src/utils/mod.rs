//! The privilege gate and the reading of what the configuration store
//! answers.

pub mod privileges;
pub mod registry;
