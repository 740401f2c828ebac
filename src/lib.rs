//! Keyboard configuration core: the firmware key-code vocabulary, descriptor
//! loading, device matching and the feature-report encoder.

pub mod encoder;
pub mod json;
pub mod keycode;
pub mod loader;
pub mod matcher;
pub mod model;
pub mod modes;
pub mod report;
pub mod transport;
