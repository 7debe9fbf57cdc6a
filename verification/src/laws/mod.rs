//! Laws of the library: what its operations owe their callers, stated on inputs and results.

pub mod copies;
pub mod homes;
pub mod hooks;
pub mod keys;
pub mod merging;
pub mod messages;
pub mod places;
pub mod presets;
pub mod profiles;
pub mod resolution;
pub mod secrets;
pub mod stock;
pub mod stores;
pub mod texts;
pub mod shapes;
pub mod percentages;
