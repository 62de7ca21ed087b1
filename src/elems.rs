//! Interactive block elements built with typed builders.
pub mod checkboxes;

pub use self::checkboxes::Checkboxes;
pub mod select;
