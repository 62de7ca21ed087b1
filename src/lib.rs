//! Block Kit document model: composition objects, block elements and blocks,
//! with typed builders, fallible narrowing between element families, and a
//! validation engine that reports every constraint violation of a tree.

pub mod block_elements;
pub mod blocks;
pub mod compose;
pub mod elems;
pub mod stage;
pub mod validation;
