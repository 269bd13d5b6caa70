//! Word lookup for a dictionary service.
//!
//! A stored definition carries its body as JSON: text interleaved with
//! formatting and cross-reference tags. [`decode`] turns such a body into a
//! tree, [`render`] compiles the tree to an HTML fragment, and [`lookup`]
//! leads a search from the raw term to the definitions on [`display`].
//! Storage itself stays outside: a search says what it needs and takes the
//! reply. [`storage`] holds a model of it and what holds of every search.

pub mod decode;
pub mod display;
pub mod json;
pub mod lookup;
pub mod models;
pub mod render;
pub mod storage;
pub mod templates;
pub mod text;
