//! A terminal editor for JSON documents, without the terminal.
//!
//! The heart of the crate is the rendering of a document as lines of
//! indented text with the line of the selected node highlighted. The
//! document is written out by `serde_json`; the lines are cut from the byte
//! stream as it comes, and a navigation path is matched against them one
//! line at a time:
//!
//! - [`text`] reads the marks of a single line;
//! - [`lines`] says how a byte stream falls into lines;
//! - [`context`] follows the nesting from line to line;
//! - [`matcher`] decides which line a path selects;
//! - [`writer`] is the sink that puts the three together;
//! - [`json`] holds the document and remembers its last rendering.
//!
//! Around it stand the state of the editor and the keys that change it
//! ([`app`]), and what the screen shows as plain values ([`ui`],
//! [`edition`]).

pub mod app;
pub mod context;
pub mod edition;
pub mod json;
pub mod lines;
pub mod matcher;
pub mod numbers;
pub mod path;
pub mod render;
pub mod strings;
pub mod text;
pub mod ui;
pub mod value;
pub mod writer;
