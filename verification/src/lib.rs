//! Rewrites fenced code blocks inside a Markdown document into
//! syntax-highlighted markup.
//!
//! The pipeline: fenced blocks are located in the document, each block's
//! content is turned into an ordered highlight-event stream by the syntax
//! engine, the stream is rendered into wrapped markup, and the per-block
//! replacements are applied to the document in one offset-correct pass.
//! Language names are resolved to highlighter configurations through a
//! layered fallback (explicit entry, conventional toolchain path,
//! compiled-in builtin); a name that cannot be resolved leaves its blocks
//! untouched.

pub mod buf;
pub mod engine;
pub mod error;
pub mod events;
pub mod facade;
pub mod fence;
pub mod markdown;
pub mod options;
pub mod patch;
pub mod registry;
pub mod render;
pub mod table;
