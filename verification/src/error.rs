//! Configuration-resolution errors: language-scoped and non-fatal to a run.

use vstd::prelude::*;

verus! {

/// Why one language name could not be resolved to a highlighter
/// configuration.  Every payload is plain bytes: a path, a symbol name, a
/// language name, or a message carried up from the engine.
#[derive(Debug, Clone, PartialEq, Eq)]
pub enum MordantConfigError {
    /// A query file was missing or unreadable; carries the path.
    IO(Vec<u8>),
    /// The grammar library could not be loaded or lacked the entry symbol;
    /// carries the attempted symbol name.
    LanguageSource { symbol_name: Vec<u8> },
    /// The combined query text was rejected by the engine; carries its
    /// message.
    TreeSitterQuery(Vec<u8>),
    /// Shell-style expansion of a path failed; carries the message.
    ShellExpandError(Vec<u8>),
    /// A path held non-unicode data; carries the path.
    InvalidPath(Vec<u8>),
    /// The name matches no compiled-in builtin; carries the name.
    NotSupported(Vec<u8>),
}

} // verus!
