//! Why a model could not be loaded.

use vstd::prelude::*;

verus! {

/// The ways in which loading a model fails. Every one of them is final: no
/// partial model is handed out.
#[derive(Clone, Copy, Debug, PartialEq, Eq, Structural)]
pub enum LoadError {
    /// The mesh source could not be opened or read.
    FileNotFound,
    /// The mesh source was read, but the parser rejected its content.
    ParseError,
    /// The number of indices is not a multiple of three.
    MalformedIndexData,
    /// A triangle names a vertex that has no position.
    IndexOutOfRange,
}

} // verus!
