//! The error taxonomy of the library.
use vstd::prelude::*;

verus! {

/// Everything that can go wrong while building or running a statement.
///
/// `Connection` and `Execution` are reported by the code that runs a
/// statement against the engine; the statement builders themselves only
/// ever produce `UnsupportedBackend` and `UnsupportedRelation`.
#[derive(Clone, Copy, Debug, PartialEq, Eq, Structural)]
pub enum DbError {
    /// The database file or engine could not be reached.
    Connection,
    /// The engine rejected a statement.
    Execution,
    /// A database kind other than `sqlite` was requested.
    UnsupportedBackend,
    /// A relation kind other than the three recognized tags was requested.
    UnsupportedRelation,
    /// A record could not be reflected into the library's record model.
    Serialization,
}

} // verus!
