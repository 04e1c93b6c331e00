use vstd::prelude::*;

verus! {

/// Why a declutter run stops.
#[derive(Clone, Copy, Debug, PartialEq, Eq, Structural)]
pub enum DeclutterError {
    /// The configured path is not an existing directory.
    DirectoryNotFound,
    /// No file name can be taken from an entry's path.
    InvalidFileName,
    /// The instant of a move lies outside the years that a UTC timestamp can
    /// render (before 262144 BCE or after 262142 CE).
    TimestampUnavailable,
}

} // verus!
