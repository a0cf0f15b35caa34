//! The kinds of failure that the node distinguishes.

use vstd::prelude::*;

verus! {

/// Why an operation of the node did not succeed.
#[derive(Debug, Clone, Copy, PartialEq, Eq, Structural)]
pub enum Error {
    /// A resource refers to a parent that the model does not hold.
    MissingParent,
    /// No resource has the identifier that was asked for.
    NotFound,
    /// A JSON form was asked for in an API version that is not implemented.
    UnsupportedVersion,
    /// A request to a registry did not complete.
    TransportError,
    /// A registry answered with a status outside 200 to 299.
    RegistryRejection,
    /// A task of the node ended though it should run for ever.
    Fatal,
}

} // verus!
