use vstd::prelude::*;

verus! {

/// An error that can come out of the protocol layer.
#[derive(Debug, PartialEq, Eq)]
pub enum Error {
    /// A key derivation or cipher operation failed: a bad key, IV or padding,
    /// a ciphertext of the wrong length, or no randomness to be had.
    Crypto(&'static str),
    /// The service answered with something of an unexpected shape.
    Protocol,
    /// The object is locked and cannot be read or changed until unlocked.
    Locked,
    /// No object was found for the request.
    NoResult,
    /// An authorization prompt was dismissed, but is required to continue.
    Prompt,
    /// No secret service provider, or no bus session to reach one, was found.
    Unavailable,
}

} // verus!
