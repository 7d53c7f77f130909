//! The ways in which start-up can fail.

use vstd::prelude::*;

verus! {

/// Why start-up was given up. Every one of them is final: nothing is retried,
/// and no state short of ready is ever reported as ready. The text in a
/// variant is what the host reported of the failed work.
#[derive(Debug, Clone, PartialEq, Eq)]
pub enum BootstrapError {
    /// The storage directory could not be created.
    Storage(String),
    /// The runtime could not be started, or did not answer a query.
    Runtime(String),
    /// The identity key pair could not be generated.
    Identity(String),
    /// A bundle could not be decoded.
    BundleDecode(String),
    /// The membrane proof is no valid base64 text.
    ProofDecode,
    /// The runtime rejected a bundle.
    Registration(String),
    /// The runtime rejected the install request.
    Install(String),
    /// The runtime could not enable the application.
    Enable(String),
    /// A component of the application reported an error on being enabled.
    Component(String),
    /// The runtime does not know the application that was just enabled; the
    /// text is its identifier.
    AppNotInstalled(String),
    /// The application interface could not be attached.
    Interface(String),
}

} // verus!
