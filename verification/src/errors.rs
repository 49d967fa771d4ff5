use vstd::prelude::*;

verus! {

/// Failure of one credential resolution against the provider chain.
#[derive(Clone, Debug, PartialEq, Eq)]
pub enum CredentialError {
    /// No credential provider is configured in the environment at all.
    ProviderUnavailable,
    /// A provider is configured but retrieval errored; the underlying
    /// message is preserved for diagnostics.
    ProviderFailed(String),
}

/// Failure of opening a remote table or one of its data files.
#[derive(Clone, Debug, PartialEq, Eq)]
pub enum TableError {
    /// The storage URI does not parse, or is missing the required host
    /// (bucket) component.
    InvalidUri,
    /// The table-format metadata could not be read.
    OpenFailed(String),
    /// The table has no data files.
    EmptyTable,
    /// The selected columnar file could not be opened or parsed.
    ReadFailed(String),
}

} // verus!
