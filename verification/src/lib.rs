//! Resolving cloud storage credentials and planning the opening of a remote,
//! transactional tabular data set for querying.
//!
//! The crate normalizes ambient cloud credentials into a flat key/value map,
//! parses a storage URI into its scheme and host (bucket), binds an object
//! store to that location with a fixed deployment region, assembles the
//! storage-options map the table-format opener needs, and selects the data
//! file to read. The remote work itself (the credential provider chain, the
//! transaction-log reader, the query engine) is carried out by the
//! surrounding runtime, which feeds its outcomes back into the verified
//! decision functions here.

use vstd::prelude::*;

pub mod credentials;
pub mod errors;
pub mod loader;
pub mod uri;

verus! {

/// The view of an optional string: the character sequence when present.
pub open spec fn opt_str_view(o: Option<String>) -> Option<Seq<char>> {
    match o {
        Option::Some(s) => Option::Some(s@),
        Option::None => Option::None,
    }
}

} // verus!
