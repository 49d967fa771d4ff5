use vstd::prelude::*;

use crate::errors::TableError;
use crate::opt_str_view;

verus! {

/// Whether url::Url::parse accepts the string as an absolute URL.
pub uninterp spec fn uri_parses(s: Seq<char>) -> bool;

/// The scheme of the parsed URL.
pub uninterp spec fn uri_scheme(s: Seq<char>) -> Seq<char>;

/// The host of the parsed URL, when it has one.
pub uninterp spec fn uri_host(s: Seq<char>) -> Option<Seq<char>>;

/// Relies on url::Url::parse, url::Url::scheme and url::Url::host_str:
/// whether a string parses as an absolute URL, and which scheme and host it
/// then carries, are functions of the string alone. A URL without an
/// authority (for example a mailto: URL) parses but carries no host.
#[verifier::external_body]
fn parse_uri_parts(uri: &str) -> (r: Option<(String, Option<String>)>)
    ensures
        (r is Some) <==> uri_parses(uri@),
        r matches Some(parts) ==> parts.0@ == uri_scheme(uri@),
        r matches Some(parts) ==> opt_str_view(parts.1) == uri_host(uri@),
{
    match url::Url::parse(uri) {
        Ok(u) => Some((u.scheme().to_string(), u.host_str().map(|h| h.to_string()))),
        Err(_) => None,
    }
}

/// A parsed storage location: the URI's scheme and its host, which names the
/// bucket or container.
#[derive(Clone, Debug)]
pub struct StorageLocation {
    pub scheme: String,
    pub host: String,
}

/// The mathematical content of a storage location.
pub struct StorageLocationView {
    pub scheme: Seq<char>,
    pub host: Seq<char>,
}

impl View for StorageLocation {
    type V = StorageLocationView;

    open spec fn view(&self) -> StorageLocationView {
        StorageLocationView { scheme: self.scheme@, host: self.host@ }
    }
}

/// Parses a storage URI and extracts its scheme and host (bucket) component.
/// A well-formed URI with a host is never rejected; a string that does not
/// parse as an absolute URL, or parses without a host, always yields
/// InvalidUri.
pub fn parse_storage_location(uri: &str) -> (r: Result<StorageLocation, TableError>)
    ensures
        (r is Ok) <==> (uri_parses(uri@) && uri_host(uri@) is Some),
        r matches Ok(loc) ==> loc@.scheme == uri_scheme(uri@) && Option::Some(loc@.host)
            == uri_host(uri@),
        r matches Err(e) ==> e == TableError::InvalidUri,
{
    match parse_uri_parts(uri) {
        Option::Some((scheme, host_opt)) => match host_opt {
            Option::Some(host) => Result::Ok(StorageLocation { scheme, host }),
            Option::None => Result::Err(TableError::InvalidUri),
        },
        Option::None => Result::Err(TableError::InvalidUri),
    }
}

} // verus!
