use vstd::prelude::*;
use vstd::string::StringExecFns;

use crate::credentials::access_key_id_name;
use crate::credentials::lemma_credential_keys_distinct;
use crate::credentials::secret_access_key_name;
use crate::credentials::session_token_name;
use crate::credentials::CredentialMap;
use crate::credentials::CredentialMapView;
use crate::errors::TableError;
use crate::uri::parse_storage_location;
use crate::uri::uri_host;
use crate::uri::uri_parses;
use crate::uri::StorageLocation;

verus! {

/// The fixed deployment region every store binding uses.
pub open spec fn spec_region() -> Seq<char> {
    "eu-west-2"@
}

/// The fixed deployment region, as a value.
pub fn region_name() -> (r: String)
    ensures
        r@ == spec_region(),
{
    String::from_str("eu-west-2")
}

/// One binding of an object store: the bucket, the region, and the
/// credentials. Both open paths — the object-store client and the
/// storage-options map handed to the table-format opener — are derived from
/// one binding, so they cannot disagree on bucket, region or credentials.
#[derive(Clone, Debug)]
pub struct StoreBinding {
    pub bucket: String,
    pub region: String,
    pub credentials: CredentialMap,
}

/// The mathematical content of a store binding.
pub struct StoreBindingView {
    pub bucket: Seq<char>,
    pub region: Seq<char>,
    pub credentials: CredentialMapView,
}

impl StoreBindingView {
    /// The storage-options entries: the credential entries, then the bucket
    /// and the region of this binding.
    pub open spec fn options(self) -> Seq<(Seq<char>, Seq<char>)> {
        self.credentials.entries() + seq![("bucket"@, self.bucket), ("region"@, self.region)]
    }
}

impl View for StoreBinding {
    type V = StoreBindingView;

    open spec fn view(&self) -> StoreBindingView {
        StoreBindingView {
            bucket: self.bucket@,
            region: self.region@,
            credentials: self.credentials@,
        }
    }
}

/// Binds a store to a parsed location: the location's host becomes the
/// bucket, the region is the fixed deployment region, and the credentials
/// are carried unchanged.
pub fn bind_store(location: &StorageLocation, credentials: &CredentialMap) -> (b: StoreBinding)
    ensures
        b@.bucket == location@.host,
        b@.region == spec_region(),
        b@.credentials == credentials@,
{
    StoreBinding {
        bucket: location.host.clone(),
        region: region_name(),
        credentials: CredentialMap {
            access_key_id: credentials.access_key_id.clone(),
            secret_access_key: credentials.secret_access_key.clone(),
            session_token: match &credentials.session_token {
                Option::Some(t) => Option::Some(t.clone()),
                Option::None => Option::None,
            },
        },
    }
}

impl StoreBinding {
    /// The storage-options map handed to the table-format opener: exactly
    /// the credential entries plus this binding's bucket and region.
    pub fn storage_options(&self) -> (r: Vec<(String, String)>)
        ensures
            r@.len() == self@.options().len(),
            forall|i: int| 0 <= i < r@.len() ==> (#[trigger] r@[i]).0@ == self@.options()[i].0
                && r@[i].1@ == self@.options()[i].1,
    {
        let mut r = self.credentials.entries();
        r.push((String::from_str("bucket"), self.bucket.clone()));
        r.push((String::from_str("region"), self.region.clone()));
        r
    }
}

/// What the query-ready open computes before any remote call: the store
/// binding exactly when the URI parses with a host, InvalidUri otherwise.
pub open spec fn spec_plan(uri: Seq<char>, credentials: CredentialMapView) -> Result<
    StoreBindingView,
    TableError,
> {
    if uri_parses(uri) && uri_host(uri) is Some {
        Result::Ok(
            StoreBindingView {
                bucket: uri_host(uri).unwrap(),
                region: spec_region(),
                credentials,
            },
        )
    } else {
        Result::Err(TableError::InvalidUri)
    }
}

/// Plans a query-ready open: parses the URI and binds the store. Succeeds
/// with the binding of spec_plan exactly when the URI parses with a host;
/// otherwise fails with InvalidUri before any remote work is attempted.
pub fn plan_open(uri: &str, credentials: &CredentialMap) -> (r: Result<StoreBinding, TableError>)
    ensures
        r matches Ok(b) ==> spec_plan(uri@, credentials@) == Result::<
            StoreBindingView,
            TableError,
        >::Ok(b@),
        r matches Err(e) ==> spec_plan(uri@, credentials@) == Result::<
            StoreBindingView,
            TableError,
        >::Err(e),
        (r is Ok) <==> (uri_parses(uri@) && uri_host(uri@) is Some),
{
    match parse_storage_location(uri) {
        Result::Ok(location) => Result::Ok(bind_store(&location, credentials)),
        Result::Err(e) => Result::Err(e),
    }
}

/// The file the query-ready open reads: always exactly the first element of
/// the enumeration order the table reader returned, when there is one.
pub open spec fn spec_first_file(files: Seq<Seq<char>>) -> Option<Seq<char>> {
    if files.len() == 0 {
        Option::None
    } else {
        Option::Some(files[0])
    }
}

/// Selects the data file to open: always exactly the first file in the
/// enumeration order the table reader returned. A table with zero data
/// files always yields EmptyTable, and no file is selected for reading.
pub fn select_first_file(files: &Vec<String>) -> (r: Result<String, TableError>)
    ensures
        (r is Ok) <==> files@.len() > 0,
        r matches Ok(f) ==> f@ == files@[0]@,
        r matches Ok(f) ==> Option::Some(f@) == spec_first_file(
            files@.map_values(|s: String| s@),
        ),
        r matches Err(e) ==> e == TableError::EmptyTable && files@.len() == 0,
{
    if files.len() == 0 {
        Result::Err(TableError::EmptyTable)
    } else {
        Result::Ok(files[0].clone())
    }
}

/// The two open paths agree by construction: the storage-options map
/// derived from a binding ends with exactly the binding's own bucket and
/// region, and carries the binding's credential entries before them.
pub proof fn lemma_binding_paths_agree(b: StoreBindingView)
    ensures
        b.options().len() == b.credentials.entry_count() + 2,
        b.options()[b.options().len() - 2] == ("bucket"@, b.bucket),
        b.options()[b.options().len() - 1] == ("region"@, b.region),
        forall|i: int|
            0 <= i < b.credentials.entry_count() ==> b.options()[i]
                == b.credentials.entries()[i],
{
}

/// The storage-options keys are pairwise distinct: the credential field
/// names, "bucket" and "region" never collide, so a flat map built from the
/// options holds exactly as many keys as there are entries.
pub proof fn lemma_option_keys_distinct(b: StoreBindingView)
    ensures
        forall|i: int, j: int|
            0 <= i < j < b.options().len() ==> b.options()[i].0 != b.options()[j].0,
{
    lemma_credential_keys_distinct(b.credentials);
    reveal_strlit("AWS_ACCESS_KEY_ID");
    reveal_strlit("AWS_SECRET_ACCESS_KEY");
    reveal_strlit("AWS_SESSION_TOKEN");
    reveal_strlit("bucket");
    reveal_strlit("region");
    let opts = b.options();
    let e = b.credentials.entries();
    assert("bucket"@[0] != "region"@[0]);
    assert(e[0].0 == access_key_id_name());
    assert(e[1].0 == secret_access_key_name());
    match b.credentials.session_token {
        Option::Some(t) => {
            assert(e[2].0 == session_token_name());
            assert(opts[0].0 == access_key_id_name());
            assert(opts[1].0 == secret_access_key_name());
            assert(opts[2].0 == session_token_name());
            assert(opts[3].0 == "bucket"@);
            assert(opts[4].0 == "region"@);
        },
        Option::None => {
            assert(opts[0].0 == access_key_id_name());
            assert(opts[1].0 == secret_access_key_name());
            assert(opts[2].0 == "bucket"@);
            assert(opts[3].0 == "region"@);
        },
    }
}

/// Opening the same table twice with the same credentials and URI plans the
/// same store binding and selects the same data file, so both opens read
/// the same underlying data with the same storage configuration.
pub proof fn lemma_open_repeatable(
    uri1: Seq<char>,
    uri2: Seq<char>,
    credentials1: CredentialMapView,
    credentials2: CredentialMapView,
    files1: Seq<Seq<char>>,
    files2: Seq<Seq<char>>,
)
    requires
        uri1 == uri2,
        credentials1 == credentials2,
        files1 == files2,
    ensures
        spec_plan(uri1, credentials1) == spec_plan(uri2, credentials2),
        spec_first_file(files1) == spec_first_file(files2),
{
}

} // verus!
