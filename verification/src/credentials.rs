use vstd::prelude::*;
use vstd::string::StringExecFns;

use crate::errors::CredentialError;
use crate::opt_str_view;

verus! {

/// Upper bound on provider-chain attempts within one resolution.
pub const MAX_PROVIDER_ATTEMPTS: u32 = 5;

/// Overall cap, in seconds, on one resolution against the provider chain.
pub const OPERATION_TIMEOUT_SECS: u64 = 30;

/// The key under which the access key id is stored.
pub open spec fn access_key_id_name() -> Seq<char> {
    "AWS_ACCESS_KEY_ID"@
}

/// The key under which the secret access key is stored.
pub open spec fn secret_access_key_name() -> Seq<char> {
    "AWS_SECRET_ACCESS_KEY"@
}

/// The key under which a session token is stored, when one was supplied.
pub open spec fn session_token_name() -> Seq<char> {
    "AWS_SESSION_TOKEN"@
}

/// The mathematical content of a credential map.
pub struct CredentialMapView {
    pub access_key_id: Seq<char>,
    pub secret_access_key: Seq<char>,
    pub session_token: Option<Seq<char>>,
}

impl CredentialMapView {
    /// The entries of the map in a fixed order: the two mandatory fields,
    /// then the session token when one is present.
    pub open spec fn entries(self) -> Seq<(Seq<char>, Seq<char>)> {
        let base = seq![
            (access_key_id_name(), self.access_key_id),
            (secret_access_key_name(), self.secret_access_key),
        ];
        match self.session_token {
            Option::Some(t) => base.push((session_token_name(), t)),
            Option::None => base,
        }
    }

    /// How many entries the map has: two, or three with a session token.
    pub open spec fn entry_count(self) -> nat {
        self.entries().len()
    }
}

/// Normalized cloud credentials. Access key id and secret access key are
/// always present; a session token only for temporary (assumed-role)
/// credentials.
#[derive(Clone, Debug)]
pub struct CredentialMap {
    pub access_key_id: String,
    pub secret_access_key: String,
    pub session_token: Option<String>,
}

impl View for CredentialMap {
    type V = CredentialMapView;

    open spec fn view(&self) -> CredentialMapView {
        CredentialMapView {
            access_key_id: self.access_key_id@,
            secret_access_key: self.secret_access_key@,
            session_token: opt_str_view(self.session_token),
        }
    }
}

impl CredentialMap {
    /// How many entries the map holds: exactly two without a session token,
    /// exactly three with one.
    pub fn entry_count(&self) -> (n: usize)
        ensures
            n == self@.entry_count(),
            (n == 3) <==> (self@.session_token is Some),
            (n == 2) <==> (self@.session_token is None),
    {
        match self.session_token {
            Option::Some(_) => 3,
            Option::None => 2,
        }
    }

    /// The entries as key/value pairs, in the fixed order of the view:
    /// access key id, secret access key, then the session token if present.
    pub fn entries(&self) -> (r: Vec<(String, String)>)
        ensures
            r@.len() == self@.entries().len(),
            forall|i: int| 0 <= i < r@.len() ==> (#[trigger] r@[i]).0@ == self@.entries()[i].0
                && r@[i].1@ == self@.entries()[i].1,
    {
        let mut r: Vec<(String, String)> = Vec::new();
        r.push((String::from_str("AWS_ACCESS_KEY_ID"), self.access_key_id.clone()));
        r.push((String::from_str("AWS_SECRET_ACCESS_KEY"), self.secret_access_key.clone()));
        match &self.session_token {
            Option::Some(t) => {
                r.push((String::from_str("AWS_SESSION_TOKEN"), t.clone()));
            },
            Option::None => {},
        }
        r
    }
}

/// The credential field names are pairwise distinct, so a map built from the
/// entries holds exactly as many fields as there are entries: two without a
/// session token, three with one.
pub proof fn lemma_credential_keys_distinct(c: CredentialMapView)
    ensures
        forall|i: int, j: int|
            0 <= i < j < c.entries().len() ==> c.entries()[i].0 != c.entries()[j].0,
{
    reveal_strlit("AWS_ACCESS_KEY_ID");
    reveal_strlit("AWS_SECRET_ACCESS_KEY");
    reveal_strlit("AWS_SESSION_TOKEN");
    assert(access_key_id_name().len() != secret_access_key_name().len());
    assert(secret_access_key_name().len() != session_token_name().len());
    assert(access_key_id_name()[4] != session_token_name()[4]);
}

/// Outcome of one credential resolution against the provider chain, as the
/// surrounding runtime reports it back.
#[derive(Clone, Debug)]
pub enum ProviderOutcome {
    /// No credential provider is configured in the environment.
    NoProvider,
    /// A configured provider errored with the given message.
    Failed(String),
    /// A provider yielded credentials; the session token accompanies
    /// temporary (assumed-role) credentials only.
    Resolved { access_key_id: String, secret_access_key: String, session_token: Option<String> },
}

/// Turns the outcome of one provider-chain resolution into the normalized
/// credential map, or into the error owed for that outcome: a missing
/// provider always yields ProviderUnavailable and never a different error;
/// a provider failure always yields ProviderFailed with the message kept.
pub fn credentials_from_outcome(outcome: ProviderOutcome) -> (r: Result<
    CredentialMap,
    CredentialError,
>)
    ensures
        (r is Ok) <==> (outcome is Resolved),
        (r matches Err(e) && e is ProviderUnavailable) <==> (outcome is NoProvider),
        (r matches Err(e) && e is ProviderFailed) <==> (outcome is Failed),
        outcome matches ProviderOutcome::Failed(m) ==> (r matches Err(e) && e matches
            CredentialError::ProviderFailed(kept) && kept@ == m@),
        outcome matches ProviderOutcome::Resolved { access_key_id, secret_access_key, session_token } ==> (
        r matches Ok(c) && c@ == (CredentialMapView {
            access_key_id: access_key_id@,
            secret_access_key: secret_access_key@,
            session_token: opt_str_view(session_token),
        })),
{
    match outcome {
        ProviderOutcome::NoProvider => Result::Err(CredentialError::ProviderUnavailable),
        ProviderOutcome::Failed(m) => Result::Err(CredentialError::ProviderFailed(m)),
        ProviderOutcome::Resolved { access_key_id, secret_access_key, session_token } => Result::Ok(
            CredentialMap { access_key_id, secret_access_key, session_token },
        ),
    }
}

} // verus!
