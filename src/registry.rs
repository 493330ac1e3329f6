//! The registry: one shared credential, and the choice of how each blob
//! client authenticates.
use std::sync::Arc;

use crate::address::{address_from_url, address_of_url, BlobAddress, UrlError};
use crate::credential::{
    attempts, first_available, obtain_credential, run_chain, Credential, CredentialError, Probe, ProbeOutcomes,
    SecretSettings,
};
use vstd::prelude::*;

verus! {

/// How a blob client authenticates.
#[derive(Clone, Debug)]
pub enum StorageAuth {
    /// A token for the storage scope, given by the operator.
    BearerToken(String),
    /// The credential that the registry resolved and shares.
    Shared(Arc<Credential>),
}

/// Everything a blob client is built from: where the blob is and how to
/// authenticate.
#[derive(Clone, Debug)]
pub struct BlobTarget {
    pub address: BlobAddress,
    pub auth: StorageAuth,
}

/// The shared credential and the clients built on it.
#[derive(Clone, Debug)]
pub struct AzureRegistry {
    /// Resolved once, read-only, shared by every client that uses it.
    pub credential: Arc<Credential>,
}

/// How a client authenticates, given the operator's bearer token if any and
/// the shared credential.
pub open spec fn auth_for(bearer_token: Option<String>, shared: Arc<Credential>) -> StorageAuth {
    match bearer_token {
        Some(t) => StorageAuth::BearerToken(t),
        None => StorageAuth::Shared(shared),
    }
}

impl AzureRegistry {
    /// Resolves the credential through the chain of sources and shares it.
    /// Beside the registry it hands on, as ghost values, what each source
    /// gave and the sources tried (see `obtain_credential`). The registry is
    /// built exactly when the chain keeps a credential, and then holds the
    /// chain's choice on those outcomes; the chain always keeps one.
    pub fn new(settings: &SecretSettings) -> (r: (
        Result<AzureRegistry, CredentialError>,
        Ghost<ProbeOutcomes>,
        Ghost<Seq<Probe>>,
    ))
        ensures
            (match r.0 { Ok(reg) => Some(reg.credential.source()), Err(_) => None })
                == run_chain(r.1@, settings.complete(), Some(Probe::WorkloadIdentity)),
            r.2@ == attempts(r.1@, settings.complete(), Some(Probe::WorkloadIdentity)),
            (match r.0 { Ok(reg) => Some(reg.credential.source()), Err(_) => None })
                == first_available(r.1@, settings.complete()),
            r.0 is Ok,
            r.0 matches Ok(reg) ==> reg.credential.source() != Probe::ManagedIdentity,
            r.0 matches Ok(reg) && reg.credential.source() == Probe::ClientSecret ==> settings.complete(),
    {
        let (res, outcomes, tried) = obtain_credential(settings);
        match res {
            Ok(c) => (Ok(AzureRegistry { credential: Arc::new(c) }), outcomes, tried),
            Err(e) => (Err(e), outcomes, tried),
        }
    }

    /// How a client authenticates: with the operator's bearer token where one
    /// is set, without touching the credential chain; else with the shared
    /// credential, the same one on every call.
    pub fn storage_auth(&self, bearer_token: Option<String>) -> (r: StorageAuth)
        ensures
            r == auth_for(bearer_token, self.credential),
    {
        match bearer_token {
            Some(t) => StorageAuth::BearerToken(t),
            None => StorageAuth::Shared(self.credential.clone()),
        }
    }

    /// What the client for one blob is built from.
    pub fn get_blob_client(
        &self,
        account: &str,
        container_name: &str,
        blob_name: &str,
        bearer_token: Option<String>,
    ) -> (r: BlobTarget)
        ensures
            r.address@ == (account@, container_name@, blob_name@),
            r.auth == auth_for(bearer_token, self.credential),
    {
        let address = BlobAddress {
            account: String::from_str(account),
            container: String::from_str(container_name),
            blob_name: String::from_str(blob_name),
        };
        BlobTarget { address, auth: self.storage_auth(bearer_token) }
    }

    /// What the client for the blob that a URL names is built from.
    pub fn get_blob(&self, url: &str, bearer_token: Option<String>) -> (r: Result<BlobTarget, UrlError>)
        ensures
            address_of_url(url@) is Err ==> r == Err::<BlobTarget, UrlError>(address_of_url(url@)->Err_0),
            address_of_url(url@) is Ok ==> (r matches Ok(t) && t.address@ == address_of_url(url@)->Ok_0
                && t.auth == auth_for(bearer_token, self.credential)),
    {
        match address_from_url(url) {
            Ok(a) => {
                let t = self.get_blob_client(
                    a.account.as_str(),
                    a.container.as_str(),
                    a.blob_name.as_str(),
                    bearer_token,
                );
                Ok(t)
            },
            Err(e) => Err(e),
        }
    }
}

/// Two clients built without a bearer token are given equal credentials,
/// both equal to the one that the registry holds (value equality; that they
/// are the same shared allocation is not stated here).
pub proof fn lemma_shared_credential_reused(reg: AzureRegistry, a1: StorageAuth, a2: StorageAuth)
    requires
        a1 == auth_for(None, reg.credential),
        a2 == auth_for(None, reg.credential),
    ensures
        a1 == a2,
        a1 == StorageAuth::Shared(reg.credential),
{
}

/// With a bearer token set, the client authenticates with that token and the
/// shared credential plays no part.
pub proof fn lemma_bearer_token_bypasses_chain(t: String, c1: Arc<Credential>, c2: Arc<Credential>)
    ensures
        auth_for(Some(t), c1) == StorageAuth::BearerToken(t),
        auth_for(Some(t), c1) == auth_for(Some(t), c2),
{
}

} // verus!
