use std::sync::Arc;

use azure_core::credentials::Secret;
use azure_identity::ClientSecretCredential;
use blob_access::credential::{
    chain_step, next_probe, obtain_credential, secret_triple, try_probe, ChainStep, Credential,
    Probe, SecretSettings,
};
use blob_access::registry::{AzureRegistry, StorageAuth};

fn settings(tenant: Option<&str>, client: Option<&str>, secret: Option<&str>) -> SecretSettings {
    SecretSettings {
        tenant_id: tenant.map(String::from),
        client_id: client.map(String::from),
        client_secret: secret.map(String::from),
    }
}

fn chain(complete: bool) -> Vec<Probe> {
    let mut out = Vec::new();
    let mut next = next_probe(None, complete);
    while let Some(p) = next {
        out.push(p);
        next = next_probe(Some(p), complete);
    }
    out
}

fn registry() -> AzureRegistry {
    let c = ClientSecretCredential::new("tenant", "client".to_string(), Secret::new("s3cr3t"), None)
        .unwrap();
    AzureRegistry { credential: Arc::new(Credential::ClientSecret(c)) }
}

#[test]
fn chain_order_with_complete_settings() {
    assert_eq!(
        chain(true),
        vec![Probe::WorkloadIdentity, Probe::ClientSecret, Probe::DeveloperTools, Probe::ManagedIdentity]
    );
}

#[test]
fn chain_skips_client_secret_without_complete_settings() {
    assert_eq!(
        chain(false),
        vec![Probe::WorkloadIdentity, Probe::DeveloperTools, Probe::ManagedIdentity]
    );
}

#[test]
fn settings_complete_only_with_all_three() {
    assert!(settings(Some("t"), Some("c"), Some("s")).is_complete());
    assert!(!settings(Some("t"), Some("c"), None).is_complete());
    assert!(!settings(None, Some("c"), Some("s")).is_complete());
    assert!(!settings(Some("t"), None, Some("s")).is_complete());
    assert!(!settings(None, None, None).is_complete());
}

#[test]
fn partial_settings_never_give_client_secret() {
    let r = try_probe(Probe::ClientSecret, &settings(Some("tenant"), Some("client"), None));
    assert!(r.is_none());
}

#[test]
fn complete_settings_give_client_secret() {
    let r = try_probe(Probe::ClientSecret, &settings(Some("tenant"), Some("client"), Some("s3cr3t")));
    assert_eq!(r.unwrap().kind(), Probe::ClientSecret);
}

#[test]
fn chain_without_settings_never_keeps_client_secret() {
    if let (Ok(c), _, _) = obtain_credential(&settings(Some("tenant"), Some("client"), None)) {
        assert_ne!(c.kind(), Probe::ClientSecret);
    }
}

#[test]
fn registry_kept_source_needs_complete_settings() {
    if let (Ok(reg), _, _) = AzureRegistry::new(&settings(None, None, Some("s"))) {
        assert_ne!(reg.credential.kind(), Probe::ClientSecret);
    }
}

#[test]
fn bearer_token_overrides_shared_credential() {
    let reg = registry();
    match reg.storage_auth(Some("tok".to_string())) {
        StorageAuth::BearerToken(t) => assert_eq!(t, "tok"),
        StorageAuth::Shared(_) => panic!("expected the bearer token"),
    }
}

#[test]
fn clients_without_token_share_one_credential() {
    let reg = registry();
    let a = reg.get_blob_client("acct", "c", "b", None);
    let b = reg.get_blob_client("acct", "c", "other", None);
    match (a.auth, b.auth) {
        (StorageAuth::Shared(x), StorageAuth::Shared(y)) => {
            assert!(Arc::ptr_eq(&x, &y));
            assert!(Arc::ptr_eq(&x, &reg.credential));
        }
        _ => panic!("expected the shared credential"),
    }
}

#[test]
fn blob_from_url_carries_address_and_auth() {
    let reg = registry();
    let t = reg
        .get_blob("https://myacct.blob.core.windows.net/container1/folder/file.txt", Some("tok".to_string()))
        .unwrap();
    assert_eq!(t.address.account, "myacct");
    assert_eq!(t.address.container, "container1");
    assert_eq!(t.address.blob_name, "folder/file.txt");
    assert!(matches!(t.auth, StorageAuth::BearerToken(ref s) if s == "tok"));
    assert!(reg.get_blob("https://myacct.blob.core.windows.net/", None).is_err());
}

fn run_with(available: [bool; 4], complete: bool) -> Option<Probe> {
    let ok = |p: Probe| match p {
        Probe::WorkloadIdentity => available[0],
        Probe::ClientSecret => available[1],
        Probe::DeveloperTools => available[2],
        Probe::ManagedIdentity => available[3],
    };
    let mut p = Probe::WorkloadIdentity;
    loop {
        match chain_step(p, ok(p), complete) {
            ChainStep::Keep => return Some(p),
            ChainStep::Try(q) => p = q,
            ChainStep::Exhausted => return None,
        }
    }
}

#[test]
fn chain_keeps_first_available_source() {
    assert_eq!(run_with([true, true, true, true], true), Some(Probe::WorkloadIdentity));
    assert_eq!(run_with([false, true, true, true], true), Some(Probe::ClientSecret));
    assert_eq!(run_with([false, true, true, true], false), Some(Probe::DeveloperTools));
    assert_eq!(run_with([false, false, false, true], true), Some(Probe::ManagedIdentity));
    assert_eq!(run_with([false, true, false, false], false), None);
    assert_eq!(run_with([false, false, false, false], true), None);
}

#[test]
fn chain_step_decisions() {
    assert_eq!(chain_step(Probe::ManagedIdentity, true, false), ChainStep::Keep);
    assert_eq!(chain_step(Probe::WorkloadIdentity, false, true), ChainStep::Try(Probe::ClientSecret));
    assert_eq!(chain_step(Probe::WorkloadIdentity, false, false), ChainStep::Try(Probe::DeveloperTools));
    assert_eq!(chain_step(Probe::ClientSecret, false, true), ChainStep::Try(Probe::DeveloperTools));
    assert_eq!(chain_step(Probe::DeveloperTools, false, true), ChainStep::Try(Probe::ManagedIdentity));
    assert_eq!(chain_step(Probe::ManagedIdentity, false, true), ChainStep::Exhausted);
}

#[test]
fn secret_triple_keeps_each_setting_in_place() {
    let t = secret_triple(&settings(Some("tenant"), Some("client"), Some("s3cr3t"))).unwrap();
    assert_eq!(t, ("tenant".to_string(), "client".to_string(), "s3cr3t".to_string()));
    assert!(secret_triple(&settings(Some("tenant"), None, Some("s3cr3t"))).is_none());
}

#[test]
fn developer_tools_source_always_gives_a_credential() {
    let r = try_probe(Probe::DeveloperTools, &settings(None, None, None));
    assert_eq!(r.unwrap().kind(), Probe::DeveloperTools);
}

#[test]
fn chain_always_ends_with_a_credential() {
    let c = obtain_credential(&settings(None, None, None)).0.unwrap();
    assert_ne!(c.kind(), Probe::ManagedIdentity);
    assert_ne!(c.kind(), Probe::ClientSecret);
    let reg = AzureRegistry::new(&settings(Some("t"), Some("c"), None)).0.unwrap();
    assert_ne!(reg.credential.kind(), Probe::ManagedIdentity);
}

#[test]
fn empty_secret_is_refused() {
    assert!(try_probe(Probe::ClientSecret, &settings(Some("tenant"), Some("client"), Some(""))).is_none());
}
