//! The ordered chain of credential sources: which source is tried after
//! which, and which one is kept.
use std::sync::Arc;

use azure_identity::{
    ClientSecretCredential, DeveloperToolsCredential, ManagedIdentityCredential,
    WorkloadIdentityCredential,
};
use vstd::prelude::*;

verus! {

#[verifier::external_type_specification]
#[verifier::external_body]
pub struct ExWorkloadIdentityCredential(WorkloadIdentityCredential);

#[verifier::external_type_specification]
#[verifier::external_body]
pub struct ExClientSecretCredential(ClientSecretCredential);

#[verifier::external_type_specification]
#[verifier::external_body]
pub struct ExDeveloperToolsCredential(DeveloperToolsCredential);

#[verifier::external_type_specification]
#[verifier::external_body]
pub struct ExManagedIdentityCredential(ManagedIdentityCredential);

/// A source of credentials, in the order in which the chain tries them.
#[derive(PartialEq, Eq, Structural, Clone, Copy, Debug)]
pub enum Probe {
    /// Federated workload identity, configured by the environment.
    WorkloadIdentity,
    /// A service principal's tenant, client id and client secret.
    ClientSecret,
    /// The session of a local developer tool.
    DeveloperTools,
    /// The identity that the hosting platform assigns.
    ManagedIdentity,
}

/// The chain ran out of sources.
#[derive(PartialEq, Eq, Structural, Clone, Copy, Debug)]
pub enum CredentialError {
    NoSuitableCredential,
}

/// The three settings of a service principal, each of which may be unset.
#[derive(Clone, Debug)]
pub struct SecretSettings {
    pub tenant_id: Option<String>,
    pub client_id: Option<String>,
    pub client_secret: Option<String>,
}

impl SecretSettings {
    /// All three settings are present.
    pub open spec fn complete(&self) -> bool {
        self.tenant_id is Some && self.client_id is Some && self.client_secret is Some
    }

    pub fn is_complete(&self) -> (r: bool)
        ensures
            r == self.complete(),
    {
        self.tenant_id.is_some() && self.client_id.is_some() && self.client_secret.is_some()
    }
}

/// Whether each source, when tried, would give a credential.
#[derive(PartialEq, Eq, Structural, Clone, Copy, Debug)]
pub struct ProbeOutcomes {
    pub workload_identity: bool,
    pub client_secret: bool,
    pub developer_tools: bool,
    pub managed_identity: bool,
}

impl ProbeOutcomes {
    pub open spec fn succeeds(self, p: Probe) -> bool {
        match p {
            Probe::WorkloadIdentity => self.workload_identity,
            Probe::ClientSecret => self.client_secret,
            Probe::DeveloperTools => self.developer_tools,
            Probe::ManagedIdentity => self.managed_identity,
        }
    }
}

/// The source to try after `last` has failed (`None`: before any), where
/// `complete` tells whether the service principal settings are all present.
pub open spec fn probe_after(last: Option<Probe>, complete: bool) -> Option<Probe> {
    match last {
        None => Some(Probe::WorkloadIdentity),
        Some(Probe::WorkloadIdentity) => if complete {
            Some(Probe::ClientSecret)
        } else {
            Some(Probe::DeveloperTools)
        },
        Some(Probe::ClientSecret) => Some(Probe::DeveloperTools),
        Some(Probe::DeveloperTools) => Some(Probe::ManagedIdentity),
        Some(Probe::ManagedIdentity) => None,
    }
}

/// How many sources are left to try from `next` on, `next` included.
pub open spec fn remaining(next: Option<Probe>) -> nat {
    match next {
        None => 0,
        Some(Probe::ManagedIdentity) => 1,
        Some(Probe::DeveloperTools) => 2,
        Some(Probe::ClientSecret) => 3,
        Some(Probe::WorkloadIdentity) => 4,
    }
}

/// The source that the chain keeps when it tries `next` and what follows.
pub open spec fn run_chain(o: ProbeOutcomes, complete: bool, next: Option<Probe>) -> Option<Probe>
    decreases remaining(next),
{
    match next {
        None => None,
        Some(p) => if o.succeeds(p) {
            Some(p)
        } else {
            run_chain(o, complete, probe_after(Some(p), complete))
        },
    }
}

/// The sources that the chain tries, in order, from `next` on.
pub open spec fn attempts(o: ProbeOutcomes, complete: bool, next: Option<Probe>) -> Seq<Probe>
    decreases remaining(next),
{
    match next {
        None => Seq::empty(),
        Some(p) => if o.succeeds(p) {
            seq![p]
        } else {
            seq![p] + attempts(o, complete, probe_after(Some(p), complete))
        },
    }
}

/// The first source in order of precedence that is available, where the
/// service principal counts as available only with all three settings.
pub open spec fn first_available(o: ProbeOutcomes, complete: bool) -> Option<Probe> {
    if o.workload_identity {
        Some(Probe::WorkloadIdentity)
    } else if complete && o.client_secret {
        Some(Probe::ClientSecret)
    } else if o.developer_tools {
        Some(Probe::DeveloperTools)
    } else if o.managed_identity {
        Some(Probe::ManagedIdentity)
    } else {
        None
    }
}

/// What the chain does once a source has been tried.
#[derive(PartialEq, Eq, Structural, Clone, Copy, Debug)]
pub enum ChainStep {
    /// Keep the credential that the source just gave.
    Keep,
    /// Try this source next.
    Try(Probe),
    /// No source is left: the chain fails.
    Exhausted,
}

/// The step after trying `tried`, which gave a credential exactly when
/// `succeeded`.
pub open spec fn step_after(tried: Probe, succeeded: bool, complete: bool) -> ChainStep {
    if succeeded {
        ChainStep::Keep
    } else {
        match probe_after(Some(tried), complete) {
            Some(q) => ChainStep::Try(q),
            None => ChainStep::Exhausted,
        }
    }
}

/// Decides what follows a tried source: a credential is kept at once; after
/// a failure the next source in order is tried, or the chain fails after the
/// last one.
pub fn chain_step(tried: Probe, succeeded: bool, complete: bool) -> (r: ChainStep)
    ensures
        r == step_after(tried, succeeded, complete),
{
    if succeeded {
        return ChainStep::Keep;
    }
    match next_probe(Some(tried), complete) {
        Some(q) => ChainStep::Try(q),
        None => ChainStep::Exhausted,
    }
}

/// The chain run by its steps: trying `p`, it keeps `p`, goes on, or stops as
/// `step_after` says.
pub proof fn lemma_run_chain_follows_steps(o: ProbeOutcomes, complete: bool, p: Probe)
    ensures
        run_chain(o, complete, Some(p)) == match step_after(p, o.succeeds(p), complete) {
            ChainStep::Keep => Some(p),
            ChainStep::Try(q) => run_chain(o, complete, Some(q)),
            ChainStep::Exhausted => None::<Probe>,
        },
{
    reveal_with_fuel(run_chain, 2);
}

/// The source to try after `last` has failed (`None`: the first one).
pub fn next_probe(last: Option<Probe>, complete: bool) -> (r: Option<Probe>)
    ensures
        r == probe_after(last, complete),
{
    match last {
        None => Some(Probe::WorkloadIdentity),
        Some(Probe::WorkloadIdentity) => if complete {
            Some(Probe::ClientSecret)
        } else {
            Some(Probe::DeveloperTools)
        },
        Some(Probe::ClientSecret) => Some(Probe::DeveloperTools),
        Some(Probe::DeveloperTools) => Some(Probe::ManagedIdentity),
        Some(Probe::ManagedIdentity) => None,
    }
}

/// The chain keeps the first source, in order of precedence, that is
/// available, and fails exactly when none of the four is.
pub proof fn lemma_chain_selects_first_available(o: ProbeOutcomes, complete: bool)
    ensures
        run_chain(o, complete, probe_after(None, complete)) == first_available(o, complete),
        run_chain(o, complete, probe_after(None, complete)) is None <==> (!o.workload_identity
            && !(complete && o.client_secret) && !o.developer_tools && !o.managed_identity),
{
    reveal_with_fuel(run_chain, 5);
}

/// Once workload identity has failed, the service principal source is tried
/// exactly when all three of its settings are present.
pub proof fn lemma_client_secret_tried_iff_complete(o: ProbeOutcomes, complete: bool)
    requires
        !o.workload_identity,
    ensures
        attempts(o, complete, probe_after(None, complete)).contains(Probe::ClientSecret)
            <==> complete,
{
    reveal_with_fuel(attempts, 5);
    let s = attempts(o, complete, probe_after(None, complete));
    if complete {
        assert(s[1] == Probe::ClientSecret);
    } else {
        assert(forall|i: int| 0 <= i < s.len() ==> s[i] != Probe::ClientSecret);
    }
}

/// A credential from one of the four sources.
#[derive(Clone, Debug)]
pub enum Credential {
    WorkloadIdentity(Arc<WorkloadIdentityCredential>),
    ClientSecret(Arc<ClientSecretCredential>),
    DeveloperTools(Arc<DeveloperToolsCredential>),
    ManagedIdentity(Arc<ManagedIdentityCredential>),
}

impl Credential {
    /// The source that the credential came from.
    pub open spec fn source(&self) -> Probe {
        match self {
            Credential::WorkloadIdentity(_) => Probe::WorkloadIdentity,
            Credential::ClientSecret(_) => Probe::ClientSecret,
            Credential::DeveloperTools(_) => Probe::DeveloperTools,
            Credential::ManagedIdentity(_) => Probe::ManagedIdentity,
        }
    }

    pub fn kind(&self) -> (r: Probe)
        ensures
            r == self.source(),
    {
        match self {
            Credential::WorkloadIdentity(_) => Probe::WorkloadIdentity,
            Credential::ClientSecret(_) => Probe::ClientSecret,
            Credential::DeveloperTools(_) => Probe::DeveloperTools,
            Credential::ManagedIdentity(_) => Probe::ManagedIdentity,
        }
    }
}

/// Relies on `WorkloadIdentityCredential::new` with default options; whether
/// it succeeds depends on the environment, so nothing is promised.
#[verifier::external_body]
fn workload_identity_credential() -> (r: Option<Arc<WorkloadIdentityCredential>>) {
    WorkloadIdentityCredential::new(None).ok()
}

/// Relies on `ClientSecretCredential::new` with default options: it refuses
/// an empty tenant id, client id or secret; whether it succeeds otherwise
/// also depends on the environment's authority host.
#[verifier::external_body]
fn client_secret_credential(tenant_id: &str, client_id: String, secret: String) -> (r: Option<
    Arc<ClientSecretCredential>,
>)
    ensures
        r is Some ==> tenant_id@.len() > 0 && client_id@.len() > 0 && secret@.len() > 0,
{
    ClientSecretCredential::new(tenant_id, client_id, azure_core::credentials::Secret::new(secret), None).ok()
}

/// Relies on `DeveloperToolsCredential::new` with default options: with no
/// tenant id or subscription given it only bundles the two command-line
/// credentials, and returns `Ok`.
#[verifier::external_body]
fn developer_tools_credential() -> (r: Option<Arc<DeveloperToolsCredential>>)
    ensures
        r is Some,
{
    DeveloperToolsCredential::new(None).ok()
}

/// Relies on `ManagedIdentityCredential::new` with default options; whether
/// it succeeds depends on the environment, so nothing is promised.
#[verifier::external_body]
fn managed_identity_credential() -> (r: Option<Arc<ManagedIdentityCredential>>) {
    ManagedIdentityCredential::new(None).ok()
}

/// The tenant id, client id and client secret, where all three are set.
pub fn secret_triple(s: &SecretSettings) -> (r: Option<(String, String, String)>)
    ensures
        r is Some <==> s.complete(),
        r matches Some((t, c, k)) ==> t@ == s.tenant_id->Some_0@ && c@ == s.client_id->Some_0@
            && k@ == s.client_secret->Some_0@,
{
    match (&s.tenant_id, &s.client_id, &s.client_secret) {
        (Some(t), Some(c), Some(k)) => Some((t.clone(), c.clone(), k.clone())),
        _ => None,
    }
}

/// Tries one source. The service principal source is tried only with all
/// three settings present, and with exactly those three; without them it
/// gives nothing. The developer tools source always gives a credential.
pub fn try_probe(p: Probe, settings: &SecretSettings) -> (r: Option<Credential>)
    ensures
        r matches Some(c) ==> c.source() == p,
        p == Probe::ClientSecret && !settings.complete() ==> r is None,
        p == Probe::ClientSecret && r is Some ==> settings.tenant_id->Some_0@.len() > 0
            && settings.client_id->Some_0@.len() > 0 && settings.client_secret->Some_0@.len() > 0,
        p == Probe::DeveloperTools ==> r is Some,
{
    match p {
        Probe::WorkloadIdentity => match workload_identity_credential() {
            Some(c) => Some(Credential::WorkloadIdentity(c)),
            None => None,
        },
        Probe::ClientSecret => match secret_triple(settings) {
            Some((tenant_id, client_id, secret)) => {
                match client_secret_credential(tenant_id.as_str(), client_id, secret) {
                    Some(c) => Some(Credential::ClientSecret(c)),
                    None => None,
                }
            },
            None => None,
        },
        Probe::DeveloperTools => match developer_tools_credential() {
            Some(c) => Some(Credential::DeveloperTools(c)),
            None => None,
        },
        Probe::ManagedIdentity => match managed_identity_credential() {
            Some(c) => Some(Credential::ManagedIdentity(c)),
            None => None,
        },
    }
}

/// The service principal source is among the tries exactly when workload
/// identity fails and all three settings are present.
proof fn lemma_client_secret_named_in_tries(o: ProbeOutcomes, complete: bool)
    ensures
        attempts(o, complete, Some(Probe::WorkloadIdentity)).contains(Probe::ClientSecret)
            <==> (!o.workload_identity && complete),
{
    reveal_with_fuel(attempts, 5);
    if !o.workload_identity {
        lemma_client_secret_tried_iff_complete(o, complete);
    } else {
        assert(attempts(o, complete, Some(Probe::WorkloadIdentity)) =~= seq![Probe::WorkloadIdentity]);
    }
}

/// Outcomes where no source gives a credential.
pub open spec fn none_succeed() -> ProbeOutcomes {
    ProbeOutcomes {
        workload_identity: false,
        client_secret: false,
        developer_tools: false,
        managed_identity: false,
    }
}

/// Outcomes where `p` alone gives a credential.
pub open spec fn only_succeeds(p: Probe) -> ProbeOutcomes {
    ProbeOutcomes {
        workload_identity: p == Probe::WorkloadIdentity,
        client_secret: p == Probe::ClientSecret,
        developer_tools: p == Probe::DeveloperTools,
        managed_identity: p == Probe::ManagedIdentity,
    }
}

/// Where every source before `p` fails and `p` succeeds, the chain keeps `p`
/// after trying the sources before it and then `p`.
proof fn lemma_chain_stops_at(complete: bool, p: Probe, tried: Seq<Probe>)
    requires
        tried + attempts(none_succeed(), complete, Some(p)) == attempts(
            none_succeed(),
            complete,
            Some(Probe::WorkloadIdentity),
        ),
        p != Probe::ManagedIdentity,
    ensures
        run_chain(only_succeeds(p), complete, Some(Probe::WorkloadIdentity)) == Some(p),
        attempts(only_succeeds(p), complete, Some(Probe::WorkloadIdentity)) == tried.push(p),
{
    reveal_with_fuel(attempts, 5);
    reveal_with_fuel(run_chain, 5);
    let full = attempts(none_succeed(), complete, Some(Probe::WorkloadIdentity));
    let rest = attempts(none_succeed(), complete, Some(p));
    assert(tried =~= full.subrange(0, full.len() - rest.len()));
    if complete {
        assert(full =~= seq![Probe::WorkloadIdentity, Probe::ClientSecret, Probe::DeveloperTools, Probe::ManagedIdentity]);
    } else {
        assert(full =~= seq![Probe::WorkloadIdentity, Probe::DeveloperTools, Probe::ManagedIdentity]);
    }
    match p {
        Probe::WorkloadIdentity => {
            assert(tried.push(p) =~= seq![p]);
        },
        Probe::ClientSecret => {
            assert(rest =~= seq![Probe::ClientSecret, Probe::DeveloperTools, Probe::ManagedIdentity]);
            assert(complete);
            assert(tried.push(p) =~= seq![Probe::WorkloadIdentity, p]);
        },
        Probe::DeveloperTools => {
            assert(rest =~= seq![Probe::DeveloperTools, Probe::ManagedIdentity]);
            if complete {
                assert(tried.push(p) =~= seq![Probe::WorkloadIdentity, Probe::ClientSecret, p]);
            } else {
                assert(tried.push(p) =~= seq![Probe::WorkloadIdentity, p]);
            }
        },
        Probe::ManagedIdentity => {},
    }
}

/// Tries the sources in order of precedence, each at most once, and keeps
/// the first credential that one of them gives; `chain_step` decides after
/// each try. Beside the result it returns, as ghost values, what each source
/// gave (`o`: a source not tried counts as failing) and the sources tried in
/// order (`tried`). The kept source is the chain's choice on `o`, and
/// `tried` is the chain's sequence of tries on `o`. The developer tools
/// source never fails, so the chain always ends with a credential and never
/// reaches managed identity.
pub fn obtain_credential(settings: &SecretSettings) -> (r: (
    Result<Credential, CredentialError>,
    Ghost<ProbeOutcomes>,
    Ghost<Seq<Probe>>,
))
    ensures
        (match r.0 { Ok(c) => Some(c.source()), Err(_) => None })
            == run_chain(r.1@, settings.complete(), Some(Probe::WorkloadIdentity)),
        r.2@ == attempts(r.1@, settings.complete(), Some(Probe::WorkloadIdentity)),
        (match r.0 { Ok(c) => Some(c.source()), Err(_) => None }) == first_available(r.1@, settings.complete()),
        r.2@.contains(Probe::ClientSecret) <==> (!r.1@.workload_identity && settings.complete()),
        r.0 is Ok,
        r.0 matches Ok(c) ==> c.source() != Probe::ManagedIdentity,
        r.0 matches Ok(c) && c.source() == Probe::ClientSecret ==> settings.complete(),
{
    let complete = settings.is_complete();
    let mut p = Probe::WorkloadIdentity;
    let ghost mut tried: Seq<Probe> = Seq::empty();
    proof {
        assert(tried + attempts(none_succeed(), complete, Some(p)) =~= attempts(
            none_succeed(),
            complete,
            Some(Probe::WorkloadIdentity),
        ));
    }
    loop
        invariant
            complete == settings.complete(),
            p != Probe::ManagedIdentity,
            tried + attempts(none_succeed(), complete, Some(p)) == attempts(
                none_succeed(),
                complete,
                Some(Probe::WorkloadIdentity),
            ),
        decreases remaining(Some(p)),
    {
        let got = try_probe(p, settings);
        match chain_step(p, got.is_some(), complete) {
            ChainStep::Keep => {
                proof {
                    lemma_chain_stops_at(complete, p, tried);
                    lemma_chain_selects_first_available(only_succeeds(p), complete);
                    lemma_client_secret_named_in_tries(only_succeeds(p), complete);
                    if p == Probe::ClientSecret {
                        assert(complete);
                    }
                }
                return match got {
                    Some(c) => (Ok(c), Ghost(only_succeeds(p)), Ghost(tried.push(p))),
                    None => (Err(CredentialError::NoSuitableCredential), Ghost(none_succeed()), Ghost(tried)),
                };
            },
            ChainStep::Try(q) => {
                proof {
                    reveal_with_fuel(attempts, 2);
                    assert((tried.push(p)) + attempts(none_succeed(), complete, Some(q)) =~= tried
                        + attempts(none_succeed(), complete, Some(p)));
                    tried = tried.push(p);
                }
                p = q;
            },
            ChainStep::Exhausted => {
                return (Err(CredentialError::NoSuitableCredential), Ghost(none_succeed()), Ghost(tried));
            },
        }
    }
}

} // verus!
