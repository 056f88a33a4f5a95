//! Certificate provisioning manager: before the TLS listener binds, a valid
//! certificate and private key must exist on disk as a unit. The manager is
//! a blocking, run-once state machine — Check, then either Ready directly or
//! a Requesting pass that drives an ACME-style domain validation; any failure
//! there aborts startup. The file probing and the network calls themselves
//! are outside work: the shell performs them and feeds the outcomes back in
//! as events.

use vstd::prelude::*;

verus! {

/// Domain used when the environment does not override it.
pub const DEFAULT_DOMAIN: &'static str = "publicip.jmcateer.pw";

/// The provisioning manager's state.
#[derive(PartialEq, Eq, Structural, Clone, Copy, Debug)]
pub enum CertState {
    /// Startup: the certificate and key files are about to be probed.
    Check,
    /// At least one artifact was absent: domain validation is running.
    Requesting,
    /// Both artifacts are resolved; the listener may bind.
    Ready,
    /// Provisioning failed: startup must abort.
    Failed,
}

/// An outcome of outside work, fed back into the state machine.
#[derive(PartialEq, Eq, Structural, Clone, Copy, Debug)]
pub enum CertEvent {
    /// The disk was probed for the two artifacts.
    FilesChecked { cert_present: bool, key_present: bool },
    /// Domain validation ran through and both artifacts were persisted.
    ProvisionSucceeded,
    /// Some provisioning step raised an unrecoverable error.
    ProvisionFailed,
}

/// What the shell must do next.
#[derive(PartialEq, Eq, Structural, Clone, Copy, Debug)]
pub enum CertAction {
    /// Load certificate and key from disk for the TLS listener.
    LoadFromDisk,
    /// Drive the external domain-validation protocol.
    RunProvisioning,
    /// Abort startup; the listener never binds.
    AbortStartup,
    /// Nothing: the event does not apply to the state.
    NoWork,
}

/// The transition relation: both artifacts present moves Check straight to
/// Ready; a missing artifact moves it to Requesting, whose outcome decides
/// between Ready and Failed. Terminal states never move, and an event that
/// does not apply to the state changes nothing.
pub open spec fn cert_step_model(s: CertState, e: CertEvent) -> (CertState, CertAction) {
    match (s, e) {
        (CertState::Check, CertEvent::FilesChecked { cert_present, key_present }) => {
            if cert_present && key_present {
                (CertState::Ready, CertAction::LoadFromDisk)
            } else {
                (CertState::Requesting, CertAction::RunProvisioning)
            }
        },
        (CertState::Requesting, CertEvent::ProvisionSucceeded) => (
            CertState::Ready,
            CertAction::LoadFromDisk,
        ),
        (CertState::Requesting, CertEvent::ProvisionFailed) => (
            CertState::Failed,
            CertAction::AbortStartup,
        ),
        _ => (s, CertAction::NoWork),
    }
}

/// Advances the provisioning state machine by one event.
pub fn cert_step(s: CertState, e: CertEvent) -> (r: (CertState, CertAction))
    ensures
        r == cert_step_model(s, e),
{
    match (s, e) {
        (CertState::Check, CertEvent::FilesChecked { cert_present, key_present }) => {
            if cert_present && key_present {
                (CertState::Ready, CertAction::LoadFromDisk)
            } else {
                (CertState::Requesting, CertAction::RunProvisioning)
            }
        },
        (CertState::Requesting, CertEvent::ProvisionSucceeded) => (
            CertState::Ready,
            CertAction::LoadFromDisk,
        ),
        (CertState::Requesting, CertEvent::ProvisionFailed) => (
            CertState::Failed,
            CertAction::AbortStartup,
        ),
        _ => (s, CertAction::NoWork),
    }
}

/// Law: when both artifacts already exist on disk at startup, the manager
/// reaches Ready directly from Check and asks for no provisioning call.
pub proof fn lemma_existing_artifacts_skip_provisioning(e: CertEvent)
    requires
        e matches CertEvent::FilesChecked { cert_present, key_present } && cert_present
            && key_present,
    ensures
        cert_step_model(CertState::Check, e).0 == CertState::Ready,
        cert_step_model(CertState::Check, e).1 != CertAction::RunProvisioning,
{
}

/// The steps of one Requesting pass, in the order the domain-validation
/// protocol takes them.
#[derive(PartialEq, Eq, Structural, Clone, Copy, Debug)]
pub enum ProvPhase {
    /// Register or obtain an account with the certificate authority.
    Register,
    /// Create the domain authorization.
    Authorize,
    /// Fetch the HTTP challenge and write its key authorization file.
    Challenge,
    /// Serve the file over plaintext port 80 and ask for validation.
    Validate,
    /// Request the signed certificate.
    Sign,
    /// Persist certificate and private key to their configured paths.
    Persist,
    /// The pass ran through: both artifacts are on disk.
    Complete,
    /// Some step failed: the pass is over and startup must abort.
    Aborted,
}

/// The phase after `p`, when the work of `p` succeeds.
pub open spec fn prov_next(p: ProvPhase) -> ProvPhase {
    match p {
        ProvPhase::Register => ProvPhase::Authorize,
        ProvPhase::Authorize => ProvPhase::Challenge,
        ProvPhase::Challenge => ProvPhase::Validate,
        ProvPhase::Validate => ProvPhase::Sign,
        ProvPhase::Sign => ProvPhase::Persist,
        ProvPhase::Persist => ProvPhase::Complete,
        ProvPhase::Complete => ProvPhase::Complete,
        ProvPhase::Aborted => ProvPhase::Aborted,
    }
}

/// Whether a phase ends the pass.
pub open spec fn prov_terminal(p: ProvPhase) -> bool {
    p == ProvPhase::Complete || p == ProvPhase::Aborted
}

/// Advances one provisioning pass by the outcome of the current phase's
/// outside work: success moves to the next step, any failure ends the pass
/// in Aborted, and a terminal phase never moves.
pub fn prov_advance(p: ProvPhase, ok: bool) -> (r: ProvPhase)
    ensures
        prov_terminal(p) ==> r == p,
        !prov_terminal(p) && ok ==> r == prov_next(p),
        !prov_terminal(p) && !ok ==> r == ProvPhase::Aborted,
{
    match p {
        ProvPhase::Complete => ProvPhase::Complete,
        ProvPhase::Aborted => ProvPhase::Aborted,
        _ => {
            if ok {
                match p {
                    ProvPhase::Register => ProvPhase::Authorize,
                    ProvPhase::Authorize => ProvPhase::Challenge,
                    ProvPhase::Challenge => ProvPhase::Validate,
                    ProvPhase::Validate => ProvPhase::Sign,
                    ProvPhase::Sign => ProvPhase::Persist,
                    _ => ProvPhase::Complete,
                }
            } else {
                ProvPhase::Aborted
            }
        },
    }
}

/// The domain the certificate is issued for: the environment's override
/// when one is set, the fixed default otherwise.
pub fn effective_domain(env_override: Option<String>) -> (r: String)
    ensures
        match env_override {
            Some(v) => r@ == v@,
            None => r@ == DEFAULT_DOMAIN@,
        },
{
    match env_override {
        Some(v) => v,
        None => DEFAULT_DOMAIN.to_owned(),
    }
}

/// The deterministic pair of artifact paths for `domain` under the
/// application data directory `data_dir`: first the certificate file,
/// then the private-key file.
pub fn cert_paths(data_dir: &str, domain: &str) -> (r: (String, String))
    ensures
        r.0@ == data_dir@ + "/"@ + domain@ + ".pem"@,
        r.1@ == data_dir@ + "/"@ + domain@ + ".key"@,
{
    let mut cert = data_dir.to_owned();
    cert.append("/");
    cert.append(domain);
    let mut key = cert.clone();
    cert.append(".pem");
    key.append(".key");
    (cert, key)
}

} // verus!
