//! The clone engine: the decision logic that drives one clone attempt.
//!
//! The engine itself performs no network or filesystem work. A clone is
//! driven in two phases by the unverified transport driver:
//!
//! 1. [`GitService::begin_clone`] validates the request against the
//!    observed destination state and decides the transport authentication;
//!    a rejected request means the driver never touches the filesystem.
//! 2. After the driver has run the transport, [`GitService::settle_clone`]
//!    maps the outcome to the final result and decides whether the
//!    destination directory the driver created must be removed again —
//!    the cleanup invariant: a failed attempt never leaves a
//!    partially-created destination behind.

use vstd::prelude::*;

use crate::resolver::Credential;
use crate::types::{AppError, CloneType};

verus! {

/// What the driver observed at the destination path before the attempt.
#[derive(Debug, Clone, Copy, PartialEq, Eq, Structural)]
pub enum DestinationState {
    /// No file or directory exists at the path.
    Missing,
    /// An empty directory exists at the path.
    EmptyDir,
    /// A non-empty directory (or other entry) exists at the path.
    Populated,
}

/// The authentication the transport must use.
#[derive(Debug, Clone)]
pub enum TransportAuth {
    /// Public/private key authentication with an explicit key path.
    SshKey(String),
    /// Public/private key authentication through the default SSH agent.
    SshAgent,
    /// A bearer token over HTTPS.
    HttpsToken(String),
    /// Anonymous HTTPS; only valid for public repositories.
    HttpsAnonymous,
}

/// Everything the transport driver needs to run one clone.
#[derive(Debug)]
pub struct TransportPlan {
    pub url: String,
    pub auth: TransportAuth,
}

/// How the transport phase ended.
#[derive(Debug, Clone)]
pub enum TransportOutcome {
    /// The checkout was written out completely.
    Completed,
    /// The credential was rejected, or key material was invalid or missing.
    AuthRejected(String),
    /// A network, host or repository-lookup failure.
    Failed(String),
}

/// The clone engine; stateless but for the optional SSH key path it falls
/// back to when the credential does not carry one.
#[derive(Debug)]
pub struct GitService {
    pub ssh_key: Option<String>,
}

/// The authentication chosen for a protocol and credential, falling back
/// to the engine's own key, then to the SSH agent.
pub open spec fn spec_transport_auth(
    engine_key: Option<String>,
    protocol: CloneType,
    credential: Credential,
) -> TransportAuth {
    match protocol {
        CloneType::SSH => match credential {
            Credential::SshKeyPath(p) => TransportAuth::SshKey(p),
            _ => match engine_key {
                Some(k) => TransportAuth::SshKey(k),
                None => TransportAuth::SshAgent,
            },
        },
        CloneType::HTTPS => match credential {
            Credential::Token(t) => TransportAuth::HttpsToken(t),
            _ => TransportAuth::HttpsAnonymous,
        },
    }
}

/// An anonymous HTTPS clone of a private repository is refused before the
/// transport ever runs.
pub open spec fn spec_refused_for_auth(
    protocol: CloneType,
    credential: Credential,
    repo_private: bool,
) -> bool {
    protocol is HTTPS && credential is Anonymous && repo_private
}

/// Whether a failed attempt must remove the destination directory: exactly
/// when this attempt created it.
pub open spec fn spec_cleanup(outcome: TransportOutcome, created_destination: bool) -> bool {
    !(outcome is Completed) && created_destination
}

/// Whether the destination path exists once an attempt is over, given
/// whether it existed before, whether the attempt created it, and whether
/// the attempt removed it.
pub open spec fn spec_destination_exists_after(
    existed_before: bool,
    created: bool,
    removed: bool,
) -> bool {
    if removed {
        false
    } else {
        existed_before || created
    }
}

/// Executable form of the destination model, for drivers and tests that
/// track what an attempt did to the destination path.
pub fn destination_exists_after(existed_before: bool, created: bool, removed: bool) -> (r: bool)
    ensures
        r == spec_destination_exists_after(existed_before, created, removed),
{
    if removed {
        false
    } else {
        existed_before || created
    }
}

impl GitService {
    /// An engine with no explicit SSH key: SSH clones without a key path in
    /// the credential fall back to the default SSH agent.
    pub fn new() -> (r: GitService)
        ensures
            r.ssh_key is None,
    {
        GitService { ssh_key: None }
    }

    /// An engine that falls back to the given SSH key path.
    pub fn with_ssh_key(ssh_key: String) -> (r: GitService)
        ensures
            r.ssh_key == Some(ssh_key),
    {
        GitService { ssh_key: Some(ssh_key) }
    }

    /// First phase of a clone: validate the request and decide the
    /// transport authentication.
    ///
    /// Success is owed exactly when the destination is not already
    /// populated and the request is not an anonymous HTTPS clone of a
    /// private repository; a populated destination is `DestinationExists`,
    /// the anonymous private clone is `AuthenticationError`. An error here
    /// means the driver has not touched the filesystem: the destination is
    /// exactly as it was observed.
    pub fn begin_clone(
        &self,
        url: &String,
        protocol: CloneType,
        credential: &Credential,
        repo_private: bool,
        destination_path: &String,
        destination: DestinationState,
    ) -> (r: Result<TransportPlan, AppError>)
        requires
            url@.len() > 0,
            protocol is SSH ==> !(credential is Token),
            protocol is HTTPS ==> !(credential is SshKeyPath),
        ensures
            r is Ok <==> !(destination is Populated) && !spec_refused_for_auth(
                protocol,
                *credential,
                repo_private,
            ),
            r is Ok ==> r->Ok_0.url == *url && r->Ok_0.auth == spec_transport_auth(
                self.ssh_key,
                protocol,
                *credential,
            ),
            destination is Populated ==> (r matches Err(AppError::DestinationExists(p)) && p
                == *destination_path),
            !(destination is Populated) && spec_refused_for_auth(
                protocol,
                *credential,
                repo_private,
            ) ==> (r matches Err(AppError::AuthenticationError(m)) && m@
                == "Repository is private and no credential is available"@),
    {
        if let DestinationState::Populated = destination {
            return Err(AppError::DestinationExists(destination_path.clone()));
        }
        let auth = match protocol {
            CloneType::SSH => match credential {
                Credential::SshKeyPath(p) => TransportAuth::SshKey(p.clone()),
                _ => match &self.ssh_key {
                    Some(k) => TransportAuth::SshKey(k.clone()),
                    None => TransportAuth::SshAgent,
                },
            },
            CloneType::HTTPS => match credential {
                Credential::Token(t) => TransportAuth::HttpsToken(t.clone()),
                _ => {
                    if repo_private {
                        return Err(
                            AppError::AuthenticationError(
                                String::from_str(
                                    "Repository is private and no credential is available",
                                ),
                            ),
                        );
                    }
                    TransportAuth::HttpsAnonymous
                },
            },
        };
        Ok(TransportPlan { url: url.clone(), auth })
    }

    /// Second phase of a clone: map the transport outcome to the final
    /// result, and decide the cleanup. The first component of the result
    /// tells the driver to remove the destination directory; it is set
    /// exactly when the attempt failed after creating it.
    pub fn settle_clone(&self, outcome: TransportOutcome, created_destination: bool) -> (r: (
        bool,
        Result<(), AppError>,
    ))
        ensures
            r.0 == spec_cleanup(outcome, created_destination),
            outcome is Completed <==> r.1 is Ok,
            outcome matches TransportOutcome::AuthRejected(m) ==> (r.1 matches Err(
                AppError::AuthenticationError(m2),
            ) && m2 == m),
            outcome matches TransportOutcome::Failed(m) ==> (r.1 matches Err(
                AppError::TransportError(m2),
            ) && m2 == m),
    {
        match outcome {
            TransportOutcome::Completed => (false, Ok(())),
            TransportOutcome::AuthRejected(m) => (
                created_destination,
                Err(AppError::AuthenticationError(m)),
            ),
            TransportOutcome::Failed(m) => (created_destination, Err(AppError::TransportError(m))),
        }
    }
}

/// Cleanup invariant: an attempt that fails after creating its destination
/// directory removes it again, so the destination path does not exist once
/// the attempt is over.
pub proof fn lemma_cleanup_on_failure(outcome: TransportOutcome)
    requires
        !(outcome is Completed),
    ensures
        spec_cleanup(outcome, true),
        !spec_destination_exists_after(false, true, spec_cleanup(outcome, true)),
{
}

/// A private repository cloned over HTTPS with no credential is refused
/// before the transport runs: with nothing created and nothing removed, a
/// previously non-existent destination stays non-existent.
pub proof fn lemma_private_anonymous_https_rejected(credential: Credential, repo_private: bool)
    requires
        credential is Anonymous,
        repo_private,
    ensures
        spec_refused_for_auth(CloneType::HTTPS, credential, repo_private),
        !spec_destination_exists_after(false, false, false),
{
}

} // verus!
