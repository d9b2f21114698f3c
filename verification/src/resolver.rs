//! The credential-resolution policy: given a provider identity and the
//! configuration snapshot, pick the credential and the preferred clone
//! protocol. SSH keys take precedence over tokens whenever an SSH URL is
//! available; tokens imply HTTPS; with neither, an anonymous HTTPS clone
//! is attempted (which only succeeds for public repositories).

use vstd::prelude::*;

use crate::config::{spec_find_instance, Config};
use crate::types::{CloneType, GitService, Repository};

verus! {

/// The credential resolved for one clone attempt; never persisted beyond it.
#[derive(Debug, Clone)]
pub enum Credential {
    /// A personal access token, used as a bearer credential over HTTPS.
    Token(String),
    /// A path to an SSH private key.
    SshKeyPath(String),
    /// No credential: anonymous access.
    Anonymous,
}

/// The token configured for a provider identity: the GitHub token, the
/// GitLab.com token, or the named self-hosted instance's token.
pub open spec fn spec_provider_token(identity: GitService, config: Config) -> Option<String> {
    match identity {
        GitService::GitHub => config.github_token,
        GitService::GitLab => config.gitlab_token,
        GitService::SelfHostedGitLab(name) => match spec_find_instance(
            config.gitlab_instance@,
            name@,
        ) {
            Some(inst) => inst.token,
            None => None,
        },
    }
}

/// The resolution policy, in order: a configured SSH key together with an
/// available SSH URL wins; else a configured provider token over HTTPS;
/// else anonymous HTTPS.
pub open spec fn spec_resolve(
    identity: GitService,
    config: Config,
    ssh_url_available: bool,
) -> (Credential, CloneType) {
    if config.ssh_key is Some && ssh_url_available {
        (Credential::SshKeyPath(config.ssh_key->0), CloneType::SSH)
    } else {
        match spec_provider_token(identity, config) {
            Some(t) => (Credential::Token(t), CloneType::HTTPS),
            None => (Credential::Anonymous, CloneType::HTTPS),
        }
    }
}

/// Resolve the credential and preferred protocol for cloning `repo` from
/// the provider `identity`; consulted once per clone request.
pub fn resolve(identity: &GitService, config: &Config, repo: &Repository) -> (r: (
    Credential,
    CloneType,
))
    ensures
        r == spec_resolve(*identity, *config, repo.ssh_url@.len() > 0),
{
    let ssh_url_available = !repo.ssh_url.as_str().is_empty();
    if ssh_url_available {
        if let Some(key) = &config.ssh_key {
            return (Credential::SshKeyPath(key.clone()), CloneType::SSH);
        }
    }
    let token: Option<&String> = match identity {
        GitService::GitHub => config.github_token.as_ref(),
        GitService::GitLab => config.gitlab_token.as_ref(),
        GitService::SelfHostedGitLab(name) => match config.find_instance(name.as_str()) {
            Some(inst) => inst.token.as_ref(),
            None => None,
        },
    };
    match token {
        Some(t) => (Credential::Token(t.clone()), CloneType::HTTPS),
        None => (Credential::Anonymous, CloneType::HTTPS),
    }
}

/// SSH precedence: with a global SSH key configured and an SSH URL
/// available, resolution picks the SSH key and the SSH protocol, whatever
/// tokens are configured.
pub proof fn lemma_ssh_precedence(identity: GitService, config: Config, ssh_url_available: bool)
    requires
        config.ssh_key is Some,
        ssh_url_available,
    ensures
        spec_resolve(identity, config, ssh_url_available) == (
            Credential::SshKeyPath(config.ssh_key->0),
            CloneType::SSH,
        ),
{
}

} // verus!
