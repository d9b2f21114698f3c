//! The orchestrator: lists the configured providers, builds the client
//! for an identity, aggregates a fan-out search's per-provider outcomes —
//! converting one provider's failure into a non-fatal warning rather than
//! aborting the query — and prepares a clone by resolving the credential
//! and protocol and consulting the clone engine. A clone failure, by
//! contrast, is propagated directly: clones have no partial success.

use vstd::prelude::*;

use crate::config::{spec_find_instance, Config};
use crate::git_service::git::{
    spec_refused_for_auth, spec_transport_auth, DestinationState, GitService as CloneEngine,
    TransportPlan,
};
use crate::git_service::github::GitHubService;
use crate::git_service::gitlab::GitLabService;
use crate::resolver::{resolve, spec_provider_token, spec_resolve, Credential};
use crate::types::{AppError, CloneType, GitService, Repository};

verus! {

/// One provider's answer to a fan-out search, tagged with the name of the
/// service that produced it.
#[derive(Debug)]
pub struct ProviderSearchOutcome {
    pub service_name: String,
    pub result: Result<Vec<Repository>, AppError>,
}

/// One repository found by a fan-out search, tagged with the originating
/// service's name.
#[derive(Debug)]
pub struct TaggedRepository {
    pub service_name: String,
    pub repository: Repository,
}

/// One provider's failure during a fan-out search, surfaced as a warning
/// beside the other providers' results.
#[derive(Debug)]
pub struct SearchWarning {
    pub service_name: String,
    pub error: AppError,
}

/// A provider client: either the GitHub client or a GitLab client for one
/// instance.
#[derive(Debug)]
pub enum ProviderClient {
    GitHub(GitHubService),
    GitLab(GitLabService),
}

/// Every repository of one provider's successful result, tagged with that
/// provider's name, in upstream order.
pub open spec fn spec_tag_all(name: String, repos: Seq<Repository>) -> Seq<TaggedRepository> {
    repos.map(|i: int, repo: Repository| TaggedRepository { service_name: name, repository: repo })
}

/// Fan-out aggregation: successful results are concatenated in outcome
/// order, each repository tagged with its service's name; failures become
/// warnings in outcome order, and never remove another provider's results.
pub open spec fn spec_aggregate(outcomes: Seq<ProviderSearchOutcome>) -> (
    Seq<TaggedRepository>,
    Seq<SearchWarning>,
)
    decreases outcomes.len(),
{
    if outcomes.len() == 0 {
        (Seq::<TaggedRepository>::empty(), Seq::<SearchWarning>::empty())
    } else {
        let prev = spec_aggregate(outcomes.drop_last());
        let last = outcomes.last();
        match last.result {
            Ok(repos) => (prev.0 + spec_tag_all(last.service_name, repos@), prev.1),
            Err(e) => (
                prev.0,
                prev.1.push(SearchWarning { service_name: last.service_name, error: e }),
            ),
        }
    }
}

/// The providers a query fans out to: GitHub, GitLab.com, then each
/// configured self-hosted instance in configuration order.
pub fn list_providers(config: &Config) -> (r: Vec<GitService>)
    ensures
        r@.len() == 2 + config.gitlab_instance@.len(),
        r@[0] == GitService::GitHub,
        r@[1] == GitService::GitLab,
        forall|i: int|
            0 <= i < config.gitlab_instance@.len() ==> r@[2 + i] == GitService::SelfHostedGitLab(
                config.gitlab_instance@[i].name,
            ),
{
    let mut r: Vec<GitService> = Vec::new();
    r.push(GitService::GitHub);
    r.push(GitService::GitLab);
    let n = config.gitlab_instance.len();
    let mut i: usize = 0;
    while i < n
        invariant
            0 <= i <= n,
            n == config.gitlab_instance@.len(),
            r@.len() == 2 + i,
            r@[0] == GitService::GitHub,
            r@[1] == GitService::GitLab,
            forall|j: int|
                0 <= j < i ==> r@[2 + j] == GitService::SelfHostedGitLab(
                    config.gitlab_instance@[j].name,
                ),
        decreases n - i,
    {
        r.push(GitService::SelfHostedGitLab(config.gitlab_instance[i].name.clone()));
        i = i + 1;
    }
    r
}

/// The client for a provider identity, wired with the credentials the
/// configuration holds for it; an unknown self-hosted instance name is a
/// configuration error.
pub fn client_for(identity: &GitService, config: &Config) -> (r: Result<ProviderClient, AppError>)
    ensures
        identity is GitHub ==> (r matches Ok(ProviderClient::GitHub(c)) && c.token
            == config.github_token && c.ssh_key == config.ssh_key),
        identity is GitLab ==> (r matches Ok(ProviderClient::GitLab(c)) && c.name@ == "GitLab"@
            && c.base_url@ == "https://gitlab.com"@ && c.token == config.gitlab_token
            && c.git_service.ssh_key == config.ssh_key),
        identity matches GitService::SelfHostedGitLab(n) ==> match spec_find_instance(
            config.gitlab_instance@,
            n@,
        ) {
            Some(inst) => (r matches Ok(ProviderClient::GitLab(c)) && c.name == inst.name
                && c.base_url == inst.url && c.token == inst.token && c.git_service.ssh_key
                == config.ssh_key),
            None => (r matches Err(AppError::ConfigError(m)) && m@ == n@
                + ": no such GitLab instance is configured"@),
        },
{
    match identity {
        GitService::GitHub => Ok(
            ProviderClient::GitHub(
                GitHubService::new(
                    crate::types::clone_optional_string(&config.github_token),
                    crate::types::clone_optional_string(&config.ssh_key),
                ),
            ),
        ),
        GitService::GitLab => Ok(
            ProviderClient::GitLab(
                GitLabService::new(
                    String::from_str("GitLab"),
                    String::from_str("https://gitlab.com"),
                    crate::types::clone_optional_string(&config.gitlab_token),
                    crate::types::clone_optional_string(&config.ssh_key),
                ),
            ),
        ),
        GitService::SelfHostedGitLab(n) => match config.find_instance(n.as_str()) {
            Some(inst) => Ok(
                ProviderClient::GitLab(
                    GitLabService::new(
                        inst.name.clone(),
                        inst.url.clone(),
                        crate::types::clone_optional_string(&inst.token),
                        crate::types::clone_optional_string(&config.ssh_key),
                    ),
                ),
            ),
            None => Err(
                AppError::ConfigError(
                    n.clone().concat(": no such GitLab instance is configured"),
                ),
            ),
        },
    }
}

/// Combine the per-provider outcomes of one fan-out search.
pub fn aggregate_search(outcomes: Vec<ProviderSearchOutcome>) -> (r: (
    Vec<TaggedRepository>,
    Vec<SearchWarning>,
))
    ensures
        r.0@ == spec_aggregate(outcomes@).0,
        r.1@ == spec_aggregate(outcomes@).1,
{
    let ghost orig = outcomes@;
    let mut rest = outcomes;
    let mut hits: Vec<TaggedRepository> = Vec::new();
    let mut warnings: Vec<SearchWarning> = Vec::new();
    proof {
        assert(orig.take(0) =~= Seq::<ProviderSearchOutcome>::empty());
    }
    while rest.len() > 0
        invariant
            rest@.len() <= orig.len(),
            rest@ =~= orig.skip(orig.len() - rest@.len()),
            hits@ == spec_aggregate(orig.take(orig.len() - rest@.len())).0,
            warnings@ == spec_aggregate(orig.take(orig.len() - rest@.len())).1,
        decreases rest@.len(),
    {
        let ghost i: int = orig.len() - rest@.len();
        let outcome = rest.remove(0);
        proof {
            assert(orig.skip(i)[0] == orig[i]);
            assert(outcome == orig[i]);
            assert(orig.skip(i).remove(0) =~= orig.skip(i + 1));
            assert(orig.take(i + 1).drop_last() =~= orig.take(i));
            assert(orig.take(i + 1).last() == orig[i]);
        }
        let ProviderSearchOutcome { service_name, result } = outcome;
        match result {
            Ok(mut repos) => {
                let ghost rorig = repos@;
                let ghost before = hits@;
                proof {
                    assert(rorig.take(0).map(
                        |k: int, repo: Repository| TaggedRepository { service_name, repository: repo },
                    ) =~= Seq::<TaggedRepository>::empty());
                    assert(hits@ =~= before + spec_tag_all(service_name, rorig.take(0)));
                }
                while repos.len() > 0
                    invariant
                        repos@.len() <= rorig.len(),
                        repos@ =~= rorig.skip(rorig.len() - repos@.len()),
                        hits@ =~= before + spec_tag_all(
                            service_name,
                            rorig.take(rorig.len() - repos@.len()),
                        ),
                    decreases repos@.len(),
                {
                    let ghost j: int = rorig.len() - repos@.len();
                    let repo = repos.remove(0);
                    proof {
                        assert(rorig.skip(j)[0] == rorig[j]);
                        assert(repo == rorig[j]);
                        assert(rorig.skip(j).remove(0) =~= rorig.skip(j + 1));
                    }
                    hits.push(TaggedRepository { service_name: service_name.clone(), repository: repo });
                    proof {
                        assert(spec_tag_all(service_name, rorig.take(j + 1)) =~= spec_tag_all(
                            service_name,
                            rorig.take(j),
                        ).push(TaggedRepository { service_name, repository: rorig[j] }));
                        assert(hits@ =~= before + spec_tag_all(service_name, rorig.take(j + 1)));
                    }
                }
                proof {
                    assert(rorig.take(rorig.len() as int) =~= rorig);
                    assert(hits@ =~= spec_aggregate(orig.take(i)).0 + spec_tag_all(
                        service_name,
                        rorig,
                    ));
                    assert(hits@ == spec_aggregate(orig.take(i + 1)).0);
                    assert(warnings@ == spec_aggregate(orig.take(i + 1)).1);
                }
            },
            Err(e) => {
                warnings.push(SearchWarning { service_name, error: e });
                proof {
                    assert(hits@ == spec_aggregate(orig.take(i + 1)).0);
                    assert(warnings@ =~= spec_aggregate(orig.take(i + 1)).1);
                }
            },
        }
    }
    proof {
        assert(orig.take(orig.len() as int) =~= orig);
    }
    (hits, warnings)
}

/// The other transport protocol.
pub open spec fn spec_other_protocol(p: CloneType) -> CloneType {
    match p {
        CloneType::HTTPS => CloneType::SSH,
        CloneType::SSH => CloneType::HTTPS,
    }
}

/// The protocol a clone will use: the caller's override, else the
/// resolver's preference — falling back to the other protocol when the
/// repository carries no URL for the first choice.
pub open spec fn spec_chosen_protocol(
    repo: Repository,
    preferred: CloneType,
    protocol_override: Option<CloneType>,
) -> CloneType {
    let first = match protocol_override {
        Some(p) => p,
        None => preferred,
    };
    if repo.spec_url_for(first).len() > 0 {
        first
    } else {
        spec_other_protocol(first)
    }
}

/// The credential picked afresh for a protocol, when the chosen protocol
/// is not the one the resolver preferred: the configured SSH key for SSH,
/// the provider's token for HTTPS, anonymous otherwise.
pub open spec fn spec_credential_for(
    identity: GitService,
    config: Config,
    protocol: CloneType,
) -> Credential {
    match protocol {
        CloneType::SSH => match config.ssh_key {
            Some(k) => Credential::SshKeyPath(k),
            None => Credential::Anonymous,
        },
        CloneType::HTTPS => match spec_provider_token(identity, config) {
            Some(t) => Credential::Token(t),
            None => Credential::Anonymous,
        },
    }
}

/// The credential a prepared clone will hand to the engine.
pub open spec fn spec_prepared_credential(
    identity: GitService,
    config: Config,
    repo: Repository,
    protocol_override: Option<CloneType>,
) -> Credential {
    let resolved = spec_resolve(identity, config, repo.ssh_url@.len() > 0);
    let chosen = spec_chosen_protocol(repo, resolved.1, protocol_override);
    if chosen == resolved.1 {
        resolved.0
    } else {
        spec_credential_for(identity, config, chosen)
    }
}

/// Prepare one clone: resolve the credential and protocol for the
/// identity, pick the matching transport URL, and consult the clone
/// engine against the observed destination state. On success the derived
/// repository copy carries the chosen protocol, and the transport plan is
/// ready for the driver; an error propagates directly and fatally, and
/// the destination has not been touched.
pub fn prepare_clone(
    identity: &GitService,
    config: &Config,
    repo: &Repository,
    destination_path: &String,
    destination: DestinationState,
    protocol_override: Option<CloneType>,
) -> (r: Result<(Repository, TransportPlan), AppError>)
    requires
        repo.wf(),
    ensures
        ({
            let resolved = spec_resolve(*identity, *config, repo.ssh_url@.len() > 0);
            let chosen = spec_chosen_protocol(*repo, resolved.1, protocol_override);
            let credential = spec_prepared_credential(*identity, *config, *repo, protocol_override);
            &&& r is Ok <==> !(destination is Populated) && !spec_refused_for_auth(
                chosen,
                credential,
                repo.private,
            )
            &&& r is Ok ==> {
                &&& r->Ok_0.0.clone_type == Some(chosen)
                &&& r->Ok_0.0.id == repo.id
                &&& r->Ok_0.0.full_name == repo.full_name
                &&& r->Ok_0.1.url@ == repo.spec_url_for(chosen)
                &&& r->Ok_0.1.auth == spec_transport_auth(config.ssh_key, chosen, credential)
            }
            &&& destination is Populated ==> (r matches Err(AppError::DestinationExists(p)) && p
                == *destination_path)
            &&& !(destination is Populated) && spec_refused_for_auth(chosen, credential, repo.private)
                ==> r matches Err(AppError::AuthenticationError(_))
        }),
{
    let (resolved_credential, preferred) = resolve(identity, config, repo);
    let first = match protocol_override {
        Some(p) => p,
        None => preferred,
    };
    let first_url_empty = match first {
        CloneType::HTTPS => repo.clone_url.as_str().is_empty(),
        CloneType::SSH => repo.ssh_url.as_str().is_empty(),
    };
    let chosen = if first_url_empty {
        match first {
            CloneType::HTTPS => CloneType::SSH,
            CloneType::SSH => CloneType::HTTPS,
        }
    } else {
        first
    };
    let credential = if chosen == preferred {
        resolved_credential
    } else {
        match chosen {
            CloneType::SSH => match &config.ssh_key {
                Some(k) => Credential::SshKeyPath(k.clone()),
                None => Credential::Anonymous,
            },
            CloneType::HTTPS => {
                let token: Option<&String> = match identity {
                    GitService::GitHub => config.github_token.as_ref(),
                    GitService::GitLab => config.gitlab_token.as_ref(),
                    GitService::SelfHostedGitLab(name) => match config.find_instance(
                        name.as_str(),
                    ) {
                        Some(inst) => inst.token.as_ref(),
                        None => None,
                    },
                };
                match token {
                    Some(t) => Credential::Token(t.clone()),
                    None => Credential::Anonymous,
                }
            },
        }
    };
    let url = match chosen {
        CloneType::HTTPS => repo.clone_url.clone(),
        CloneType::SSH => repo.ssh_url.clone(),
    };
    let engine = match &config.ssh_key {
        Some(k) => CloneEngine::with_ssh_key(k.clone()),
        None => CloneEngine::new(),
    };
    let plan = match engine.begin_clone(
        &url,
        chosen,
        &credential,
        repo.private,
        destination_path,
        destination,
    ) {
        Ok(p) => p,
        Err(e) => {
            return Err(e);
        },
    };
    Ok((repo.with_clone_type(chosen), plan))
}

} // verus!
