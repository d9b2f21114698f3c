//! The GitLab provider client, parameterized by a provider identity: it
//! serves both GitLab.com and every configured self-hosted instance.
//!
//! Unauthenticated search is permitted on GitLab; listing the
//! authenticated user's repositories requires a token. Clones delegate to
//! the composed clone engine.

use vstd::prelude::*;

use crate::git_service::git::{DestinationState, GitService, TransportPlan};
use crate::git_service::{encode_query, encoded_query, ApiRequest, GitServiceTrait};
use crate::resolver::Credential;
use crate::text::{spec_decimal, u32_to_string};
use crate::types::{clone_optional_string, AppError, CloneType};

verus! {

/// A GitLab client for one instance: the well-known GitLab.com identity or
/// a self-hosted one, with its display name, base URL, optional token and
/// the clone engine it delegates to.
#[derive(Debug)]
pub struct GitLabService {
    pub name: String,
    pub base_url: String,
    pub token: Option<String>,
    pub git_service: GitService,
}

/// The project-search endpoint of an instance for a query and 1-based page.
pub open spec fn spec_gitlab_search_url(base: Seq<char>, query: Seq<char>, page: int) -> Seq<
    char,
> {
    base + "/api/v4/projects?search="@ + encoded_query(query) + "&page="@ + spec_decimal(page)
        + "&per_page=30"@
}

/// The listing endpoint of an instance for the authenticated user's
/// projects.
pub open spec fn spec_gitlab_user_repos_url(base: Seq<char>, page: int) -> Seq<char> {
    base + "/api/v4/projects?membership=true&page="@ + spec_decimal(page) + "&per_page=30"@
}

impl GitLabService {
    pub fn new(name: String, base_url: String, token: Option<String>, ssh_key: Option<String>) -> (r:
        GitLabService)
        ensures
            r.name == name,
            r.base_url == base_url,
            r.token == token,
            r.git_service.ssh_key == ssh_key,
    {
        let git_service = match ssh_key {
            Some(k) => GitService::with_ssh_key(k),
            None => GitService::new(),
        };
        GitLabService { name, base_url, token, git_service }
    }

    /// The request for one page of project search. GitLab permits
    /// unauthenticated search, so the request is always owed; the token is
    /// attached when present.
    pub fn search_request(&self, query: &str, page: u32) -> (r: ApiRequest)
        requires
            query@.len() > 0,
            page >= 1,
        ensures
            r.url@ == spec_gitlab_search_url(self.base_url@, query@, page as int),
            r.bearer_token == self.token,
            r.headers@.len() == 0,
    {
        let encoded = encode_query(query);
        let page_str = u32_to_string(page);
        let url = self.base_url.clone().concat("/api/v4/projects?search=").concat(
            encoded.as_str(),
        ).concat("&page=").concat(page_str.as_str()).concat("&per_page=30");
        proof {
            assert(url@ =~= spec_gitlab_search_url(self.base_url@, query@, page as int));
        }
        ApiRequest { url, bearer_token: clone_optional_string(&self.token), headers: Vec::new() }
    }

    /// The request for one page of the authenticated user's projects, owed
    /// exactly when a token is configured; without one the result is
    /// `AuthRequired` naming this instance.
    pub fn user_repositories_request(&self, page: u32) -> (r: Result<ApiRequest, AppError>)
        requires
            page >= 1,
        ensures
            r is Ok <==> self.token is Some,
            self.token is None ==> (r matches Err(AppError::AuthRequired(m)) && m@ == self.name@
                + ": a personal access token is required to list your repositories"@),
            r is Ok ==> {
                &&& r->Ok_0.url@ == spec_gitlab_user_repos_url(self.base_url@, page as int)
                &&& r->Ok_0.bearer_token == self.token
                &&& r->Ok_0.headers@.len() == 0
            },
    {
        if self.token.is_none() {
            return Err(
                AppError::AuthRequired(
                    self.name.clone().concat(
                        ": a personal access token is required to list your repositories",
                    ),
                ),
            );
        }
        let page_str = u32_to_string(page);
        let url = self.base_url.clone().concat("/api/v4/projects?membership=true&page=").concat(
            page_str.as_str(),
        ).concat("&per_page=30");
        proof {
            assert(url@ =~= spec_gitlab_user_repos_url(self.base_url@, page as int));
        }
        Ok(
            ApiRequest {
                url,
                bearer_token: clone_optional_string(&self.token),
                headers: Vec::new(),
            },
        )
    }

    /// Delegate the first phase of a clone to the composed engine, with
    /// the engine's contract.
    pub fn begin_clone(
        &self,
        url: &String,
        protocol: CloneType,
        credential: &Credential,
        repo_private: bool,
        destination_path: &String,
        destination: DestinationState,
    ) -> (r: Result<TransportPlan, AppError>)
        requires
            url@.len() > 0,
            protocol is SSH ==> !(credential is Token),
            protocol is HTTPS ==> !(credential is SshKeyPath),
        ensures
            r is Ok <==> !(destination is Populated)
                && !crate::git_service::git::spec_refused_for_auth(
                protocol,
                *credential,
                repo_private,
            ),
            r is Ok ==> r->Ok_0.url == *url && r->Ok_0.auth
                == crate::git_service::git::spec_transport_auth(
                self.git_service.ssh_key,
                protocol,
                *credential,
            ),
            destination is Populated ==> (r matches Err(AppError::DestinationExists(p)) && p
                == *destination_path),
    {
        self.git_service.begin_clone(
            url,
            protocol,
            credential,
            repo_private,
            destination_path,
            destination,
        )
    }
}

impl GitServiceTrait for GitLabService {
    open spec fn spec_service_name(&self) -> Seq<char> {
        self.name@
    }

    open spec fn spec_authenticated(&self) -> bool {
        self.token is Some || self.git_service.ssh_key is Some
    }

    fn get_service_name(&self) -> (r: &str) {
        self.name.as_str()
    }

    fn is_authenticated(&self) -> (r: bool) {
        self.token.is_some() || self.git_service.ssh_key.is_some()
    }
}

} // verus!
