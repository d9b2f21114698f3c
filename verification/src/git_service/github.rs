//! The GitHub provider client: request building for the GitHub REST API.
//!
//! GitHub enforces anonymous rate limits tight enough that this client
//! requires a token for every browsing call; without one it reports
//! `AuthRequired` instead of issuing a request.

use vstd::prelude::*;

use crate::git_service::{encode_query, encoded_query, ApiRequest, GitServiceTrait, Header};
use crate::text::{spec_decimal, u32_to_string};
use crate::types::{clone_optional_string, AppError};

verus! {

/// The GitHub client: one fixed identity, authenticated by an optional
/// personal access token; the SSH key only bears on `isAuthenticated`.
#[derive(Debug)]
pub struct GitHubService {
    pub token: Option<String>,
    pub ssh_key: Option<String>,
}

/// The GitHub repository-search endpoint for a query and 1-based page.
pub open spec fn spec_github_search_url(query: Seq<char>, page: int) -> Seq<char> {
    "https://api.github.com/search/repositories?q="@ + encoded_query(query) + "&page="@
        + spec_decimal(page) + "&per_page=30"@
}

/// The GitHub listing endpoint for the authenticated user's repositories.
pub open spec fn spec_github_user_repos_url(page: int) -> Seq<char> {
    "https://api.github.com/user/repos?page="@ + spec_decimal(page) + "&per_page=30"@
}

/// The three fixed headers every GitHub request carries: an identifying
/// user agent, the GitHub JSON media type, and the pinned API version.
pub open spec fn spec_github_headers(hs: Seq<Header>) -> bool {
    &&& hs.len() == 3
    &&& hs[0].name@ == "User-Agent"@ && hs[0].value@ == "git-tui-cloner/0.1.0"@
    &&& hs[1].name@ == "Accept"@ && hs[1].value@ == "application/vnd.github+json"@
    &&& hs[2].name@ == "X-GitHub-Api-Version"@ && hs[2].value@ == "2022-11-28"@
}

/// The message reported when browsing is attempted without a token.
pub open spec fn spec_github_token_warning() -> Seq<char> {
    "GitHub: To prevent hitting rate limits, please provide a GitHub token"@
}

impl GitHubService {
    pub fn new(token: Option<String>, ssh_key: Option<String>) -> (r: GitHubService)
        ensures
            r.token == token,
            r.ssh_key == ssh_key,
    {
        GitHubService { token, ssh_key }
    }

    /// The request for `url`, carrying the client's token and the fixed
    /// GitHub headers.
    fn build_request(&self, url: String) -> (r: ApiRequest)
        ensures
            r.url == url,
            r.bearer_token == self.token,
            spec_github_headers(r.headers@),
    {
        let mut headers: Vec<Header> = Vec::new();
        headers.push(
            Header {
                name: String::from_str("User-Agent"),
                value: String::from_str("git-tui-cloner/0.1.0"),
            },
        );
        headers.push(
            Header {
                name: String::from_str("Accept"),
                value: String::from_str("application/vnd.github+json"),
            },
        );
        headers.push(
            Header {
                name: String::from_str("X-GitHub-Api-Version"),
                value: String::from_str("2022-11-28"),
            },
        );
        ApiRequest { url, bearer_token: clone_optional_string(&self.token), headers }
    }

    /// The request for one page of repository search, owed exactly when a
    /// token is configured; without one the result is the `AuthRequired`
    /// rate-limit warning and no request is issued.
    pub fn search_request(&self, query: &str, page: u32) -> (r: Result<ApiRequest, AppError>)
        requires
            query@.len() > 0,
            page >= 1,
        ensures
            r is Ok <==> self.token is Some,
            self.token is None ==> (r matches Err(AppError::AuthRequired(m)) && m@
                == spec_github_token_warning()),
            r is Ok ==> {
                &&& r->Ok_0.url@ == spec_github_search_url(query@, page as int)
                &&& r->Ok_0.bearer_token == self.token
                &&& spec_github_headers(r->Ok_0.headers@)
            },
    {
        if self.token.is_none() {
            return Err(
                AppError::AuthRequired(
                    String::from_str(
                        "GitHub: To prevent hitting rate limits, please provide a GitHub token",
                    ),
                ),
            );
        }
        let encoded = encode_query(query);
        let page_str = u32_to_string(page);
        let url = String::from_str("https://api.github.com/search/repositories?q=").concat(
            encoded.as_str(),
        ).concat("&page=").concat(page_str.as_str()).concat("&per_page=30");
        proof {
            assert(url@ =~= spec_github_search_url(query@, page as int));
        }
        Ok(self.build_request(url))
    }

    /// The request for one page of the authenticated user's repositories,
    /// owed exactly when a token is configured.
    pub fn user_repositories_request(&self, page: u32) -> (r: Result<ApiRequest, AppError>)
        requires
            page >= 1,
        ensures
            r is Ok <==> self.token is Some,
            self.token is None ==> (r matches Err(AppError::AuthRequired(m)) && m@
                == spec_github_token_warning()),
            r is Ok ==> {
                &&& r->Ok_0.url@ == spec_github_user_repos_url(page as int)
                &&& r->Ok_0.bearer_token == self.token
                &&& spec_github_headers(r->Ok_0.headers@)
            },
    {
        if self.token.is_none() {
            return Err(
                AppError::AuthRequired(
                    String::from_str(
                        "GitHub: To prevent hitting rate limits, please provide a GitHub token",
                    ),
                ),
            );
        }
        let page_str = u32_to_string(page);
        let url = String::from_str("https://api.github.com/user/repos?page=").concat(
            page_str.as_str(),
        ).concat("&per_page=30");
        proof {
            assert(url@ =~= spec_github_user_repos_url(page as int));
        }
        Ok(self.build_request(url))
    }
}

impl GitServiceTrait for GitHubService {
    open spec fn spec_service_name(&self) -> Seq<char> {
        "GitHub"@
    }

    open spec fn spec_authenticated(&self) -> bool {
        self.token is Some || self.ssh_key is Some
    }

    fn get_service_name(&self) -> (r: &str) {
        "GitHub"
    }

    fn is_authenticated(&self) -> (r: bool) {
        self.token.is_some() || self.ssh_key.is_some()
    }
}

} // verus!
