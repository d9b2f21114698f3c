//! Core value types: the repository model, clone protocols, provider
//! identities and the error taxonomy.

use vstd::prelude::*;

verus! {

/// The transport protocol chosen for a clone.
#[derive(Debug, Clone, Copy, PartialEq, Eq, Structural)]
pub enum CloneType {
    HTTPS,
    SSH,
}

/// A provider identity: GitHub, the well-known GitLab.com instance, or a
/// self-hosted GitLab instance named in the configuration.
#[derive(Debug, Clone)]
pub enum GitService {
    GitHub,
    GitLab,
    SelfHostedGitLab(String),
}

/// The canonical description of a remote repository, independent of which
/// provider produced it.
///
/// Invariant (`wf`): at least one of the two transport URLs is non-empty.
/// A `Repository` is an immutable value; choosing a protocol for a clone
/// produces a derived copy via [`Repository::with_clone_type`].
#[derive(Debug, Clone)]
pub struct Repository {
    pub id: String,
    pub name: String,
    pub full_name: String,
    pub description: Option<String>,
    pub clone_url: String,
    pub ssh_url: String,
    pub stars: u32,
    pub forks: u32,
    pub private: bool,
    pub clone_type: Option<CloneType>,
}

impl Repository {
    /// Well-formedness: a repository can be cloned over at least one transport.
    pub open spec fn wf(&self) -> bool {
        self.clone_url@.len() > 0 || self.ssh_url@.len() > 0
    }

    /// The URL matching a protocol choice.
    pub open spec fn spec_url_for(&self, protocol: CloneType) -> Seq<char> {
        match protocol {
            CloneType::HTTPS => self.clone_url@,
            CloneType::SSH => self.ssh_url@,
        }
    }

    /// Derived copy carrying the protocol chosen for a clone request; every
    /// other field is kept unchanged.
    pub fn with_clone_type(&self, protocol: CloneType) -> (r: Repository)
        ensures
            r.clone_type == Some(protocol),
            r.id == self.id,
            r.name == self.name,
            r.full_name == self.full_name,
            r.description == self.description,
            r.clone_url == self.clone_url,
            r.ssh_url == self.ssh_url,
            r.stars == self.stars,
            r.forks == self.forks,
            r.private == self.private,
            self.wf() ==> r.wf(),
    {
        Repository {
            id: self.id.clone(),
            name: self.name.clone(),
            full_name: self.full_name.clone(),
            description: match &self.description {
                Some(d) => Some(d.clone()),
                None => None,
            },
            clone_url: self.clone_url.clone(),
            ssh_url: self.ssh_url.clone(),
            stars: self.stars,
            forks: self.forks,
            private: self.private,
            clone_type: Some(protocol),
        }
    }
}

/// A transport URL together with the protocol it belongs to.
pub struct GitCloneType {
    pub url: String,
    pub clone_type: CloneType,
}

impl Repository {
    /// The transport URL of this repository for a protocol choice, paired
    /// with that protocol.
    pub fn clone_target(&self, protocol: CloneType) -> (r: GitCloneType)
        ensures
            r.clone_type == protocol,
            r.url@ == self.spec_url_for(protocol),
    {
        let url = match protocol {
            CloneType::HTTPS => self.clone_url.clone(),
            CloneType::SSH => self.ssh_url.clone(),
        };
        GitCloneType { url, clone_type: protocol }
    }
}

/// The error taxonomy shared by every component.
///
/// Every variant carries enough context (provider name, HTTP status,
/// underlying message) to be displayed directly by a caller.
#[derive(Debug, Clone)]
pub enum AppError {
    /// No credential is available where the API mandates one.
    AuthRequired(String),
    /// A non-success HTTP response from the provider's REST API.
    UpstreamError { status: u16, body: String },
    /// A response body that does not match the expected schema.
    DecodeError(String),
    /// A clone credential was rejected, or is missing for a private repository.
    AuthenticationError(String),
    /// The clone target already holds a non-empty directory.
    DestinationExists(String),
    /// A network or host failure during a clone.
    TransportError(String),
    /// Malformed or unreadable configuration.
    ConfigError(String),
}

impl AppError {
    /// The display text of an error: a human-readable prefix naming the
    /// kind, then the context the variant carries.
    pub open spec fn spec_message(&self) -> Seq<char> {
        match self {
            AppError::AuthRequired(m) => "Authentication required: "@ + m@,
            AppError::UpstreamError { status, body } => "Upstream error (status "@
                + crate::text::spec_decimal(*status as int) + "): "@ + body@,
            AppError::DecodeError(m) => "Decode error: "@ + m@,
            AppError::AuthenticationError(m) => "Authentication error: "@ + m@,
            AppError::DestinationExists(p) => "Destination already exists: "@ + p@,
            AppError::TransportError(m) => "Transport error: "@ + m@,
            AppError::ConfigError(m) => "Configuration error: "@ + m@,
        }
    }

    /// Render the error for direct display, with no further interpretation
    /// needed by the caller.
    pub fn message(&self) -> (r: String)
        ensures
            r@ == self.spec_message(),
    {
        match self {
            AppError::AuthRequired(m) => {
                let r = String::from_str("Authentication required: ").concat(m.as_str());
                proof {
                    assert(r@ =~= self.spec_message());
                }
                r
            },
            AppError::UpstreamError { status, body } => {
                let status_str = crate::text::u16_to_string(*status);
                let r = String::from_str("Upstream error (status ").concat(
                    status_str.as_str(),
                ).concat("): ").concat(body.as_str());
                proof {
                    assert(r@ =~= self.spec_message());
                }
                r
            },
            AppError::DecodeError(m) => {
                let r = String::from_str("Decode error: ").concat(m.as_str());
                proof {
                    assert(r@ =~= self.spec_message());
                }
                r
            },
            AppError::AuthenticationError(m) => {
                let r = String::from_str("Authentication error: ").concat(m.as_str());
                proof {
                    assert(r@ =~= self.spec_message());
                }
                r
            },
            AppError::DestinationExists(p) => {
                let r = String::from_str("Destination already exists: ").concat(p.as_str());
                proof {
                    assert(r@ =~= self.spec_message());
                }
                r
            },
            AppError::TransportError(m) => {
                let r = String::from_str("Transport error: ").concat(m.as_str());
                proof {
                    assert(r@ =~= self.spec_message());
                }
                r
            },
            AppError::ConfigError(m) => {
                let r = String::from_str("Configuration error: ").concat(m.as_str());
                proof {
                    assert(r@ =~= self.spec_message());
                }
                r
            },
        }
    }
}

pub type AppResult<T> = Result<T, AppError>;

/// A copy of an optional string, equal to the original.
pub fn clone_optional_string(o: &Option<String>) -> (r: Option<String>)
    ensures
        r == *o,
{
    match o {
        Some(s) => Some(s.clone()),
        None => None,
    }
}

} // verus!
