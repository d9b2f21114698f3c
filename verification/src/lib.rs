//! A client library for discovering and cloning repositories hosted on
//! heterogeneous git-hosting providers (GitHub, GitLab.com and self-hosted
//! GitLab instances).
//!
//! The library holds the provider abstraction and the clone-execution
//! engine: the repository model, the credential-resolution policy, the
//! request builders and response interpreters for each provider's REST
//! API, and the clone engine's decision logic with its cleanup invariant.
//! Network and filesystem work is performed by a thin unverified driver
//! around the library.

use vstd::prelude::*;

pub mod config;
pub mod git_service;
pub mod orchestrator;
pub mod resolver;
pub mod text;
pub mod types;

verus! {

/// The fixed page size every provider is queried with.
pub const PAGE_SIZE: u32 = 30;

} // verus!
