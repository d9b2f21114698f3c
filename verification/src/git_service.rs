//! The provider-client abstraction: the capability trait every provider
//! implements, the outbound request description handed to the unverified
//! HTTP driver, the normalized wire record handed back, and the shared
//! interpretation of a provider's paginated listing response.

use vstd::prelude::*;

use crate::text::spec_decimal;
use crate::types::{AppError, Repository};
use crate::PAGE_SIZE;

pub mod git;
pub mod github;
pub mod gitlab;

verus! {

/// The capability contract common to every provider client.
pub trait GitServiceTrait {
    /// The stable display name of the provider.
    spec fn spec_service_name(&self) -> Seq<char>;

    /// Whether a token or SSH key is available to this client.
    spec fn spec_authenticated(&self) -> bool;

    fn get_service_name(&self) -> (r: &str)
        ensures
            r@ == self.spec_service_name(),
    ;

    fn is_authenticated(&self) -> (r: bool)
        ensures
            r == self.spec_authenticated(),
    ;
}

/// One HTTP header of an outbound request.
#[derive(Debug)]
pub struct Header {
    pub name: String,
    pub value: String,
}

/// A fully described outbound GET request: the driver sends exactly this,
/// adding `Authorization: Bearer <token>` when `bearer_token` is present.
#[derive(Debug)]
pub struct ApiRequest {
    pub url: String,
    pub bearer_token: Option<String>,
    pub headers: Vec<Header>,
}

/// One repository as normalized from a provider's response body: plain
/// values only, in upstream order.
#[derive(Debug)]
pub struct RepoRecord {
    pub id: u64,
    pub name: String,
    pub full_name: String,
    pub description: Option<String>,
    pub clone_url: String,
    pub ssh_url: String,
    pub stars: u32,
    pub forks: u32,
    pub private: bool,
}

/// How a `Repository` value corresponds to the wire record it was built
/// from: the numeric id rendered in decimal, every other field carried
/// over, and no clone protocol chosen yet.
pub open spec fn spec_matches_record(repo: Repository, rec: RepoRecord) -> bool {
    &&& repo.id@ == spec_decimal(rec.id as int)
    &&& repo.name == rec.name
    &&& repo.full_name == rec.full_name
    &&& repo.description == rec.description
    &&& repo.clone_url == rec.clone_url
    &&& repo.ssh_url == rec.ssh_url
    &&& repo.stars == rec.stars
    &&& repo.forks == rec.forks
    &&& repo.private == rec.private
    &&& repo.clone_type is None
}

/// Build the canonical repository value from one wire record.
pub fn repository_from_record(rec: RepoRecord) -> (r: Repository)
    ensures
        spec_matches_record(r, rec),
{
    Repository {
        id: crate::text::u64_to_string(rec.id),
        name: rec.name,
        full_name: rec.full_name,
        description: rec.description,
        clone_url: rec.clone_url,
        ssh_url: rec.ssh_url,
        stars: rec.stars,
        forks: rec.forks,
        private: rec.private,
        clone_type: None,
    }
}

/// Whether an HTTP status code counts as success.
pub open spec fn spec_status_ok(status: u16) -> bool {
    200 <= status < 300
}

/// Interpret one paginated listing response, shared by `search` and
/// `listUserRepositories` of every provider: a non-success status is an
/// upstream error carrying status and body; a body that did not match the
/// expected schema is a decode error; otherwise the records become
/// `Repository` values, one for one, preserving upstream order — so a
/// valid page of at most `PAGE_SIZE` records yields at most `PAGE_SIZE`
/// repositories.
pub fn interpret_listing_response(
    status: u16,
    body: String,
    records: Result<Vec<RepoRecord>, String>,
) -> (r: Result<Vec<Repository>, AppError>)
    ensures
        r is Ok <==> spec_status_ok(status) && records is Ok,
        !spec_status_ok(status) ==> (r matches Err(AppError::UpstreamError { status: s, body: b })
            && s == status && b == body),
        spec_status_ok(status) && records is Err ==> (r matches Err(AppError::DecodeError(m)) && m
            == records->Err_0),
        spec_status_ok(status) && records is Ok ==> {
            &&& r->Ok_0@.len() == records->Ok_0@.len()
            &&& forall|i: int|
                0 <= i < records->Ok_0@.len() ==> spec_matches_record(
                    #[trigger] r->Ok_0@[i],
                    records->Ok_0@[i],
                )
            &&& records->Ok_0@.len() <= PAGE_SIZE ==> r->Ok_0@.len() <= PAGE_SIZE
        },
{
    if !(200 <= status && status < 300) {
        return Err(AppError::UpstreamError { status, body });
    }
    match records {
        Err(m) => Err(AppError::DecodeError(m)),
        Ok(mut rs) => {
            let ghost orig = rs@;
            let mut out: Vec<Repository> = Vec::new();
            while rs.len() > 0
                invariant
                    out@.len() + rs@.len() == orig.len(),
                    rs@ =~= orig.skip(out@.len() as int),
                    forall|i: int|
                        0 <= i < out@.len() ==> spec_matches_record(#[trigger] out@[i], orig[i]),
                decreases rs@.len(),
            {
                let rec = rs.remove(0);
                proof {
                    assert(orig.skip(out@.len() as int)[0] == orig[out@.len() as int]);
                    assert(orig.skip(out@.len() as int).remove(0) =~= orig.skip(
                        out@.len() as int + 1,
                    ));
                }
                let repo = repository_from_record(rec);
                out.push(repo);
            }
            Ok(out)
        },
    }
}

/// Idempotence of interpretation: two repository sequences built from the
/// same records — two searches with identical query and page answered
/// identically by a stable upstream — are structurally identical.
pub proof fn lemma_interpretation_idempotent(
    a: Seq<Repository>,
    b: Seq<Repository>,
    records: Seq<RepoRecord>,
)
    requires
        a.len() == records.len(),
        b.len() == records.len(),
        forall|i: int| 0 <= i < records.len() ==> spec_matches_record(#[trigger] a[i], records[i]),
        forall|i: int| 0 <= i < records.len() ==> spec_matches_record(#[trigger] b[i], records[i]),
    ensures
        a.len() == b.len(),
        forall|i: int|
            0 <= i < a.len() ==> {
                &&& (#[trigger] a[i]).id@ == b[i].id@
                &&& a[i].name == b[i].name
                &&& a[i].full_name == b[i].full_name
                &&& a[i].description == b[i].description
                &&& a[i].clone_url == b[i].clone_url
                &&& a[i].ssh_url == b[i].ssh_url
                &&& a[i].stars == b[i].stars
                &&& a[i].forks == b[i].forks
                &&& a[i].private == b[i].private
                &&& a[i].clone_type == b[i].clone_type
            },
{
}

/// What `urlencoding::encode` returns for a given string: a function of
/// the input characters alone.
pub uninterp spec fn encoded_query(s: Seq<char>) -> Seq<char>;

/// Relies on urlencoding::encode: percent-encodes every byte of the UTF-8
/// form of the input except alphanumerics and `-`, `_`, `.`, `~`; the
/// result depends on the input alone, and an empty input stays empty.
#[verifier::external_body]
pub fn encode_query(s: &str) -> (r: String)
    ensures
        r@ == encoded_query(s@),
        s@.len() == 0 ==> r@.len() == 0,
{
    urlencoding::encode(s).into_owned()
}

} // verus!
