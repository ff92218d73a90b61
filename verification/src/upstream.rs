//! The client side of the upstream service: which requests are made, and how
//! what comes back is read.
//!
//! Two lookups exist. One resolves a pull request to its merge commit, the
//! other compares a commit against a branch. This module says what each
//! request looks like and what each decoded answer means; sending a request
//! and decoding the body of its answer is left to the caller.

use vstd::prelude::*;
use vstd::string::*;
use crate::error::UpstreamError;
use crate::numeral::{decimal, decimal_digits};
use crate::outcome::{Comparison, ComparisonOutcome, Report};
use crate::registry::BranchSlot;

verus! {

/// The decoded answer to the lookup of a pull request.
#[derive(Clone, Debug, PartialEq, Eq)]
pub struct PRResponse {
    /// The merge commit of the pull request, if the answer names one.
    pub merge_commit_sha: Option<String>,
}

/// The decoded answer to the comparison of a commit against a branch.
#[derive(Clone, Debug, PartialEq, Eq)]
pub struct BranchResponse {
    /// The status word of the comparison.
    pub status: String,
}

/// A request to the upstream service: where it goes and the headers it carries,
/// each header a name and a value.
#[derive(Clone, Debug, PartialEq, Eq)]
pub struct UpstreamRequest {
    pub url: String,
    pub headers: Vec<(String, String)>,
}

/// The content of a request.
pub struct RequestView {
    pub url: Seq<char>,
    pub headers: Seq<(Seq<char>, Seq<char>)>,
}

impl View for UpstreamRequest {
    type V = RequestView;

    open spec fn view(&self) -> RequestView {
        RequestView { url: self.url@, headers: self.headers.deep_view() }
    }
}

/// The address at which pull request `pr` is looked up.
pub open spec fn pull_address(pr: u32) -> Seq<char> {
    "https://api.github.com/repos/nixos/nixpkgs/pulls/"@ + decimal_digits(pr as nat)
}

/// The address at which `commit` is compared against `branch`.
pub open spec fn compare_address(branch: Seq<char>, commit: Seq<char>) -> Seq<char> {
    "https://api.github.com/repos/nixos/nixpkgs/compare/"@ + branch + "..."@ + commit
}

/// The headers of every request: who asks, what kind of answer is wanted, and
/// the bearer credential made from `api_key`.
pub open spec fn request_headers(api_key: Seq<char>) -> Seq<(Seq<char>, Seq<char>)> {
    seq![
        ("user-agent"@, "nixstats"@),
        ("accept"@, "application/vnd.github+json"@),
        ("authorization"@, "Bearer "@ + api_key),
    ]
}

/// Whether `hyper::Uri` takes `text` for a URI: the answer of its `FromStr`
/// implementation to the question whether `text` parses. The grammar behind
/// the answer is `hyper`'s and is not written out here; all that is used of it
/// is that the answer depends on the text alone.
pub uninterp spec fn uri_accepts(text: Seq<char>) -> bool;

/// The request that goes to `address`, if the address is `accepted` as a URI.
pub open spec fn request_to(address: Seq<char>, accepted: bool, api_key: Seq<char>) -> Result<
    RequestView,
    UpstreamError,
> {
    if accepted {
        Ok(RequestView { url: address, headers: request_headers(api_key) })
    } else {
        Err(UpstreamError::Unavailable)
    }
}

/// The view of a request that may have failed to be made.
pub open spec fn request_view(r: Result<UpstreamRequest, UpstreamError>) -> Result<
    RequestView,
    UpstreamError,
> {
    match r {
        Ok(request) => Ok(request@),
        Err(error) => Err(error),
    }
}

/// What the decoded answer to the lookup of a pull request means; `None`
/// stands for an answer that did not arrive or could not be decoded.
pub open spec fn resolution(reply: Option<PRResponse>) -> Result<Seq<char>, UpstreamError> {
    match reply {
        None => Err(UpstreamError::Unavailable),
        Some(PRResponse { merge_commit_sha: None }) => Err(UpstreamError::NotFound),
        Some(PRResponse { merge_commit_sha: Some(commit) }) => Ok(commit@),
    }
}

/// The view of a commit that may have failed to resolve.
pub open spec fn commit_view(r: Result<String, UpstreamError>) -> Result<Seq<char>, UpstreamError> {
    match r {
        Ok(commit) => Ok(commit@),
        Err(error) => Err(error),
    }
}

/// What the decoded answer to the comparison against the branch at `position`
/// means; `None` stands for an answer that did not arrive or could not be
/// decoded. An answer whose status word stands for no outcome is a failure:
/// no outcome is ever made up.
pub open spec fn reported(position: usize, reply: Option<BranchResponse>) -> Report {
    match reply {
        None => Err(UpstreamError::Unavailable),
        Some(answer) => match ComparisonOutcome::of_status(answer.status@) {
            None => Err(UpstreamError::Unavailable),
            Some(outcome) => Ok(Comparison { position, outcome }),
        },
    }
}

/// Asks `hyper::Uri` (the `Uri` of the `http` crate, which `hyper` hands on)
/// whether `text` parses, by `str::parse`, which calls `Uri`'s `from_str`.
///
/// This contract is taken on trust. It claims that the answer is `uri_accepts`
/// of the text, which is to say that the same text gets the same answer every
/// time; it claims nothing of which texts parse.
#[verifier::external_body]
fn parses_as_uri(text: &str) -> (accepted: bool)
    ensures
        accepted == uri_accepts(text@),
{
    text.parse::<hyper::Uri>().is_ok()
}

/// Returns the address at which pull request `pr` is looked up.
pub fn pull_url(pr: u32) -> (url: String)
    ensures
        url@ == pull_address(pr),
{
    let mut url = String::from_str("https://api.github.com/repos/nixos/nixpkgs/pulls/");
    let number = decimal(pr);
    url.append(number.as_str());
    url
}

/// Returns the address at which `commit` is compared against `branch`.
pub fn compare_url(branch: &str, commit: &str) -> (url: String)
    ensures
        url@ == compare_address(branch@, commit@),
{
    let mut url = String::from_str("https://api.github.com/repos/nixos/nixpkgs/compare/");
    url.append(branch);
    url.append("...");
    url.append(commit);
    url
}

/// Returns the headers of every request, with the bearer credential made from `api_key`.
pub fn headers(api_key: &str) -> (list: Vec<(String, String)>)
    ensures
        list.deep_view() == request_headers(api_key@),
{
    let mut bearer = String::from_str("Bearer ");
    bearer.append(api_key);
    let mut list: Vec<(String, String)> = Vec::new();
    list.push((String::from_str("user-agent"), String::from_str("nixstats")));
    list.push((String::from_str("accept"), String::from_str("application/vnd.github+json")));
    list.push((String::from_str("authorization"), bearer));
    assert(list.deep_view() =~= request_headers(api_key@));
    list
}

/// Makes the request that goes to `url`, given whether `url` was accepted as a
/// URI: the request with the common headers if it was, `Unavailable` if not.
pub fn request(url: String, accepted: bool, api_key: &str) -> (r: Result<
    UpstreamRequest,
    UpstreamError,
>)
    ensures
        request_view(r) == request_to(url@, accepted, api_key@),
{
    if accepted {
        Ok(UpstreamRequest { url, headers: headers(api_key) })
    } else {
        Err(UpstreamError::Unavailable)
    }
}

/// Makes the request that looks up pull request `pr`. It fails with
/// `Unavailable` if its address is not accepted as a URI.
pub fn pull_request(pr: u32, api_key: &str) -> (r: Result<UpstreamRequest, UpstreamError>)
    ensures
        request_view(r) == request_to(
            pull_address(pr),
            uri_accepts(pull_address(pr)),
            api_key@,
        ),
{
    let url = pull_url(pr);
    let accepted = parses_as_uri(url.as_str());
    request(url, accepted, api_key)
}

/// Makes the request that compares `commit` against the branch of `slot`. It
/// fails with `Unavailable` if its address is not accepted as a URI.
pub fn compare_request(slot: &BranchSlot, commit: &str, api_key: &str) -> (r: Result<
    UpstreamRequest,
    UpstreamError,
>)
    ensures
        request_view(r) == request_to(
            compare_address(slot.name@, commit@),
            uri_accepts(compare_address(slot.name@, commit@)),
            api_key@,
        ),
{
    let url = compare_url(slot.name.as_str(), commit);
    let accepted = parses_as_uri(url.as_str());
    request(url, accepted, api_key)
}

/// Reads the merge commit off the decoded answer to the lookup of a pull
/// request: `Unavailable` where no answer could be decoded, `NotFound` where
/// the answer names no merge commit.
pub fn merge_commit(reply: Option<PRResponse>) -> (r: Result<String, UpstreamError>)
    ensures
        commit_view(r) == resolution(reply),
{
    match reply {
        None => Err(UpstreamError::Unavailable),
        Some(answer) => match answer.merge_commit_sha {
            None => Err(UpstreamError::NotFound),
            Some(commit) => Ok(commit),
        },
    }
}

/// Reads the outcome off the decoded answer to the comparison against the
/// branch at `position`: `Unavailable` where no answer could be decoded or its
/// status word stands for no outcome.
pub fn comparison(position: usize, reply: Option<BranchResponse>) -> (r: Report)
    ensures
        r == reported(position, reply),
{
    match reply {
        None => Err(UpstreamError::Unavailable),
        Some(answer) => match ComparisonOutcome::from_status(answer.status.as_str()) {
            None => Err(UpstreamError::Unavailable),
            Some(outcome) => Ok(Comparison { position, outcome }),
        },
    }
}

} // verus!
