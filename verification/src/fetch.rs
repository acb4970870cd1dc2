//! The redirect-following core of the fetcher.
//!
//! One request/response exchange is a hop.  The driver keeps requesting
//! until a response status falls in the success class (the body is
//! delivered), a redirection-class response lacks a `Location` header, or a
//! status outside both classes arrives.  Transport work (connecting,
//! sending, reading) is the caller's: this module decides, over plain
//! values, what each response means and what the next step is.

use vstd::prelude::*;
use vstd::string::StrSliceExecFns;
use crate::errors::ProtocolError;

verus! {

/// One HTTP response as the redirect driver sees it: the status code, the
/// `Location` header if one was present, and the body bytes.
#[derive(Debug, Clone)]
pub struct HttpResponse {
    pub status: u16,
    pub location: Option<String>,
    pub body: Vec<u8>,
}

/// The success class of response statuses.
pub open spec fn is_success_status(status: u16) -> bool {
    200 <= status < 300
}

/// The redirection class of response statuses.
pub open spec fn is_redirect_status(status: u16) -> bool {
    300 <= status < 400
}

/// Runtime test for the success class.
pub fn status_is_success(status: u16) -> (r: bool)
    ensures
        r == is_success_status(status),
{
    200 <= status && status < 300
}

/// Runtime test for the redirection class.
pub fn status_is_redirect(status: u16) -> (r: bool)
    ensures
        r == is_redirect_status(status),
{
    300 <= status && status < 400
}

/// What one hop of the redirect loop decided.
#[derive(Debug)]
pub enum FetchStep {
    /// A success-class response: its body is the result of the fetch.
    Deliver(Vec<u8>),
    /// A redirection-class response with a target: request this URL next.
    Follow(String),
    /// A terminal failure.
    Fail(ProtocolError),
}

/// Classifies one response, received for a request to `url`, into the step
/// the redirect loop takes next.
pub fn redirect_decision(url: &str, response: HttpResponse) -> (r: FetchStep)
    ensures
        is_success_status(response.status) ==> (r matches FetchStep::Deliver(b) && b@
            == response.body@),
        is_redirect_status(response.status) ==> (response.location matches Some(loc) ==> (r matches
            FetchStep::Follow(next) && next@ == loc@)),
        is_redirect_status(response.status) && response.location is None ==> r
            == FetchStep::Fail(ProtocolError::MissingRedirectTarget),
        !is_success_status(response.status) && !is_redirect_status(response.status) ==> (r matches
            FetchStep::Fail(e) && (e matches ProtocolError::RequestFailed { url: u } && u@
            == url@)),
{
    if status_is_success(response.status) {
        FetchStep::Deliver(response.body)
    } else if status_is_redirect(response.status) {
        match response.location {
            Some(next) => FetchStep::Follow(next),
            None => FetchStep::Fail(ProtocolError::MissingRedirectTarget),
        }
    } else {
        FetchStep::Fail(ProtocolError::RequestFailed { url: url.to_owned() })
    }
}

/// The outcome of a whole fetch, as a mathematical value: how many requests
/// were issued and how the exchange ended.
pub enum FetchModel {
    /// A success-class response arrived; its body is delivered.
    Delivered { hops: nat, body: Seq<u8> },
    /// A redirection-class response without a `Location` header arrived.
    NoTarget { hops: nat },
    /// A response outside both classes arrived while `url` was requested.
    Refused { hops: nat, url: Seq<char> },
    /// The scripted responses ran out before a terminal response.
    Exhausted { hops: nat },
}

/// The outcome of fetching `url` when the responses still to come are
/// `script`, with `done` requests already issued.
pub open spec fn fetch_model_from(url: Seq<char>, script: Seq<HttpResponse>, done: nat) -> FetchModel
    decreases script.len(),
{
    if script.len() == 0 {
        FetchModel::Exhausted { hops: done }
    } else {
        let resp = script[0];
        if is_success_status(resp.status) {
            FetchModel::Delivered { hops: done + 1, body: resp.body@ }
        } else if is_redirect_status(resp.status) {
            match resp.location {
                Some(loc) => fetch_model_from(loc@, script.drop_first(), done + 1),
                None => FetchModel::NoTarget { hops: done + 1 },
            }
        } else {
            FetchModel::Refused { hops: done + 1, url }
        }
    }
}

/// The outcome of fetching `url` against the response script `script`.
pub open spec fn fetch_model(url: Seq<char>, script: Seq<HttpResponse>) -> FetchModel {
    fetch_model_from(url, script, 0)
}

/// The URLs requested, in order, when fetching `url` against `script`: one
/// per response consumed.
pub open spec fn model_requests(url: Seq<char>, script: Seq<HttpResponse>) -> Seq<Seq<char>>
    decreases script.len(),
{
    if script.len() == 0 {
        Seq::empty()
    } else {
        let resp = script[0];
        if is_success_status(resp.status) {
            seq![url]
        } else if is_redirect_status(resp.status) {
            match resp.location {
                Some(loc) => seq![url] + model_requests(loc@, script.drop_first()),
                None => seq![url],
            }
        } else {
            seq![url]
        }
    }
}

/// The hop count an outcome reports.
pub open spec fn hops_of(m: FetchModel) -> nat {
    match m {
        FetchModel::Delivered { hops, body } => hops,
        FetchModel::NoTarget { hops } => hops,
        FetchModel::Refused { hops, url } => hops,
        FetchModel::Exhausted { hops } => hops,
    }
}

/// The inductive step behind `lemma_request_count`: with `done` requests
/// already issued, the outcome counts `done` plus one hop per URL still to
/// be requested.
proof fn lemma_requests_match_hops(url: Seq<char>, script: Seq<HttpResponse>, done: nat)
    ensures
        hops_of(fetch_model_from(url, script, done)) == done + model_requests(url, script).len(),
    decreases script.len(),
{
    if script.len() > 0 {
        let resp = script[0];
        if !is_success_status(resp.status) && is_redirect_status(resp.status) {
            match resp.location {
                Some(loc) => {
                    lemma_requests_match_hops(loc@, script.drop_first(), done + 1);
                },
                None => {
                },
            }
        }
    }
}

/// Law: a fetch issues exactly as many requests as its outcome counts
/// hops — one per consumed response, however the exchange ends.
pub proof fn lemma_request_count(url: Seq<char>, script: Seq<HttpResponse>)
    ensures
        hops_of(fetch_model(url, script)) == model_requests(url, script).len(),
{
    lemma_requests_match_hops(url, script, 0);
}

/// What a scripted fetch did: every URL requested, in order, and how the
/// exchange ended.  `outcome` is `None` only when the script ran out before
/// a terminal response.
pub struct FetchLog {
    pub requests: Vec<String>,
    pub outcome: Option<Result<Vec<u8>, ProtocolError>>,
}

/// Runs the whole redirect loop against a scripted sequence of responses:
/// the i-th request, wherever it is directed, is answered by `script[i]`.
/// The log records exactly the requests the loop issued and the terminal
/// outcome that the model assigns to the script.
#[verifier::loop_isolation(false)]
pub fn run_scripted_fetch(start: &str, script: Vec<HttpResponse>) -> (r: FetchLog)
    ensures
        r.requests.deep_view() == model_requests(start@, script@),
        match fetch_model(start@, script@) {
            FetchModel::Delivered { hops, body } => r.requests@.len() == hops && (
            r.outcome matches Some(out) && (out matches Ok(b) && b@ == body)),
            FetchModel::NoTarget { hops } => r.requests@.len() == hops && r.outcome == Some(
                Result::<Vec<u8>, ProtocolError>::Err(ProtocolError::MissingRedirectTarget),
            ),
            FetchModel::Refused { hops, url } => r.requests@.len() == hops && (
            r.outcome matches Some(out) && (out matches Err(e) && (e
                matches ProtocolError::RequestFailed { url: u } && u@ == url))),
            FetchModel::Exhausted { hops } => r.requests@.len() == hops && r.outcome is None,
        },
{
    let ghost full = script@;
    let mut script = script;
    let mut url: String = start.to_owned();
    let mut requests: Vec<String> = Vec::new();
    loop
        invariant
            fetch_model(start@, full) == fetch_model_from(url@, script@, requests@.len() as nat),
            model_requests(start@, full) == requests.deep_view() + model_requests(url@, script@),
        decreases script@.len(),
    {
        if script.len() == 0 {
            proof {
                assert(requests.deep_view() + model_requests(url@, script@) =~= requests.deep_view());
            }
            return FetchLog { requests, outcome: None };
        }
        let ghost pre = script@;
        let ghost req_pre = requests.deep_view();
        let ghost url_pre = url@;
        let ghost done = requests@.len() as nat;
        let resp = script.remove(0);
        requests.push(url.clone());
        proof {
            assert(script@ =~= pre.drop_first());
            assert(requests.deep_view() =~= req_pre.push(url_pre));
        }
        match redirect_decision(url.as_str(), resp) {
            FetchStep::Deliver(body) => {
                proof {
                    assert(model_requests(start@, full) =~= requests.deep_view());
                }
                return FetchLog { requests, outcome: Some(Ok(body)) };
            },
            FetchStep::Follow(next) => {
                url = next;
                proof {
                    assert(fetch_model_from(url_pre, pre, done) == fetch_model_from(
                        url@,
                        script@,
                        requests@.len() as nat,
                    ));
                    assert(req_pre + model_requests(url_pre, pre) =~= requests.deep_view()
                        + model_requests(url@, script@));
                }
            },
            FetchStep::Fail(e) => {
                proof {
                    assert(model_requests(start@, full) =~= requests.deep_view());
                }
                return FetchLog { requests, outcome: Some(Err(e)) };
            },
        }
    }
}

} // verus!
