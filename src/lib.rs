//! Retrieval of brokerage reports from a two-phase report service: a request
//! is submitted, the service acknowledges it with a reference code and a
//! location, and the report is then fetched from that location and decoded.
pub mod data_broker;
pub mod decimal;
pub mod xml;

use crate::data_broker::{
    acknowledgment_is, acknowledgment_ok, cash_transactions_of, read_in_prepare_statement,
    read_in_statement_response, report_is, report_ok, DownloadError, Downloader,
    FlexQueryResponse, FlexStatementResponse,
};
use vstd::prelude::*;

verus! {

/// Where report requests are submitted.
pub const SUBMIT_ENDPOINT: &'static str =
    "https://gdcdyn.interactivebrokers.com/Universal/servlet/FlexStatementService.SendRequest";

/// Protocol version sent with every request.
pub const REQUEST_VERSION: &'static str = "3";

/// The transport through which both phases of a retrieval go.
pub struct Context<S> {
    pub strategy: S,
}

impl<S> Context<S> where S: Downloader {
    /// One request through the transport.
    pub fn download(&self, url: &str) -> (r: Result<String, DownloadError>) {
        self.strategy.download(url)
    }
}

pub open spec fn submit_url_of(token: Seq<char>, query: Seq<char>) -> Seq<char> {
    SUBMIT_ENDPOINT@ + "?t="@ + token + "&q="@ + query + "&v="@ + REQUEST_VERSION@
}

/// The fetch location is queried with the reference code of the
/// acknowledgment, which names the generation run to fetch.
pub open spec fn fetch_url_of(ack: FlexStatementResponse, token: Seq<char>) -> Seq<char> {
    ack.url@ + "?q="@ + ack.reference_code@ + "&t="@ + token + "&v="@ + REQUEST_VERSION@
}

/// The URL that submits a request for report `query`.
pub fn submit_url(token: &str, query: &str) -> (r: String)
    ensures
        r@ == submit_url_of(token@, query@),
{
    String::from_str(SUBMIT_ENDPOINT).concat("?t=").concat(token).concat("&q=").concat(query).concat(
        "&v=",
    ).concat(REQUEST_VERSION)
}

/// The URL that fetches the report an acknowledgment points to.
pub fn fetch_url(ack: &FlexStatementResponse, token: &str) -> (r: String)
    ensures
        r@ == fetch_url_of(*ack, token@),
{
    let base = ack.url.clone();
    base.concat("?q=").concat(ack.reference_code.as_str()).concat("&t=").concat(token).concat(
        "&v=",
    ).concat(REQUEST_VERSION)
}

/// `r` is what the submit phase yields for the transport outcome `body`: a
/// transport failure unchanged, else the decoded acknowledgment or a
/// `Decode` error.
pub open spec fn acknowledgment_step(
    body: Result<String, DownloadError>,
    r: Result<FlexStatementResponse, DownloadError>,
) -> bool {
    match body {
        Err(e) => r is Err && r->Err_0 == e,
        Ok(s) => {
            &&& r is Ok <==> acknowledgment_ok(s@)
            &&& r is Ok ==> acknowledgment_is(s@, r->Ok_0)
            &&& r is Err ==> r->Err_0 is Decode
        },
    }
}

/// `r` is what the fetch phase yields for the transport outcome `body`: a
/// transport failure unchanged, else the decoded report or a `Decode` error.
pub open spec fn report_step(
    body: Result<String, DownloadError>,
    r: Result<FlexQueryResponse, DownloadError>,
) -> bool {
    match body {
        Err(e) => r is Err && r->Err_0 == e,
        Ok(s) => {
            &&& r is Ok <==> report_ok(s@)
            &&& r is Ok ==> report_is(s@, r->Ok_0)
            &&& r is Err ==> r->Err_0 is Decode
        },
    }
}

/// What the submit phase makes of the transport's answer.
pub fn acknowledgment_from(body: Result<String, DownloadError>) -> (r: Result<
    FlexStatementResponse,
    DownloadError,
>)
    ensures
        acknowledgment_step(body, r),
{
    match body {
        Ok(s) => read_in_prepare_statement(s.as_str()),
        Err(e) => Err(e),
    }
}

/// What the fetch phase makes of the transport's answer.
pub fn report_from(body: Result<String, DownloadError>) -> (r: Result<
    FlexQueryResponse,
    DownloadError,
>)
    ensures
        report_step(body, r),
{
    match body {
        Ok(s) => read_in_statement_response(s.as_str()),
        Err(e) => Err(e),
    }
}

/// Submit phase: requests report `query` and decodes the acknowledgment.
pub fn order_query<S>(context: &Context<S>, token: &str, query: &str) -> (r: Result<
    FlexStatementResponse,
    DownloadError,
>) where S: Downloader
    ensures
        exists|body: Result<String, DownloadError>| acknowledgment_step(body, r),
{
    let url = submit_url(token, query);
    let body = context.download(url.as_str());
    let ghost b = body;
    let r = acknowledgment_from(body);
    assert(acknowledgment_step(b, r));
    r
}

/// Fetch phase: fetches and decodes the report an acknowledgment points to.
pub fn download_flexresponse<S>(
    context: &Context<S>,
    statement_reposone: FlexStatementResponse,
    token: &str,
) -> (r: Result<FlexQueryResponse, DownloadError>) where S: Downloader
    ensures
        exists|body: Result<String, DownloadError>| report_step(body, r),
{
    let url = fetch_url(&statement_reposone, token);
    let body = context.download(url.as_str());
    let ghost b = body;
    let r = report_from(body);
    assert(report_step(b, r));
    r
}

/// Both phases in turn; a failure of the first is returned unchanged and
/// the second is then not attempted.
pub fn retrieve<S>(context: &Context<S>, token: &str, query: &str) -> (r: Result<
    FlexQueryResponse,
    DownloadError,
>) where S: Downloader
    ensures
        exists|body: Result<String, DownloadError>| report_step(body, r),
{
    match order_query(context, token, query) {
        Ok(ack) => download_flexresponse(context, ack, token),
        Err(e) => {
            let r: Result<FlexQueryResponse, DownloadError> = Err(e);
            assert(report_step(Err(e), r));
            r
        },
    }
}

pub open spec fn summary_of(x: FlexQueryResponse) -> Seq<char> {
    if cash_transactions_of(x) is Some {
        "value"@
    } else {
        "empty"@
    }
}

/// Whether the report's first statement has a cash transaction section:
/// "value" if so, "empty" if not.
pub fn parse(flex_response: FlexQueryResponse) -> (r: String)
    ensures
        r@ == summary_of(flex_response),
{
    match flex_response.cash_transactions() {
        Some(_) => String::from_str("value"),
        None => String::from_str("empty"),
    }
}

/// Retrieves report `query` and summarises it as `parse` does.
pub fn analyze<S>(context: &Context<S>, token: &str, query: &str) -> (r: Result<
    String,
    DownloadError,
>) where S: Downloader
    ensures
        r is Ok ==> exists|x: FlexQueryResponse|
            (exists|body: Result<String, DownloadError>| report_step(body, Ok(x))) && r->Ok_0@
                == summary_of(x),
{
    match retrieve(context, token, query) {
        Ok(x) => {
            let ghost g = x;
            let s = parse(x);
            assert(exists|body: Result<String, DownloadError>| report_step(body, Ok(g)));
            Ok(s)
        },
        Err(e) => Err(e),
    }
}

} // verus!
