use vstd::prelude::*;

use crate::client::{
    base_url, number_text, optional_param, params_view, project_path, ApiRequest, RankPathClient,
};
use crate::models::ErrorResponse;
use crate::response::{api_error_text, error_text, is_failure_error, ApiError};
use crate::tools::ToolKind;

verus! {

/// Input of `get_project`.
#[derive(Debug, Clone, PartialEq)]
pub struct GetProjectInput {
    /// The project UUID.
    pub project_id: String,
}

/// Input of `get_crawl_history`.
#[derive(Debug, Clone, PartialEq)]
pub struct GetCrawlHistoryInput {
    /// The project UUID.
    pub project_id: String,
    /// Maximum number of results to return (1-100, default: 10).
    pub limit: Option<u32>,
    /// Number of results to skip for pagination (default: 0).
    pub offset: Option<u32>,
}

/// Input of `get_latest_crawl`.
#[derive(Debug, Clone, PartialEq)]
pub struct GetLatestCrawlInput {
    /// The project UUID.
    pub project_id: String,
}

/// Input of `get_issues`.
#[derive(Debug, Clone, PartialEq)]
pub struct GetIssuesInput {
    /// The project UUID.
    pub project_id: String,
    /// Filter by severity: "critical", "warning", or "info".
    pub severity: Option<String>,
    /// Filter by status: "open", "acknowledged", or "ignored".
    pub status: Option<String>,
}

/// A call of one tool with its input.
#[derive(Debug, Clone, PartialEq)]
pub enum ToolCall {
    ListProjects,
    GetProject(GetProjectInput),
    GetCrawlHistory(GetCrawlHistoryInput),
    GetLatestCrawl(GetLatestCrawlInput),
    GetIssues(GetIssuesInput),
}

pub open spec fn string_text(v: Option<String>) -> Option<Seq<char>> {
    match v {
        Some(s) => Some(s@),
        None => None,
    }
}

/// A request as URL, bearer token and query parameters.
pub open spec fn request_view(r: ApiRequest) -> (Seq<char>, Seq<char>, Seq<(Seq<char>, Seq<char>)>) {
    (r.url@, r.bearer_token@, params_view(r.query@))
}

/// The request that a tool call sends, with credential `key`.
pub open spec fn call_request(key: Seq<char>, c: ToolCall) -> (Seq<char>, Seq<char>, Seq<(Seq<char>, Seq<char>)>) {
    match c {
        ToolCall::ListProjects => (base_url() + "/projects"@, key, Seq::empty()),
        ToolCall::GetProject(i) => (base_url() + project_path(i.project_id@), key, Seq::empty()),
        ToolCall::GetCrawlHistory(i) => (
            base_url() + project_path(i.project_id@) + "/crawls"@,
            key,
            optional_param("limit"@, number_text(i.limit)) + optional_param("offset"@, number_text(i.offset)),
        ),
        ToolCall::GetLatestCrawl(i) => (
            base_url() + project_path(i.project_id@) + "/crawls/latest"@,
            key,
            Seq::empty(),
        ),
        ToolCall::GetIssues(i) => (
            base_url() + project_path(i.project_id@) + "/issues"@,
            key,
            optional_param("severity"@, string_text(i.severity))
                + optional_param("status"@, string_text(i.status)),
        ),
    }
}

pub open spec fn call_kind(c: ToolCall) -> ToolKind {
    match c {
        ToolCall::ListProjects => ToolKind::ListProjects,
        ToolCall::GetProject(_) => ToolKind::GetProject,
        ToolCall::GetCrawlHistory(_) => ToolKind::GetCrawlHistory,
        ToolCall::GetLatestCrawl(_) => ToolKind::GetLatestCrawl,
        ToolCall::GetIssues(_) => ToolKind::GetIssues,
    }
}

impl ToolCall {
    /// The tool that this call invokes.
    pub fn kind(&self) -> (r: ToolKind)
        ensures
            r == call_kind(*self),
    {
        match self {
            ToolCall::ListProjects => ToolKind::ListProjects,
            ToolCall::GetProject(_) => ToolKind::GetProject,
            ToolCall::GetCrawlHistory(_) => ToolKind::GetCrawlHistory,
            ToolCall::GetLatestCrawl(_) => ToolKind::GetLatestCrawl,
            ToolCall::GetIssues(_) => ToolKind::GetIssues,
        }
    }
}

/// What a tool hands back to the host: one text block, flagged when it
/// reports a failure.
#[derive(Debug, Clone, PartialEq)]
pub struct ToolOutput {
    pub text: String,
    pub is_error: bool,
}

/// The output of a tool whose call produced `result`: the rendered JSON on
/// success, the error's text, flagged, on failure.
pub open spec fn output_spec(result: Result<String, ApiError>) -> (Seq<char>, bool) {
    match result {
        Ok(text) => (text@, false),
        Err(e) => (error_text(e), true),
    }
}

pub open spec fn output_view(o: ToolOutput) -> (Seq<char>, bool) {
    (o.text@, o.is_error)
}

impl ToolOutput {
    /// A successful output carrying `text`.
    pub fn success(text: String) -> (r: Self)
        ensures
            r.text == text,
            !r.is_error,
    {
        ToolOutput { text, is_error: false }
    }
}

/// The flagged output that reports `e`.
pub fn api_error(e: ApiError) -> (r: ToolOutput)
    ensures
        r.text@ == error_text(e),
        r.is_error,
{
    ToolOutput { text: e.message(), is_error: true }
}

/// The output of a tool whose call produced `result`, where a success value
/// has already been rendered as JSON text.
pub fn tool_output(result: Result<String, ApiError>) -> (r: ToolOutput)
    ensures
        output_view(r) == output_spec(result),
{
    match result {
        Ok(text) => ToolOutput::success(text),
        Err(e) => api_error(e),
    }
}

/// The tool adapter: turns each tool call into a request of its client.
#[derive(Debug, Clone, PartialEq)]
pub struct RankPathServer {
    pub client: RankPathClient,
}

fn as_str_opt(v: &Option<String>) -> (r: Option<&str>)
    ensures
        match v {
            Some(s) => r is Some && r->0@ == s@,
            None => r is None,
        },
{
    match v {
        Some(s) => Some(s.as_str()),
        None => None,
    }
}

impl RankPathServer {
    /// A server whose client authenticates with `api_key`.
    pub fn new(api_key: String) -> (r: Self)
        ensures
            r.client.api_key == api_key,
    {
        RankPathServer { client: RankPathClient::new(api_key) }
    }

    /// The request that `call` sends upstream.
    pub fn request_for(&self, call: &ToolCall) -> (r: ApiRequest)
        ensures
            request_view(r) == call_request(self.client.api_key@, *call),
    {
        let r = match call {
            ToolCall::ListProjects => self.client.list_projects(),
            ToolCall::GetProject(i) => self.client.get_project(i.project_id.as_str()),
            ToolCall::GetCrawlHistory(i) => self.client.get_crawl_history(
                i.project_id.as_str(),
                i.limit,
                i.offset,
            ),
            ToolCall::GetLatestCrawl(i) => self.client.get_latest_crawl(i.project_id.as_str()),
            ToolCall::GetIssues(i) => self.client.get_issues(
                i.project_id.as_str(),
                as_str_opt(&i.severity),
                as_str_opt(&i.status),
            ),
        };
        assert(request_view(r) =~= call_request(self.client.api_key@, *call));
        r
    }
}

/// Whichever tool was called, when upstream fails with a structured error
/// `{error, message}` the tool's output is flagged and its text is exactly
/// `"<error>: <message>"`.
pub proof fn structured_failure_output(call: ToolCall, status_text: Seq<char>, body: ErrorResponse, e: ApiError)
    requires
        is_failure_error(e, status_text, Some(body)),
    ensures
        output_spec(Err(e)) == (api_error_text(body), true),
{
}

/// Whichever tool was called, when upstream fails with a body that is no
/// structured error the tool's output is flagged and its text is the status
/// line followed by `": "`.
pub proof fn unstructured_failure_output(call: ToolCall, status_text: Seq<char>, e: ApiError)
    requires
        is_failure_error(e, status_text, None),
    ensures
        output_spec(Err(e)) == (status_text + ": "@, true),
{
}

/// Repeating a tool call with the same input sends the same request, and the
/// same upstream reply gives the same output.
pub proof fn repeated_call(
    key: Seq<char>,
    call: ToolCall,
    r1: ApiRequest,
    r2: ApiRequest,
    result1: Result<String, ApiError>,
    result2: Result<String, ApiError>,
)
    requires
        request_view(r1) == call_request(key, call),
        request_view(r2) == call_request(key, call),
        result1 == result2,
    ensures
        request_view(r1) == request_view(r2),
        output_spec(result1) == output_spec(result2),
{
}

} // verus!
