//! Client and tool adapter for the RankPath SEO service: the requests that each
//! tool sends, how an upstream reply becomes a result or an error, and what a
//! tool hands back to the host.

mod decimal;

pub use decimal::u32_to_decimal;
mod models;

pub use models::{
    ContentMetrics, CrawlHistoryData, CrawlHistoryResponse, CrawlResult, CrawlResultResponse,
    CrawlSummary, ErrorResponse, GeoAnalysis, Image, Issue, IssueCounts, IssuesData,
    IssuesResponse, IssuesSummary, Link, OpenGraph, Project, ProjectListResponse,
    ProjectResponse, SeoData,
};
mod response;

pub use response::{decoded_reply, error_for_failure, failure_error, is_success, ApiError};
mod client;

pub use client::{ApiRequest, RankPathClient, BASE_URL};
mod tools;

pub use tools::{tool_specs, ParamKind, ParamSpec, ToolKind, ToolSpec};
mod server;

pub use server::{
    api_error, tool_output, GetCrawlHistoryInput, GetIssuesInput, GetLatestCrawlInput,
    GetProjectInput, RankPathServer, ToolCall, ToolOutput,
};
