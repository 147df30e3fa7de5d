use vstd::prelude::*;

verus! {

/// The free-form JSON that an issue may carry as its details; the library
/// passes it through without reading it.
#[verifier::external_type_specification]
#[verifier::external_body]
pub struct ExJsonValue(serde_json::Value);

/// A tracked site.
#[derive(Debug, Clone, PartialEq)]
pub struct Project {
    pub id: String,
    pub name: String,
    pub url: String,
    pub created_at: String,
}

/// Per-crawl tally of issues by severity.
#[derive(Debug, Clone, PartialEq)]
pub struct IssueCounts {
    pub critical: u32,
    pub warning: u32,
    pub info: u32,
}

/// One historical crawl, abbreviated.
#[derive(Debug, Clone, PartialEq)]
pub struct CrawlSummary {
    pub id: String,
    pub status: String,
    pub crawled_at: String,
    pub score: Option<u32>,
    pub issue_counts: Option<IssueCounts>,
    pub http_status: Option<u32>,
    pub response_time_ms: Option<u32>,
}

/// Open Graph attributes of a crawled page.
#[derive(Debug, Clone, PartialEq)]
pub struct OpenGraph {
    pub title: Option<String>,
    pub description: Option<String>,
    pub image: Option<String>,
}

/// On-page SEO attributes of a crawled page.
#[derive(Debug, Clone, PartialEq)]
pub struct SeoData {
    pub title: Option<String>,
    pub meta_description: Option<String>,
    pub h1_tags: Option<Vec<String>>,
    pub canonical_url: Option<String>,
    pub language: Option<String>,
    pub robots_meta: Option<String>,
    pub open_graph: Option<OpenGraph>,
}

/// Content statistics of a crawled page.
#[derive(Debug, Clone, PartialEq)]
pub struct ContentMetrics {
    pub word_count: Option<u32>,
    pub list_count: Option<u32>,
    pub image_count: u32,
    pub link_count: u32,
    pub internal_link_count: u32,
    pub external_link_count: u32,
}

/// An image found on a crawled page.
#[derive(Debug, Clone, PartialEq)]
pub struct Image {
    pub src: String,
    pub alt: String,
    pub has_alt: bool,
}

/// An anchor found on a crawled page.
#[derive(Debug, Clone, PartialEq)]
pub struct Link {
    pub href: String,
    pub text: String,
    pub is_internal: bool,
}

/// Generative-engine-optimization scoring; every field is absent until
/// upstream has computed it.
#[derive(Debug, Clone, PartialEq)]
pub struct GeoAnalysis {
    pub citation_score: Option<u32>,
    pub citable_facts_count: Option<u32>,
    pub questions_answered: Option<Vec<String>>,
    pub strengths: Option<Vec<String>>,
    pub weaknesses: Option<Vec<String>>,
    pub recommendations: Option<Vec<String>>,
    pub authority_topics: Option<Vec<String>>,
    pub analyzed_at: Option<String>,
}

/// One crawl in full detail. A failed crawl is told by `status` and
/// `error_message`, not by an error of the call.
#[derive(Debug, Clone, PartialEq)]
pub struct CrawlResult {
    pub id: String,
    pub project_id: String,
    pub status: String,
    pub error_message: Option<String>,
    pub crawled_at: String,
    pub score: Option<u32>,
    pub issue_counts: Option<IssueCounts>,
    pub http_status: Option<u32>,
    pub response_time_ms: Option<u32>,
    pub seo_data: Option<SeoData>,
    pub content_metrics: Option<ContentMetrics>,
    pub images: Option<Vec<Image>>,
    pub links: Option<Vec<Link>>,
    pub geo_analysis: Option<GeoAnalysis>,
}

/// One detected SEO problem.
#[derive(Debug, Clone, PartialEq)]
pub struct Issue {
    pub id: String,
    pub issue_type: String,
    pub severity: String,
    pub message: String,
    pub details: Option<serde_json::Value>,
    pub status: String,
    pub created_at: String,
    pub updated_at: String,
}

/// Aggregate issue counts, computed upstream.
#[derive(Debug, Clone, PartialEq)]
pub struct IssuesSummary {
    pub critical: u32,
    pub warning: u32,
    pub info: u32,
    pub open: u32,
    pub acknowledged: u32,
    pub ignored: u32,
}

/// Envelope of the project list.
#[derive(Debug, Clone, PartialEq)]
pub struct ProjectListResponse {
    pub data: Vec<Project>,
}

/// Envelope of one project.
#[derive(Debug, Clone, PartialEq)]
pub struct ProjectResponse {
    pub data: Project,
}

/// One page of crawl history.
#[derive(Debug, Clone, PartialEq)]
pub struct CrawlHistoryData {
    pub crawls: Vec<CrawlSummary>,
    pub total: u32,
    pub limit: u32,
    pub offset: u32,
}

/// Envelope of a page of crawl history.
#[derive(Debug, Clone, PartialEq)]
pub struct CrawlHistoryResponse {
    pub data: CrawlHistoryData,
}

/// Envelope of one crawl result.
#[derive(Debug, Clone, PartialEq)]
pub struct CrawlResultResponse {
    pub data: CrawlResult,
}

/// The issues of a project, with their total and summary.
#[derive(Debug, Clone, PartialEq)]
pub struct IssuesData {
    pub issues: Vec<Issue>,
    pub total: u32,
    pub summary: IssuesSummary,
}

/// Envelope of the issues of a project.
#[derive(Debug, Clone, PartialEq)]
pub struct IssuesResponse {
    pub data: IssuesData,
}

/// The structured body of a failed upstream call.
#[derive(Debug, Clone, PartialEq)]
pub struct ErrorResponse {
    pub error: String,
    pub message: Option<String>,
}

} // verus!
