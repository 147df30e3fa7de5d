use vstd::prelude::*;

use crate::decimal::{decimal, u32_to_decimal};

verus! {

/// Where every endpoint of the service lives.
pub const BASE_URL: &'static str = "https://rankpath.io/api";

pub open spec fn base_url() -> Seq<char> {
    BASE_URL@
}

/// One authenticated GET to send upstream.
#[derive(Debug, Clone, PartialEq)]
pub struct ApiRequest {
    /// The full address: the base URL followed by the endpoint's path.
    pub url: String,
    /// Sent as `Authorization: Bearer <token>`.
    pub bearer_token: String,
    /// Query parameters as key and value, in the order they are sent.
    pub query: Vec<(String, String)>,
}

/// Query parameters as character sequences.
pub open spec fn params_view(q: Seq<(String, String)>) -> Seq<(Seq<char>, Seq<char>)> {
    q.map_values(|p: (String, String)| (p.0@, p.1@))
}

/// The parameter `key` with value `v` when `v` is present, else nothing.
pub open spec fn optional_param(key: Seq<char>, v: Option<Seq<char>>) -> Seq<(Seq<char>, Seq<char>)> {
    match v {
        Some(x) => seq![(key, x)],
        None => Seq::empty(),
    }
}

pub open spec fn number_text(v: Option<u32>) -> Option<Seq<char>> {
    match v {
        Some(n) => Some(decimal(n as nat)),
        None => None,
    }
}

pub open spec fn str_text(v: Option<&str>) -> Option<Seq<char>> {
    match v {
        Some(s) => Some(s@),
        None => None,
    }
}

/// The path of one project.
pub open spec fn project_path(project_id: Seq<char>) -> Seq<char> {
    "/projects/"@ + project_id
}

/// Client of the service: holds the credential that every request carries.
#[derive(Debug, Clone, PartialEq)]
pub struct RankPathClient {
    pub api_key: String,
}

fn push_param(query: &mut Vec<(String, String)>, key: &str, value: String)
    ensures
        params_view(final(query)@) == params_view(old(query)@) + seq![(key@, value@)],
{
    query.push((String::from_str(key), value));
    assert(params_view(final(query)@) =~= params_view(old(query)@) + seq![(key@, value@)]);
}

fn project_path_of(project_id: &str, suffix: &str) -> (r: String)
    ensures
        r@ == project_path(project_id@) + suffix@,
{
    let mut p = String::from_str("/projects/");
    p.append(project_id);
    p.append(suffix);
    p
}

impl RankPathClient {
    /// A client that authenticates with `api_key`.
    pub fn new(api_key: String) -> (r: Self)
        ensures
            r.api_key == api_key,
    {
        RankPathClient { api_key }
    }

    /// The GET of `path` with the given query parameters.
    pub fn get(&self, path: &str, query: Vec<(String, String)>) -> (r: ApiRequest)
        ensures
            r.url@ == base_url() + path@,
            r.bearer_token@ == self.api_key@,
            r.query@ == query@,
    {
        let mut url = String::from_str(BASE_URL);
        url.append(path);
        ApiRequest { url, bearer_token: self.api_key.clone(), query }
    }

    /// The request for all projects.
    pub fn list_projects(&self) -> (r: ApiRequest)
        ensures
            r.url@ == base_url() + "/projects"@,
            r.bearer_token@ == self.api_key@,
            r.query@.len() == 0,
    {
        self.get("/projects", Vec::new())
    }

    /// The request for one project.
    pub fn get_project(&self, project_id: &str) -> (r: ApiRequest)
        ensures
            r.url@ == base_url() + project_path(project_id@),
            r.bearer_token@ == self.api_key@,
            r.query@.len() == 0,
    {
        let path = project_path_of(project_id, "");
        proof { reveal_strlit(""); }
        assert(path@ =~= project_path(project_id@));
        self.get(path.as_str(), Vec::new())
    }

    /// The request for a page of a project's crawl history. An absent `limit`
    /// or `offset` is left out of the query, so that upstream's defaults apply.
    pub fn get_crawl_history(&self, project_id: &str, limit: Option<u32>, offset: Option<u32>) -> (r: ApiRequest)
        ensures
            r.url@ == base_url() + project_path(project_id@) + "/crawls"@,
            r.bearer_token@ == self.api_key@,
            params_view(r.query@) == optional_param("limit"@, number_text(limit))
                + optional_param("offset"@, number_text(offset)),
    {
        let path = project_path_of(project_id, "/crawls");
        let mut query: Vec<(String, String)> = Vec::new();
        if let Some(l) = limit {
            push_param(&mut query, "limit", u32_to_decimal(l));
        }
        if let Some(o) = offset {
            push_param(&mut query, "offset", u32_to_decimal(o));
        }
        assert(params_view(query@) =~= optional_param("limit"@, number_text(limit))
            + optional_param("offset"@, number_text(offset)));
        self.get(path.as_str(), query)
    }

    /// The request for a project's latest crawl.
    pub fn get_latest_crawl(&self, project_id: &str) -> (r: ApiRequest)
        ensures
            r.url@ == base_url() + project_path(project_id@) + "/crawls/latest"@,
            r.bearer_token@ == self.api_key@,
            r.query@.len() == 0,
    {
        let path = project_path_of(project_id, "/crawls/latest");
        self.get(path.as_str(), Vec::new())
    }

    /// The request for a project's issues. Each filter that is present is sent
    /// as it stands; upstream rejects values it does not know.
    pub fn get_issues(&self, project_id: &str, severity: Option<&str>, status: Option<&str>) -> (r: ApiRequest)
        ensures
            r.url@ == base_url() + project_path(project_id@) + "/issues"@,
            r.bearer_token@ == self.api_key@,
            params_view(r.query@) == optional_param("severity"@, str_text(severity))
                + optional_param("status"@, str_text(status)),
    {
        let path = project_path_of(project_id, "/issues");
        let mut query: Vec<(String, String)> = Vec::new();
        if let Some(s) = severity {
            push_param(&mut query, "severity", String::from_str(s));
        }
        if let Some(s) = status {
            push_param(&mut query, "status", String::from_str(s));
        }
        assert(params_view(query@) =~= optional_param("severity"@, str_text(severity))
            + optional_param("status"@, str_text(status)));
        self.get(path.as_str(), query)
    }
}

} // verus!
