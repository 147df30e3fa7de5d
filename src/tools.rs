use vstd::prelude::*;


verus! {

/// The five tools that the server offers.
#[derive(Clone, Copy, Debug, PartialEq, Eq, Structural)]
pub enum ToolKind {
    ListProjects,
    GetProject,
    GetCrawlHistory,
    GetLatestCrawl,
    GetIssues,
}

/// The tools in the order they are listed to the host.
pub open spec fn all_tools() -> Seq<ToolKind> {
    seq![
        ToolKind::ListProjects,
        ToolKind::GetProject,
        ToolKind::GetCrawlHistory,
        ToolKind::GetLatestCrawl,
        ToolKind::GetIssues,
    ]
}

/// The name under which a tool is called.
pub open spec fn tool_name(k: ToolKind) -> Seq<char> {
    match k {
        ToolKind::ListProjects => "list_projects"@,
        ToolKind::GetProject => "get_project"@,
        ToolKind::GetCrawlHistory => "get_crawl_history"@,
        ToolKind::GetLatestCrawl => "get_latest_crawl"@,
        ToolKind::GetIssues => "get_issues"@,
    }
}

/// What the host is told a tool does.
pub open spec fn tool_description(k: ToolKind) -> Seq<char> {
    match k {
        ToolKind::ListProjects => "List all RankPath projects for the authenticated user"@,
        ToolKind::GetProject => "Get details for a specific RankPath project by its UUID"@,
        ToolKind::GetCrawlHistory => "Get paginated crawl history for a RankPath project"@,
        ToolKind::GetLatestCrawl => "Get the latest crawl result with full SEO analysis for a RankPath project"@,
        ToolKind::GetIssues => "Get SEO issues for a RankPath project, optionally filtered by severity (critical/warning/info) or status (open/acknowledged/ignored)"@,
    }
}

/// The JSON type of a tool's input field.
#[derive(Clone, Copy, Debug, PartialEq, Eq, Structural)]
pub enum ParamKind {
    Text,
    Integer,
}

/// One field of a tool's input schema.
#[derive(Debug, Clone, PartialEq)]
pub struct ParamSpec {
    pub name: String,
    pub kind: ParamKind,
    pub required: bool,
    pub description: String,
}

/// A tool as it is declared to the host: name, description and input fields.
#[derive(Debug, Clone, PartialEq)]
pub struct ToolSpec {
    pub kind: ToolKind,
    pub name: String,
    pub description: String,
    pub params: Vec<ParamSpec>,
}

/// The input fields of a tool as name, type and whether it is required.
pub open spec fn tool_params(k: ToolKind) -> Seq<(Seq<char>, ParamKind, bool)> {
    match k {
        ToolKind::ListProjects => Seq::empty(),
        ToolKind::GetProject => seq![("project_id"@, ParamKind::Text, true)],
        ToolKind::GetCrawlHistory => seq![
            ("project_id"@, ParamKind::Text, true),
            ("limit"@, ParamKind::Integer, false),
            ("offset"@, ParamKind::Integer, false),
        ],
        ToolKind::GetLatestCrawl => seq![("project_id"@, ParamKind::Text, true)],
        ToolKind::GetIssues => seq![
            ("project_id"@, ParamKind::Text, true),
            ("severity"@, ParamKind::Text, false),
            ("status"@, ParamKind::Text, false),
        ],
    }
}

pub open spec fn param_view(p: Seq<ParamSpec>) -> Seq<(Seq<char>, ParamKind, bool)> {
    p.map_values(|q: ParamSpec| (q.name@, q.kind, q.required))
}

/// `t` declares the tool `k` with its name, description and input fields.
pub open spec fn declares(t: ToolSpec, k: ToolKind) -> bool {
    &&& t.kind == k
    &&& t.name@ == tool_name(k)
    &&& t.description@ == tool_description(k)
    &&& param_view(t.params@) == tool_params(k)
}

impl ToolKind {
    /// The name under which this tool is called.
    pub fn name(&self) -> (r: &'static str)
        ensures
            r@ == tool_name(*self),
    {
        match self {
            ToolKind::ListProjects => "list_projects",
            ToolKind::GetProject => "get_project",
            ToolKind::GetCrawlHistory => "get_crawl_history",
            ToolKind::GetLatestCrawl => "get_latest_crawl",
            ToolKind::GetIssues => "get_issues",
        }
    }

    /// The tool called `name`, if there is one.
    pub fn from_name(name: &str) -> (r: Option<ToolKind>)
        ensures
            match r {
                Some(k) => tool_name(k) == name@,
                None => forall|k: ToolKind| tool_name(k) != name@,
            },
    {
        let n = String::from_str(name);
        proof {
            reveal_strlit("list_projects");
            reveal_strlit("get_project");
            reveal_strlit("get_crawl_history");
            reveal_strlit("get_latest_crawl");
            reveal_strlit("get_issues");
        }
        if n == String::from_str("list_projects") {
            Some(ToolKind::ListProjects)
        } else if n == String::from_str("get_project") {
            Some(ToolKind::GetProject)
        } else if n == String::from_str("get_crawl_history") {
            Some(ToolKind::GetCrawlHistory)
        } else if n == String::from_str("get_latest_crawl") {
            Some(ToolKind::GetLatestCrawl)
        } else if n == String::from_str("get_issues") {
            Some(ToolKind::GetIssues)
        } else {
            None
        }
    }
}

fn param(name: &str, kind: ParamKind, required: bool, description: &str) -> (r: ParamSpec)
    ensures
        r.name@ == name@,
        r.kind == kind,
        r.required == required,
        r.description@ == description@,
{
    ParamSpec {
        name: String::from_str(name),
        kind,
        required,
        description: String::from_str(description),
    }
}

fn project_id_param() -> (r: ParamSpec)
    ensures
        r.name@ == "project_id"@,
        r.kind == ParamKind::Text,
        r.required,
{
    param("project_id", ParamKind::Text, true, "The project UUID")
}

fn tool(kind: ToolKind, description: &str, params: Vec<ParamSpec>) -> (r: ToolSpec)
    requires
        param_view(params@) == tool_params(kind),
        description@ == tool_description(kind),
    ensures
        declares(r, kind),
{
    ToolSpec { kind, name: String::from_str(kind.name()), description: String::from_str(description), params }
}

/// The declarations of all tools, in the order of `all_tools`.
pub fn tool_specs() -> (r: Vec<ToolSpec>)
    ensures
        r@.len() == all_tools().len(),
        forall|i: int| 0 <= i < r@.len() ==> declares(#[trigger] r@[i], all_tools()[i]),
{
    let mut specs: Vec<ToolSpec> = Vec::new();
    let p: Vec<ParamSpec> = Vec::new();
    assert(param_view(p@) =~= tool_params(ToolKind::ListProjects));
    specs.push(tool(
        ToolKind::ListProjects,
        "List all RankPath projects for the authenticated user",
        p,
    ));
    let mut p = Vec::new();
    p.push(project_id_param());
    assert(param_view(p@) =~= tool_params(ToolKind::GetProject));
    specs.push(tool(
        ToolKind::GetProject,
        "Get details for a specific RankPath project by its UUID",
        p,
    ));
    let mut p = Vec::new();
    p.push(project_id_param());
    p.push(param(
        "limit",
        ParamKind::Integer,
        false,
        "Maximum number of results to return (1-100, default: 10)",
    ));
    p.push(param(
        "offset",
        ParamKind::Integer,
        false,
        "Number of results to skip for pagination (default: 0)",
    ));
    assert(param_view(p@) =~= tool_params(ToolKind::GetCrawlHistory));
    specs.push(tool(
        ToolKind::GetCrawlHistory,
        "Get paginated crawl history for a RankPath project",
        p,
    ));
    let mut p = Vec::new();
    p.push(project_id_param());
    assert(param_view(p@) =~= tool_params(ToolKind::GetLatestCrawl));
    specs.push(tool(
        ToolKind::GetLatestCrawl,
        "Get the latest crawl result with full SEO analysis for a RankPath project",
        p,
    ));
    let mut p = Vec::new();
    p.push(project_id_param());
    p.push(param(
        "severity",
        ParamKind::Text,
        false,
        "Filter by severity: \"critical\", \"warning\", or \"info\"",
    ));
    p.push(param(
        "status",
        ParamKind::Text,
        false,
        "Filter by status: \"open\", \"acknowledged\", or \"ignored\"",
    ));
    assert(param_view(p@) =~= tool_params(ToolKind::GetIssues));
    specs.push(tool(
        ToolKind::GetIssues,
        "Get SEO issues for a RankPath project, optionally filtered by severity (critical/warning/info) or status (open/acknowledged/ignored)",
        p,
    ));
    specs
}

} // verus!
