use rankpath_mcp::{
    api_error, tool_output, tool_specs, ApiError, ErrorResponse, GetCrawlHistoryInput,
    GetIssuesInput, GetLatestCrawlInput, GetProjectInput, ParamKind, RankPathServer, ToolCall,
    ToolKind, ToolOutput,
};

fn all_calls() -> Vec<ToolCall> {
    vec![
        ToolCall::ListProjects,
        ToolCall::GetProject(GetProjectInput { project_id: "p".to_string() }),
        ToolCall::GetCrawlHistory(GetCrawlHistoryInput {
            project_id: "p".to_string(),
            limit: Some(5),
            offset: None,
        }),
        ToolCall::GetLatestCrawl(GetLatestCrawlInput { project_id: "p".to_string() }),
        ToolCall::GetIssues(GetIssuesInput {
            project_id: "p".to_string(),
            severity: Some("critical".to_string()),
            status: None,
        }),
    ]
}

#[test]
fn five_tools_are_declared_in_order() {
    let specs = tool_specs();
    let names: Vec<&str> = specs.iter().map(|t| t.name.as_str()).collect();
    assert_eq!(
        names,
        vec!["list_projects", "get_project", "get_crawl_history", "get_latest_crawl", "get_issues"]
    );
    assert!(specs.iter().all(|t| !t.description.is_empty()));
}

#[test]
fn tool_schemas_list_their_fields() {
    let specs = tool_specs();
    let fields = |i: usize| -> Vec<(String, ParamKind, bool)> {
        specs[i].params.iter().map(|p| (p.name.clone(), p.kind, p.required)).collect()
    };
    assert!(fields(0).is_empty());
    assert_eq!(fields(1), vec![("project_id".to_string(), ParamKind::Text, true)]);
    assert_eq!(
        fields(2),
        vec![
            ("project_id".to_string(), ParamKind::Text, true),
            ("limit".to_string(), ParamKind::Integer, false),
            ("offset".to_string(), ParamKind::Integer, false),
        ]
    );
    assert_eq!(fields(3), vec![("project_id".to_string(), ParamKind::Text, true)]);
    assert_eq!(
        fields(4),
        vec![
            ("project_id".to_string(), ParamKind::Text, true),
            ("severity".to_string(), ParamKind::Text, false),
            ("status".to_string(), ParamKind::Text, false),
        ]
    );
}

#[test]
fn tool_names_round_trip() {
    for spec in tool_specs() {
        assert_eq!(ToolKind::from_name(&spec.name), Some(spec.kind));
        assert_eq!(spec.kind.name(), spec.name);
    }
    assert_eq!(ToolKind::from_name("get_issue"), None);
    assert_eq!(ToolKind::from_name(""), None);
}

#[test]
fn server_dispatches_each_call() {
    let server = RankPathServer::new("tok".to_string());
    let urls: Vec<String> = all_calls().iter().map(|c| server.request_for(c).url).collect();
    assert_eq!(
        urls,
        vec![
            "https://rankpath.io/api/projects",
            "https://rankpath.io/api/projects/p",
            "https://rankpath.io/api/projects/p/crawls",
            "https://rankpath.io/api/projects/p/crawls/latest",
            "https://rankpath.io/api/projects/p/issues",
        ]
    );
    let r = server.request_for(&all_calls()[4]);
    assert_eq!(r.query, vec![("severity".to_string(), "critical".to_string())]);
    assert_eq!(r.bearer_token, "tok");
    let kinds: Vec<ToolKind> = all_calls().iter().map(|c| c.kind()).collect();
    assert_eq!(kinds, tool_specs().iter().map(|t| t.kind).collect::<Vec<_>>());
}

#[test]
fn repeated_calls_send_the_same_request_and_give_the_same_output() {
    let server = RankPathServer::new("tok".to_string());
    for call in all_calls() {
        assert_eq!(server.request_for(&call), server.request_for(&call));
    }
    let a = tool_output(Ok("{\n  \"id\": \"p\"\n}".to_string()));
    let b = tool_output(Ok("{\n  \"id\": \"p\"\n}".to_string()));
    assert_eq!(a, b);
}

#[test]
fn structured_error_output_for_every_tool() {
    for _call in all_calls() {
        let body = ErrorResponse {
            error: "not_found".to_string(),
            message: Some("no such project".to_string()),
        };
        let out = tool_output(Err(rankpath_mcp::failure_error(404, Some(body))));
        assert_eq!(
            out,
            ToolOutput { text: "not_found: no such project".to_string(), is_error: true }
        );
    }
}

#[test]
fn unstructured_error_output_for_every_tool() {
    for _call in all_calls() {
        let out = tool_output(Err(rankpath_mcp::failure_error(503, None)));
        assert!(out.is_error);
        assert_eq!(out.text, "503 Service Unavailable: ");
    }
}

#[test]
fn success_output_is_not_flagged() {
    let out = tool_output(Ok("[]".to_string()));
    assert_eq!(out, ToolOutput::success("[]".to_string()));
    assert!(!out.is_error);
    assert_eq!(out.text, "[]");
}

#[test]
fn api_error_flags_the_message() {
    let out = api_error(ApiError::Transport("dns error".to_string()));
    assert!(out.is_error);
    assert_eq!(out.text, "dns error");
}
