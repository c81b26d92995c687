use code_buddy::tools::bash::BashTool;
use code_buddy::tools::executor::{arg_check, check_tool_call, read_not_found_message, get_tools_description, resolve_tool, unknown_tool, ToolKind, ToolResult};
use code_buddy::tools::interactive::{AskUserQuestionRequest, AskUserQuestionTool, Notebook, NotebookCell, NotebookEditTool, QuestionHeader};
use code_buddy::tools::mcp::{ListMcpResourcesTool, McpClient, McpResource, McpServerInfo, ReadMcpResourceTool};
use code_buddy::tools::web::{
    format_fetch_result, format_search_results, strip_html, WebFetchResult, WebFetchTool, WebSearchRequest,
    WebSearchResponse, WebSearchResult, WebSearchTool,
};
use code_buddy::tools::Tool;

#[test]
fn test_tool_result_success() {
    let result = ToolResult::success("output".to_string());
    assert!(result.success);
    assert_eq!(result.output, "output");
    assert!(result.error.is_none());
}

#[test]
fn test_tool_result_error() {
    let result = ToolResult::error("Something went wrong".to_string());
    assert!(!result.success);
    assert_eq!(result.output, "");
    assert_eq!(result.error, Some("Something went wrong".to_string()));
}

#[test]
fn test_tool_result_to_content_success() {
    let result = ToolResult::success("result".to_string());
    assert_eq!(result.to_content(), "result");
}

#[test]
fn test_tool_result_to_content_error() {
    let result = ToolResult::error("error msg".to_string());
    assert_eq!(result.to_content(), "Error: error msg");
}

#[test]
fn test_execute_tool_unknown() {
    assert!(resolve_tool("unknown_tool").is_none());
    let result = unknown_tool("unknown_tool");
    assert!(!result.success);
    assert_eq!(result.output, "");
    assert_eq!(result.error, Some("Unknown tool: unknown_tool".to_string()));
    let checked = check_tool_call("unknown_tool", &[]).unwrap();
    assert_eq!(checked.error, Some("Unknown tool: unknown_tool".to_string()));
}

#[test]
fn test_get_tools_description() {
    let desc = get_tools_description();
    assert!(desc.contains("bash"));
    assert!(desc.contains("write"));
    assert!(desc.contains("read"));
    assert!(desc.contains("edit"));
}

#[test]
fn test_validate_command_safe() {
    assert!(BashTool::validate_command("ls -la").is_ok());
    assert!(BashTool::validate_command("git status").is_ok());
    assert!(BashTool::validate_command("echo hello").is_ok());
    assert!(BashTool::validate_command("cargo build").is_ok());
}

#[test]
fn test_validate_command_blocked() {
    assert!(BashTool::validate_command("rm -rf /").is_err());
    assert!(BashTool::validate_command("; rm -rf").is_err());
    assert!(BashTool::validate_command("echo && rm -rf").is_err());
}

#[test]
fn test_parse_command() {
    let (prog, args) = BashTool::parse_command("ls -la");
    assert_eq!(prog, "ls");
    assert_eq!(args, vec!["ls", "-la"]);
    let (prog, args) = BashTool::parse_command("git commit -m \"hello world\"");
    assert_eq!(prog, "git");
    assert_eq!(args, vec!["git", "commit", "-m", "hello world"]);
}

#[test]
fn bash_blocked_message_names_pattern() {
    assert_eq!(
        BashTool::validate_command("sudo mkfs.ext4 /dev/sda"),
        Err("Command contains blocked pattern: mkfs".to_string())
    );
    assert_eq!(
        BashTool::validate_command("echo; rm -rf x"),
        Err("Command injection attempt detected".to_string())
    );
}

#[test]
fn bash_empty_line_runs_sh() {
    let (prog, args) = BashTool::parse_command("   ");
    assert_eq!(prog, "sh");
    assert_eq!(args, vec!["sh"]);
}

#[test]
fn test_mcp_resource() {
    let resource = McpResource::new("file:///test", "Test Resource")
        .with_description("A test resource")
        .with_mime_type("text/plain");
    assert_eq!(resource.uri, "file:///test");
    assert!(resource.description.is_some());
}

#[test]
fn test_mcp_client() {
    let mut client = McpClient::new();
    client.add_server(McpServerInfo {
        name: "test-server".to_string(),
        version: Some("1.0.0".to_string()),
        resources: vec![McpResource::new("file:///test", "Test")],
    });
    assert_eq!(client.list_servers().len(), 1);
}

#[test]
fn test_list_mcp_resources_tool() {
    let tool = ListMcpResourcesTool::new();
    assert_eq!(tool.name(), "ListMcpResources");
}

#[test]
fn test_read_mcp_resource_tool() {
    let tool = ReadMcpResourceTool::new();
    assert_eq!(tool.name(), "ReadMcpResource");
}

#[test]
fn mcp_find_resource_by_uri() {
    let mut client = McpClient::new();
    client.add_server(McpServerInfo {
        name: "s".to_string(),
        version: None,
        resources: vec![McpResource::new("file:///a", "A"), McpResource::new("file:///b", "B")],
    });
    assert_eq!(client.find_resource("file:///b").map(|r| r.name.clone()), Some("B".to_string()));
    assert!(client.find_resource("file:///c").is_none());
}

#[test]
fn test_web_fetch_result() {
    let result = WebFetchResult::new("https://example.com")
        .with_title("Example")
        .with_content("Hello World")
        .with_status(200);
    assert_eq!(result.title, Some("Example".to_string()));
    assert_eq!(result.status_code, 200);
}

#[test]
fn test_web_search_request() {
    let req = WebSearchRequest::new("rust programming");
    assert_eq!(req.query, "rust programming");
    assert!(req.safe_search);
}

#[test]
fn test_web_search_tool() {
    let tool = WebSearchTool::new();
    assert_eq!(tool.name(), "WebSearch");
}

#[test]
fn test_web_fetch_tool() {
    let tool = WebFetchTool::new();
    assert_eq!(tool.name(), "WebFetch");
}

#[test]
fn strip_html_removes_tags_only() {
    assert_eq!(strip_html("<p>Hello <b>World</b></p>"), "Hello World");
    assert_eq!(strip_html("a <> b"), "a <> b");
    assert_eq!(strip_html("x < y"), "x < y");
}

#[test]
fn search_results_markdown() {
    let mut resp = WebSearchResponse::new("rust");
    assert_eq!(format_search_results(&resp), "# Web Search: rust\n\nNo results found.\n");
    resp.add_result(WebSearchResult::new("Rust", "https://rust-lang.org", "A language"));
    assert_eq!(
        format_search_results(&resp),
        "# Web Search: rust\n\nFound 1 results:\n\n1. **Rust**\n   A language\n   https://rust-lang.org\n\n"
    );
}

#[test]
fn fetch_result_markdown() {
    let r = WebFetchResult::new("https://e.com").with_title("T").with_content("<h1>Hi</h1>").with_status(404);
    assert_eq!(
        format_fetch_result(&r, Some("sum")),
        "# Web Fetch: https://e.com\n\n**Title:** T\n\n**Status:** 404\n\n**Prompt:** sum\n\n## Content\n\nHi\n"
    );
}

#[test]
fn web_tools_without_async_context() {
    assert_eq!(WebSearchTool::new().execute(&[]), Ok("Usage: WebSearch <query>".to_string()));
    assert_eq!(
        WebFetchTool::new().execute(&["https://x.y".to_string()]),
        Ok("WebFetch requires async context. Use: fetch_web(\"https://x.y\").await".to_string())
    );
}

#[test]
fn test_ask_user_question() {
    let req = AskUserQuestionRequest::new("Choose an option").with_options(vec!["Option 1", "Option 2", "Option 3"]);
    assert_eq!(req.options.len(), 3);
}

#[test]
fn test_notebook_tool() {
    let tool = NotebookEditTool::new();
    assert_eq!(tool.name(), "NotebookEdit");
}

#[test]
fn ask_user_question_modes() {
    let req = AskUserQuestionRequest::new("Q").with_options(vec!["a"]).multi_select();
    assert!(req.multi_select);
    assert_eq!(req.header, QuestionHeader::MultiSelect);
    let out = AskUserQuestionTool::new().execute(&["Q".to_string(), "a".to_string(), "b".to_string()]);
    assert_eq!(out, Ok("Question: Q\nOptions: a, b".to_string()));
    let out = AskUserQuestionTool::new().execute(&["Q".to_string()]);
    assert_eq!(out, Ok("Question: Q\nOptions: (text input)".to_string()));
}

#[test]
fn notebook_edit_reads_index() {
    let t = NotebookEditTool::new();
    let a = |v: &[&str]| v.iter().map(|s| s.to_string()).collect::<Vec<_>>();
    assert_eq!(t.execute(&a(&["nb.ipynb", "3", "x", "y"])), Ok("NotebookEdit: nb.ipynb cell 3 = x y".to_string()));
    assert_eq!(t.execute(&a(&["nb.ipynb", "+7", "x"])), Ok("NotebookEdit: nb.ipynb cell 7 = x".to_string()));
    assert_eq!(t.execute(&a(&["nb.ipynb", "x7", "x"])), Ok("NotebookEdit: nb.ipynb cell 0 = x".to_string()));
    assert_eq!(
        t.execute(&a(&["nb.ipynb"])),
        Ok("Usage: NotebookEdit <notebook_path> <cell_index> <new_content>".to_string())
    );
}

#[test]
fn test_execute_bash_empty() {
    let result = arg_check(ToolKind::Bash, &[]).unwrap();
    assert!(!result.success);
    assert!(result.error.unwrap().contains("command argument required"));
}

#[test]
fn test_execute_read_empty() {
    let result = arg_check(ToolKind::Read, &[]).unwrap();
    assert!(!result.success);
    assert_eq!(result.output, "");
    assert!(result.error.unwrap().contains("file path required"));
    assert!(check_tool_call("read", &["a.txt".to_string()]).is_none());
}

#[test]
fn test_execute_write_empty() {
    let result = arg_check(ToolKind::Write, &[]).unwrap();
    assert!(!result.success);
    assert!(result.error.unwrap().contains("requires"));
}

#[test]
fn test_execute_mkdir_empty() {
    let result = arg_check(ToolKind::Mkdir, &[]).unwrap();
    assert!(!result.success);
    assert!(result.error.unwrap().contains("directory path required"));
}

#[test]
fn test_execute_rm_empty() {
    let result = arg_check(ToolKind::Rm, &[]).unwrap();
    assert!(!result.success);
    assert!(result.error.unwrap().contains("file path required"));
}

#[test]
fn test_execute_cp_empty() {
    let result = arg_check(ToolKind::Cp, &[]).unwrap();
    assert!(!result.success);
    assert!(result.error.unwrap().contains("requires"));
}

#[test]
fn test_execute_mv_empty() {
    let result = arg_check(ToolKind::Mv, &[]).unwrap();
    assert!(!result.success);
    assert!(result.error.unwrap().contains("requires"));
}

#[test]
fn test_execute_grep_empty() {
    let result = arg_check(ToolKind::Grep, &[]).unwrap();
    assert!(!result.success);
    assert!(result.error.unwrap().contains("pattern required"));
}

#[test]
fn test_execute_webfetch_empty() {
    let result = arg_check(ToolKind::WebFetch, &[]).unwrap();
    assert!(!result.success);
    assert!(result.error.unwrap().contains("URL required"));
}

#[test]
fn test_execute_websearch_empty() {
    let result = arg_check(ToolKind::WebSearch, &[]).unwrap();
    assert!(!result.success);
    assert!(result.error.unwrap().contains("query required"));
}

#[test]
fn test_execute_edit_empty() {
    let result = arg_check(ToolKind::Edit, &[]).unwrap();
    assert!(!result.success);
    assert!(result.error.unwrap().contains("requires"));
}

#[test]
fn test_execute_bash_blocked() {
    let result = arg_check(ToolKind::Bash, &["rm -rf /".to_string()]).unwrap();
    assert!(!result.success);
    assert!(result.error.unwrap().contains("Blocked"));
}

#[test]
fn argument_checks_pass_enough_arguments() {
    let two = vec!["a".to_string(), "b".to_string()];
    assert!(arg_check(ToolKind::Cp, &two).is_none());
    assert!(arg_check(ToolKind::Edit, &two).is_some());
    assert!(arg_check(ToolKind::Glob, &[]).is_none());
    assert!(arg_check(ToolKind::Bash, &["echo hi".to_string()]).is_none());
}

#[test]
fn test_notebook() {
    let mut notebook = Notebook::new();
    notebook.add_cell(NotebookCell::code("print('Hello')"));
    notebook.add_cell(NotebookCell::markdown("# Hello"));
    assert_eq!(notebook.cells.len(), 2);
}

#[test]
fn notebook_cells_insert_and_remove() {
    let mut notebook = Notebook::new();
    notebook.add_cell(NotebookCell::code("a"));
    assert!(notebook.insert_cell(0, NotebookCell::markdown("b")));
    assert!(!notebook.insert_cell(5, NotebookCell::markdown("c")));
    assert_eq!(notebook.cells[0].source, "b");
    let removed = notebook.remove_cell(1).unwrap();
    assert_eq!(removed.source, "a");
    assert!(notebook.remove_cell(1).is_none());
    assert_eq!(notebook.cells.len(), 1);
    assert_eq!(notebook.cells[0].id.len(), 36);
}

#[test]
fn read_missing_file_hints() {
    assert_eq!(
        read_not_found_message("notes.txt", Some(("/w", true)), "/w"),
        "File not found: notes.txt\nHint: File doesn't exist. Check the filename spelling.\nCurrent directory: /w\nTry: (1) glob('*notes.txt') to find files, (2) bash('find . -name \"notes.txt\"')"
    );
}
