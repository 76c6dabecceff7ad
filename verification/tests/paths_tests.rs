use codex_acp::paths::{describe_mcp_tool, display_fs_path, fs_tool_metadata};
use codex_acp::protocol::{McpInvocation, ToolArguments};

fn fs_invocation(server: &str, tool: &str, path: Option<&str>, line: Option<u64>) -> McpInvocation {
    McpInvocation {
        server: String::from(server),
        tool: String::from(tool),
        arguments: Some(ToolArguments {
            raw: String::from("{}"),
            path: path.map(String::from),
            line,
        }),
    }
}

#[test]
fn display_fs_path_relativizes_under_cwd() {
    assert_eq!(display_fs_path("/work", "/work/src/main.rs"), "src/main.rs");
    assert_eq!(display_fs_path("/work", "/work/a"), "a");
}

#[test]
fn display_fs_path_falls_back_to_file_name_outside_cwd() {
    assert_eq!(display_fs_path("/work", "/elsewhere/notes.txt"), "notes.txt");
    assert_eq!(display_fs_path("/work", "plain.txt"), "plain.txt");
}

#[test]
fn display_fs_path_falls_back_to_raw_when_no_file_name() {
    // The path equals the working directory: its own file name is shown.
    assert_eq!(display_fs_path("/work", "/work"), "work");
    // A path ending in a separator has no file name, so the raw string stays.
    assert_eq!(display_fs_path("/work", "/elsewhere/"), "/elsewhere/");
}

#[test]
fn fs_tool_metadata_extracts_path_and_line() {
    let inv = fs_invocation("acp_fs", "read_text_file", Some("/work/src/lib.rs"), Some(12));
    let meta = fs_tool_metadata(&inv, "/work").unwrap();
    assert_eq!(meta.display_path, "src/lib.rs");
    assert_eq!(meta.location_path, "/work/src/lib.rs");
    assert_eq!(meta.line, Some(12));
}

#[test]
fn fs_tool_metadata_accepts_the_three_fs_tools_only() {
    for tool in ["read_text_file", "write_text_file", "edit_text_file"] {
        let inv = fs_invocation("acp_fs", tool, Some("/work/x"), None);
        assert!(fs_tool_metadata(&inv, "/work").is_some());
    }
    let other = fs_invocation("acp_fs", "delete_file", Some("/work/x"), None);
    assert!(fs_tool_metadata(&other, "/work").is_none());
}

#[test]
fn fs_tool_metadata_requires_the_fs_server() {
    let inv = fs_invocation("other_server", "read_text_file", Some("/work/x"), None);
    assert!(fs_tool_metadata(&inv, "/work").is_none());
}

#[test]
fn fs_tool_metadata_requires_a_path_argument() {
    let inv = fs_invocation("acp_fs", "read_text_file", None, Some(3));
    assert!(fs_tool_metadata(&inv, "/work").is_none());
    let no_args = McpInvocation {
        server: String::from("acp_fs"),
        tool: String::from("read_text_file"),
        arguments: None,
    };
    assert!(fs_tool_metadata(&no_args, "/work").is_none());
}

#[test]
fn describe_mcp_tool_titles_fs_tools_with_display_path() {
    let inv = fs_invocation("acp_fs", "write_text_file", Some("/work/a/b.txt"), None);
    let (title, locations) = describe_mcp_tool(&inv, "/work");
    assert_eq!(title, "acp_fs.write_text_file (a/b.txt)");
    assert_eq!(locations.len(), 1);
    assert_eq!(locations[0].path, "/work/a/b.txt");
    assert_eq!(locations[0].line, None);
}

#[test]
fn describe_mcp_tool_titles_other_tools_plainly() {
    let inv = McpInvocation {
        server: String::from("search"),
        tool: String::from("query"),
        arguments: None,
    };
    let (title, locations) = describe_mcp_tool(&inv, "/work");
    assert_eq!(title, "search.query");
    assert!(locations.is_empty());
}
