use nyx::security::{PolicyDecision, PolicyEngine};
use nyx::task::{ExecutionTarget, PermissionClass};
use nyx::tools::{InputField, ToolDescriptor, ToolError, ToolInput, ToolRegistry};
use nyx::tools_fs::{search_lines, sort_listing, FileSystemTool, FsKind};

fn descriptor(name: &str, permission: PermissionClass) -> ToolDescriptor {
    ToolDescriptor {
        name: name.to_string(),
        version: "1".to_string(),
        description: "Echo input".to_string(),
        permission,
        target: ExecutionTarget::Host,
        timeout_ms: 1000,
        idempotent: true,
        input_schema: "{\"type\":\"object\"}".to_string(),
    }
}

fn input(fields: Vec<(&str, InputField)>) -> ToolInput {
    ToolInput {
        is_object: true,
        fields: fields.into_iter().map(|(k, v)| (k.to_string(), v)).collect(),
    }
}

fn text(s: &str) -> InputField {
    InputField::Text(s.to_string())
}

#[test]
fn registry_exposes_sorted_descriptors() {
    let registry = ToolRegistry::new(vec![(descriptor("echo", PermissionClass::Allow), ())]);
    assert_eq!(registry.descriptors()[0].name, "echo");
    assert_eq!(registry.permission_for("echo").unwrap(), PolicyDecision::Allow);
}

#[test]
fn registry_sorts_by_name_and_later_tools_replace_earlier() {
    let registry = ToolRegistry::new(vec![
        (descriptor("zeta", PermissionClass::Allow), 1),
        (descriptor("alpha", PermissionClass::Ask), 2),
        (descriptor("mid", PermissionClass::Deny), 3),
        (descriptor("alpha", PermissionClass::Allow), 4),
        (descriptor("Zeta", PermissionClass::Allow), 5),
    ]);
    let names: Vec<String> = registry.descriptors().into_iter().map(|d| d.name).collect();
    assert_eq!(names, vec!["Zeta", "alpha", "mid", "zeta"]);
    assert_eq!(registry.get("alpha").ok(), Some(&4));
    assert_eq!(registry.permission_for("alpha").unwrap(), PolicyDecision::Allow);
    assert_eq!(registry.permission_for("mid").unwrap(), PolicyDecision::Deny);
    match registry.get("missing") {
        Err(ToolError::NotFound(name)) => assert_eq!(name, "missing"),
        _ => panic!("expected NotFound"),
    }
    assert_eq!(
        registry.permission_for("missing").unwrap_err().message(),
        "tool not found: missing"
    );
}

#[test]
fn input_fields_are_read_by_type() {
    let i = input(vec![
        ("path", text("a.txt")),
        ("max_results", InputField::Unsigned(7)),
        ("args", InputField::TextList(vec!["-v".to_string()])),
        ("other", InputField::Other),
        ("path", text("shadowed")),
    ]);
    assert_eq!(i.text("path").as_deref(), Some("a.txt"));
    assert_eq!(i.text("max_results"), None);
    assert_eq!(i.unsigned("max_results"), Some(7));
    assert_eq!(i.text_list("args"), vec!["-v".to_string()]);
    assert!(i.text_list("other").is_empty());
    assert_eq!(i.text_or_empty("missing"), "");
}

#[test]
fn reads_inside_workspace() {
    let tool = FileSystemTool::read();
    let i = input(vec![("path", text("note.txt"))]);
    assert_eq!(FileSystemTool::input_path(&i).unwrap(), "note.txt");
    assert!(tool.check_fields(&i).is_ok());
    assert!(tool.authorize(&PolicyEngine::default(), false).is_ok());
    assert_eq!(tool.completion_summary(), "file_read completed");
}

#[test]
fn requires_approval_for_write() {
    let tool = FileSystemTool::write();
    let i = input(vec![("path", text("note.txt")), ("content", text("hello"))]);
    assert!(FileSystemTool::input_path(&i).is_ok());
    assert!(tool.check_fields(&i).is_ok());
    assert!(matches!(
        tool.authorize(&PolicyEngine::default(), false),
        Err(ToolError::PermissionDenied)
    ));
    assert!(tool.authorize(&PolicyEngine::default(), true).is_ok());
}

#[test]
fn file_tool_inputs_are_checked() {
    let missing_path = input(vec![("path", InputField::Unsigned(3))]);
    match FileSystemTool::input_path(&missing_path) {
        Err(ToolError::InvalidInput(m)) => assert_eq!(m, "path must be a string"),
        _ => panic!("expected invalid input"),
    }
    let search = FileSystemTool::search();
    match search.check_fields(&input(vec![("path", text("a")), ("query", text(""))])) {
        Err(ToolError::InvalidInput(m)) => assert_eq!(m, "query must not be empty"),
        _ => panic!("expected invalid input"),
    }
    let write = FileSystemTool::write();
    match write.check_fields(&input(vec![("path", text("a"))])) {
        Err(e) => assert_eq!(e.message(), "input validation failed: content must be a string"),
        _ => panic!("expected invalid input"),
    }
    assert_eq!(FileSystemTool::search_limit(&input(vec![])), 25);
    assert_eq!(FileSystemTool::search_limit(&input(vec![("max_results", InputField::Unsigned(500))])), 100);
    assert_eq!(FileSystemTool::search_limit(&input(vec![("max_results", InputField::Unsigned(3))])), 3);
}

#[test]
fn file_tool_descriptors() {
    let tools = [FileSystemTool::read(), FileSystemTool::search(), FileSystemTool::list(), FileSystemTool::write()];
    let names: Vec<String> = tools.iter().map(|t| t.descriptor().name).collect();
    assert_eq!(names, vec!["file_read", "file_search", "directory_list", "file_write"]);
    let write = tools[3].descriptor();
    assert_eq!(write.permission, PermissionClass::Ask);
    assert!(!write.idempotent);
    assert_eq!(write.timeout_ms, 10_000);
    assert_eq!(tools[1].tool_kind(), FsKind::Search);
    assert!(tools[2].descriptor().idempotent);
    let schema: serde_json::Value = serde_json::from_str(&tools[1].descriptor().input_schema).unwrap();
    assert_eq!(schema["properties"]["max_results"]["maximum"], 100);
}

#[test]
fn search_returns_numbered_matching_lines() {
    let content = "alpha\nbeta\r\nalphabet\n\nalp\nalpha again";
    let found = search_lines(content, "alpha", 25);
    assert_eq!(
        found,
        vec![(1, "alpha".to_string()), (3, "alphabet".to_string()), (6, "alpha again".to_string())]
    );
    assert_eq!(search_lines(content, "alpha", 2).len(), 2);
    assert_eq!(search_lines(content, "beta", 25), vec![(2, "beta".to_string())]);
    assert_eq!(search_lines("a\r", "\r", 5), vec![(1, "a\r".to_string())]);
    assert!(search_lines("", "x", 5).is_empty());
    assert_eq!(search_lines("x\n", "", 5), vec![(1, "x".to_string())]);
}

#[test]
fn directory_listing_is_sorted() {
    let names = vec!["b.txt".to_string(), "A.md".to_string(), "a.md".to_string(), "b.txt".to_string(), "ç".to_string()];
    let sorted = sort_listing(names.clone());
    let mut expected = names;
    expected.sort();
    assert_eq!(sorted, expected);
    assert!(sort_listing(vec![]).is_empty());
}
