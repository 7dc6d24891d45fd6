use nyx::host::{
    check_openable_url, filter_processes, host_result, host_summary, plan_open_app, process_list_result,
    AppLaunch, HostOs, HostTool, HostToolKind,
};
use nyx::security::{PolicyEngine, SecurityError};
use nyx::task::PermissionClass;
use nyx::tools::{InputField, ToolError, ToolInput};

fn input(fields: Vec<(&str, &str)>) -> ToolInput {
    ToolInput {
        is_object: true,
        fields: fields
            .into_iter()
            .map(|(k, v)| (k.to_string(), InputField::Text(v.to_string())))
            .collect(),
    }
}

fn invalid(r: Result<(), ToolError>) -> String {
    match r {
        Err(ToolError::InvalidInput(m)) => m,
        other => panic!("expected invalid input, got {:?}", other),
    }
}

#[test]
fn exposes_host_control_tools() {
    let names: Vec<_> = HostTool::all().iter().map(|tool| tool.descriptor().name).collect();
    assert!(names.contains(&"host_open_app".to_owned()));
    assert!(names.contains(&"host_shell_exec".to_owned()));
}

#[test]
fn rejects_untrusted_url() {
    let tool = HostTool::new(HostToolKind::OpenUrl);
    assert!(tool.check_input(&input(vec![("url", "file:///etc/passwd")])).is_err());
}

#[test]
fn host_inputs_are_checked() {
    let not_object = ToolInput { is_object: false, fields: vec![] };
    assert_eq!(invalid(HostTool::new(HostToolKind::ProcessList).check_input(&not_object)), "input must be an object");
    assert!(HostTool::new(HostToolKind::ProcessList).check_input(&input(vec![])).is_ok());
    assert_eq!(invalid(HostTool::new(HostToolKind::OpenUrl).check_input(&input(vec![]))), "url is required");
    assert!(HostTool::new(HostToolKind::OpenUrl).check_input(&input(vec![("url", "https://example.org")])).is_ok());
    assert_eq!(invalid(HostTool::new(HostToolKind::OpenApp).check_input(&input(vec![("app", "")]))), "app is required");
    assert_eq!(invalid(HostTool::new(HostToolKind::ShellExec).check_input(&input(vec![]))), "command is required");
    assert_eq!(
        invalid(HostTool::new(HostToolKind::ShellExec).check_input(&input(vec![("command", "REBOOT")]))),
        "command is not allowed by policy"
    );
    assert!(HostTool::new(HostToolKind::ShellExec).check_input(&input(vec![("command", "ls")])).is_ok());
    assert_eq!(invalid(HostTool::new(HostToolKind::MediaControl).check_input(&input(vec![("action", "rewind")]))), "unsupported media action");
    assert!(HostTool::new(HostToolKind::MediaControl).check_input(&input(vec![("action", "play_pause")])).is_ok());
    assert_eq!(
        invalid(HostTool::new(HostToolKind::Notify).check_input(&input(vec![("title", "t")]))),
        "title and message are required"
    );
    assert_eq!(HostTool::shell_cwd(&input(vec![])), ".");
    assert_eq!(HostTool::shell_cwd(&input(vec![("cwd", "src")])), "src");
}

#[test]
fn host_tools_ask_before_changing_the_host() {
    assert_eq!(HostToolKind::ShellExec.permission(), PermissionClass::Ask);
    assert_eq!(HostToolKind::OpenUrl.permission(), PermissionClass::Allow);
    let shell = HostTool::new(HostToolKind::ShellExec);
    match shell.authorize(false) {
        Err(ToolError::Execution(m)) => assert_eq!(m, "operation is denied by policy"),
        other => panic!("unexpected {:?}", other),
    }
    assert!(shell.authorize(true).is_ok());
    assert!(HostTool::new(HostToolKind::ProcessList).authorize(false).is_ok());
    assert!(HostTool::with_policy(HostToolKind::ProcessList, PolicyEngine::new(false)).authorize(false).is_err());
    assert!(HostTool::new(HostToolKind::MediaControl).authorize(false).is_err());
    assert_eq!(HostTool::new(HostToolKind::Notify).descriptor().timeout_ms, 30_000);
}

#[test]
fn urls_must_be_http_on_one_line() {
    assert!(check_openable_url("https://example.org").is_ok());
    assert!(check_openable_url("http://example.org").is_ok());
    assert!(check_openable_url("ftp://example.org").is_err());
    assert!(check_openable_url("https://example.org\nrm").is_err());
}

#[test]
fn open_app_plans() {
    match plan_open_app("  YouTube ", &vec![], HostOs::OtherUnix).unwrap() {
        AppLaunch::Url(u) => assert_eq!(u, "https://www.youtube.com"),
        _ => panic!("expected url"),
    }
    match plan_open_app("files", &vec!["x".to_string()], HostOs::OtherUnix).unwrap() {
        AppLaunch::Program { program, args } => {
            assert_eq!(program, "xdg-open");
            assert_eq!(args, vec![".".to_string(), "x".to_string()]);
        }
        _ => panic!("expected program"),
    }
    match plan_open_app("Terminal", &vec![], HostOs::MacOs).unwrap() {
        AppLaunch::Program { program, args } => {
            assert_eq!(program, "open");
            assert_eq!(args, vec!["-a".to_string(), "terminal".to_string()]);
        }
        _ => panic!("expected program"),
    }
    match plan_open_app("terminal", &vec![], HostOs::Windows).unwrap() {
        AppLaunch::Program { program, args } => {
            assert_eq!(program, "cmd");
            assert_eq!(args, vec!["/C".to_string()]);
        }
        _ => panic!("expected program"),
    }
    match plan_open_app("Doom", &vec![], HostOs::OtherUnix) {
        Err(ToolError::InvalidInput(m)) => assert_eq!(m, "application is not allowlisted: doom"),
        _ => panic!("expected refusal"),
    }
}

#[test]
fn process_listing_filters_ignoring_case() {
    let out = "PID COMMAND\n1 systemd\n2 Firefox\n3 bash";
    assert_eq!(filter_processes(out, "FIRE"), vec!["2 Firefox".to_string()]);
    assert_eq!(filter_processes(out, "").len(), 4);
    let many: String = (0..250).map(|i| format!("{} p\n", i)).collect();
    assert_eq!(filter_processes(&many, "").len(), 200);
    assert_eq!(host_summary(HostToolKind::OpenApp, &input(vec![("app", "code")])), "Opened application: code");
    assert_eq!(host_summary(HostToolKind::MediaControl, &input(vec![("action", "stop")])), "Media action: stop");
}

#[test]
fn process_list_results_carry_the_shown_lines() {
    let out = "PID COMM\n1 init\n2 sshd\n3 ssh-agent\n";
    let r = process_list_result(&input(vec![("filter", "SSH")]), 9, out, 4);
    assert_eq!(r.tool, "host_process_list");
    assert_eq!(r.invocation_id, 9);
    assert!(r.success && !r.redacted);
    assert_eq!(r.summary, "Listed running processes");
    assert_eq!(r.duration_ms, 4);
    let shown = r.data["processes"].as_array().unwrap();
    assert_eq!(shown.len(), 2);
    assert_eq!(shown[0], "2 sshd");
    assert_eq!(shown[1], "3 ssh-agent");
    let all = process_list_result(&input(vec![]), 1, out, 0);
    assert_eq!(all.data["processes"].as_array().unwrap().len(), 4);
    let opened = host_result(HostToolKind::OpenUrl, &input(vec![]), 5, serde_json::Value::Null, 2);
    assert_eq!(opened.tool, "host_open_url");
    assert_eq!(opened.summary, "Opened URL");
}

#[test]
fn shell_validation_needs_a_working_directory_inside_the_workspace() {
    let shell = HostTool::new(HostToolKind::ShellExec);
    let ok = input(vec![("command", "ls")]);
    assert!(shell.validation(&ok, Ok(())).is_ok());
    match shell.validation(&ok, Err(SecurityError::OutsideWorkspace)) {
        Err(ToolError::InvalidInput(m)) => assert_eq!(m, "path is outside the workspace scope"),
        other => panic!("unexpected {:?}", other),
    }
    match shell.validation(&input(vec![]), Err(SecurityError::OutsideWorkspace)) {
        Err(ToolError::InvalidInput(m)) => assert_eq!(m, "command is required"),
        other => panic!("unexpected {:?}", other),
    }
    let list = HostTool::new(HostToolKind::ProcessList);
    assert!(list.validation(&input(vec![]), Err(SecurityError::InvalidPath)).is_ok());
}
