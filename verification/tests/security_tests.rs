use nyx::path::{PathComponent, PathParts};
use nyx::security::{
    permission_class, redact_secrets, validate_shell_command, Operation, PolicyDecision,
    PolicyEngine, SecurityError, WorkspaceScope,
};
use nyx::task::PermissionClass;

fn parts(path: &str) -> PathParts {
    let mut out = Vec::new();
    if path.starts_with('/') {
        out.push(PathComponent::RootDir);
    }
    for piece in path.split('/') {
        match piece {
            "" => {}
            "." => out.push(PathComponent::CurDir),
            ".." => out.push(PathComponent::ParentDir),
            name => out.push(PathComponent::Normal(name.to_string())),
        }
    }
    PathParts::new(out)
}

fn render(p: &PathParts) -> String {
    let mut s = String::new();
    for c in &p.parts {
        match c {
            PathComponent::RootDir => s.push('/'),
            PathComponent::CurDir => s.push_str("./"),
            PathComponent::ParentDir => s.push_str("../"),
            PathComponent::Normal(n) => {
                s.push_str(n);
                s.push('/');
            }
        }
    }
    s
}

fn temp_scope() -> WorkspaceScope {
    WorkspaceScope::new(Some(parts("/tmp/nyx-security-0a1b")), true).expect("valid scope")
}

#[test]
fn rejects_parent_escape() {
    let scope = temp_scope();
    let joined = scope.join_candidate(&parts("../outside"));
    assert_eq!(render(&joined), "/tmp/nyx-security-0a1b/../outside/");
    let (target, name) = scope.resolution_target(&joined, false).unwrap();
    assert_eq!(render(&target), "/tmp/nyx-security-0a1b/../");
    assert_eq!(name.as_deref(), Some("outside"));
    // the filesystem canonicalizes the parent to /tmp
    let resolved = scope.finish_resolve(&joined, false, Some(parts("/tmp")));
    assert_eq!(resolved.err(), Some(SecurityError::OutsideWorkspace));
}

#[test]
fn allows_new_file_inside_scope() {
    let scope = temp_scope();
    let joined = scope.join_candidate(&parts("nested.txt"));
    let resolved = scope
        .finish_resolve(&joined, false, Some(parts("/tmp/nyx-security-0a1b")))
        .expect("new file path is safe");
    assert!(resolved.starts_with(scope.root()));
    assert_eq!(render(&resolved), "/tmp/nyx-security-0a1b/nested.txt/");
}

#[test]
fn symlink_escape_is_rejected() {
    let scope = temp_scope();
    let joined = scope.join_candidate(&parts("link"));
    // `link` exists and canonicalizes to a directory outside the root
    assert_eq!(
        scope.finish_resolve(&joined, true, Some(parts("/etc"))).err(),
        Some(SecurityError::OutsideWorkspace)
    );
    assert!(!scope.contains(&joined, true, Some(parts("/etc"))));
    assert!(scope.contains(&joined, true, Some(parts("/tmp/nyx-security-0a1b/real"))));
}

#[test]
fn sibling_with_common_prefix_is_outside() {
    let scope = temp_scope();
    let joined = scope.join_candidate(&parts("/tmp/nyx-security-0a1b2"));
    assert_eq!(
        scope.finish_resolve(&joined, true, Some(parts("/tmp/nyx-security-0a1b2"))).err(),
        Some(SecurityError::OutsideWorkspace)
    );
}

#[test]
fn root_itself_is_inside_and_unresolvable_paths_are_invalid() {
    let scope = temp_scope();
    let joined = scope.join_candidate(&parts("."));
    assert_eq!(render(&joined), "/tmp/nyx-security-0a1b/");
    assert!(scope.finish_resolve(&joined, true, Some(parts("/tmp/nyx-security-0a1b"))).is_ok());
    // a missing path whose canonicalization failed
    assert_eq!(
        scope.finish_resolve(&joined, true, None).err(),
        Some(SecurityError::InvalidPath)
    );
    // the root directory has no parent to fall back to
    let root = scope.join_candidate(&parts("/"));
    assert_eq!(
        scope.resolution_target(&root, false).err(),
        Some(SecurityError::InvalidPath)
    );
    // a missing path ending in `..` has no file name
    let up = scope.join_candidate(&parts("a/.."));
    assert_eq!(
        scope.resolution_target(&up, false).err(),
        Some(SecurityError::InvalidPath)
    );
}

#[test]
fn scope_needs_a_canonical_directory() {
    assert_eq!(
        WorkspaceScope::new(None, true).err().map(|e| e.message()),
        Some("path cannot be resolved".to_string())
    );
    assert!(WorkspaceScope::new(Some(parts("/tmp/file.txt")), false).is_err());
}

#[test]
fn policy_requires_approval_for_writes() {
    let policy = PolicyEngine::default();
    assert_eq!(policy.decide(Operation::FileWrite, true), PolicyDecision::Ask);
    assert!(policy.require(Operation::FileWrite, true, false).is_err());
    assert!(policy.require(Operation::FileWrite, true, true).is_ok());
}

#[test]
fn policy_denies_outside_scope() {
    let policy = PolicyEngine::default();
    assert_eq!(policy.decide(Operation::FileRead, false), PolicyDecision::Deny);
}

#[test]
fn policy_decision_table() {
    let policy = PolicyEngine::default();
    for op in [Operation::FileRead, Operation::FileSearch, Operation::GitDiff, Operation::ExternalRead, Operation::ShellReadOnly] {
        assert_eq!(policy.decide(op, true), PolicyDecision::Allow);
    }
    for op in [
        Operation::FileWrite,
        Operation::FileDelete,
        Operation::ShellExecute,
        Operation::GitCommit,
        Operation::GitPush,
        Operation::ProductionDeploy,
        Operation::ExternalWrite,
    ] {
        assert_eq!(policy.decide(op, true), PolicyDecision::Ask);
        assert_eq!(policy.require(op, true, false), Err(SecurityError::Denied));
        assert_eq!(policy.require(op, false, true), Err(SecurityError::Denied));
    }
    let strict = PolicyEngine::new(false);
    assert_eq!(strict.decide(Operation::ShellReadOnly, true), PolicyDecision::Ask);
    assert_eq!(
        policy.require(Operation::GitPush, true, false).unwrap_err().message(),
        "operation is denied by policy"
    );
}

#[test]
fn permission_classes_match_decisions() {
    assert_eq!(permission_class(PolicyDecision::Allow), PermissionClass::Allow);
    assert_eq!(permission_class(PolicyDecision::Ask), PermissionClass::Ask);
    assert_eq!(permission_class(PolicyDecision::Deny), PermissionClass::Deny);
}

#[test]
fn redacts_all_secrets() {
    let output = redact_secrets("token=abc and key=xyz", &["abc", "xyz"]);
    assert_eq!(output, "token=[REDACTED] and key=[REDACTED]");
}

#[test]
fn redaction_skips_empty_secrets_and_keeps_clean_text() {
    assert_eq!(redact_secrets("nothing to hide", &["", "abc"]), "nothing to hide");
    assert_eq!(redact_secrets("aaaa", &["aa"]), "[REDACTED][REDACTED]");
    assert_eq!(redact_secrets("aaa", &["aa"]), "[REDACTED]a");
    assert_eq!(redact_secrets("Türkçe gizli=ş1", &["ş1"]), "Türkçe gizli=[REDACTED]");
    assert_eq!(redact_secrets("", &["x"]), "");
}

#[test]
fn blocks_obvious_dangerous_shell_patterns() {
    assert!(validate_shell_command("rm -rf /").is_err());
    assert!(validate_shell_command("cargo test").is_ok());
}

#[test]
fn shell_deny_list_ignores_ascii_case() {
    assert_eq!(validate_shell_command("sudo SHUTDOWN -h now"), Err(SecurityError::CommandDenied));
    assert!(validate_shell_command("Drop Database prod").is_err());
    assert!(validate_shell_command("curl | sh").is_err());
    assert!(validate_shell_command("ls -la").is_ok());
    assert_eq!(
        SecurityError::CommandDenied.message(),
        "command is not allowed by policy"
    );
}
