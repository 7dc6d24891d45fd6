//! Workspace scoping, the permission policy, secret redaction and the shell
//! command deny-list.
use vstd::prelude::*;
use crate::path::{PathParts, PartView, join, parent, file_name, starts_with};
use crate::task::PermissionClass;
use crate::text::{
    chars_of, string_of, replace_all, replace_all_exec, lower_ascii, lower_ascii_exec, occurs,
    contains_exec, disjoint_chars, lemma_replace_keeps_absent, lemma_replace_removes,
    lemma_replace_absent_is_identity, owned, opt_text_view,
};

verus! {

#[derive(Debug, Clone, Copy, PartialEq, Eq, Structural)]
pub enum SecurityError {
    OutsideWorkspace,
    InvalidPath,
    Denied,
    CommandDenied,
}

impl SecurityError {
    /// The human-readable message of the error.
    pub fn message(&self) -> (m: String)
        ensures
            m@ == security_message(*self),
    {
        match self {
            SecurityError::OutsideWorkspace => owned("path is outside the workspace scope"),
            SecurityError::InvalidPath => owned("path cannot be resolved"),
            SecurityError::Denied => owned("operation is denied by policy"),
            SecurityError::CommandDenied => owned("command is not allowed by policy"),
        }
    }
}

pub open spec fn security_message(e: SecurityError) -> Seq<char> {
    match e {
        SecurityError::OutsideWorkspace => "path is outside the workspace scope"@,
        SecurityError::InvalidPath => "path cannot be resolved"@,
        SecurityError::Denied => "operation is denied by policy"@,
        SecurityError::CommandDenied => "command is not allowed by policy"@,
    }
}

// ----------------------------------------------------------------------------
// Workspace scope
// ----------------------------------------------------------------------------

/// A workspace root, already canonical; every path handed out by the scope
/// lies under it.
#[derive(Debug, Clone)]
pub struct WorkspaceScope {
    root: PathParts,
}

/// What must be canonicalized to resolve a joined path: the path itself when
/// it exists, otherwise its parent, with the file name to put back after.
pub open spec fn resolution_target(joined: Seq<PartView>, exists: bool) -> Result<
    (Seq<PartView>, Option<Seq<char>>),
    SecurityError,
> {
    if exists {
        Ok((joined, None))
    } else if parent(joined) is None || file_name(joined) is None {
        Err(SecurityError::InvalidPath)
    } else {
        Ok((parent(joined)->0, Some(file_name(joined)->0)))
    }
}

/// The canonical path with the file name, if any, put back.
pub open spec fn completed(canonical: Seq<PartView>, name: Option<Seq<char>>) -> Seq<PartView> {
    match name {
        Some(n) => canonical.push(PartView::Normal(n)),
        None => canonical,
    }
}

pub open spec fn canonical_view(c: Option<PathParts>) -> Option<Seq<PartView>> {
    match c {
        Some(p) => Some(p@),
        None => None,
    }
}

impl WorkspaceScope {
    pub closed spec fn root_view(&self) -> Seq<PartView> {
        self.root@
    }

    /// A scope rooted at the canonical form of a directory. `canonical_root`
    /// is `None` when the root could not be canonicalized; `is_dir` says
    /// whether it is a directory.
    pub fn new(canonical_root: Option<PathParts>, is_dir: bool) -> (r: Result<
        WorkspaceScope,
        SecurityError,
    >)
        ensures
            r is Ok <==> (canonical_root is Some && is_dir),
            r matches Ok(s) ==> s.root_view() == canonical_root->0@,
            r is Err ==> r == Err::<WorkspaceScope, SecurityError>(SecurityError::InvalidPath),
    {
        match canonical_root {
            Some(root) => {
                if is_dir {
                    Ok(WorkspaceScope { root })
                } else {
                    Err(SecurityError::InvalidPath)
                }
            },
            None => Err(SecurityError::InvalidPath),
        }
    }

    /// The canonical root.
    pub fn root(&self) -> (r: &PathParts)
        ensures
            r@ == self.root_view(),
    {
        &self.root
    }

    /// The candidate joined to the root (an absolute candidate stands alone).
    pub fn join_candidate(&self, candidate: &PathParts) -> (p: PathParts)
        ensures
            p@ == join(self.root_view(), candidate@),
    {
        self.root.join(candidate)
    }

    /// What to canonicalize for `joined`, given whether it exists.
    pub fn resolution_target(&self, joined: &PathParts, exists: bool) -> (r: Result<
        (PathParts, Option<String>),
        SecurityError,
    >)
        ensures
            r matches Ok((p, n)) ==> resolution_target(joined@, exists) == Ok::<
                (Seq<PartView>, Option<Seq<char>>),
                SecurityError,
            >((p@, opt_text_view(n))),
            r matches Err(e) ==> resolution_target(joined@, exists) == Err::<
                (Seq<PartView>, Option<Seq<char>>),
                SecurityError,
            >(e),
    {
        if exists {
            return Ok((joined.duplicate(), None));
        }
        match joined.parent() {
            None => Err(SecurityError::InvalidPath),
            Some(p) => match joined.file_name() {
                None => Err(SecurityError::InvalidPath),
                Some(name) => Ok((p, Some(name))),
            },
        }
    }

    /// Accepts a canonical path (with the file name put back) when it is the
    /// root or lies under it.
    pub fn accept_canonical(&self, canonical: &PathParts, name: &Option<String>) -> (r: Result<
        PathParts,
        SecurityError,
    >)
        ensures
            r matches Ok(p) ==> p@ == completed(canonical@, opt_text_view(*name)),
            r is Ok <==> starts_with(
                completed(canonical@, opt_text_view(*name)),
                self.root_view(),
            ),
            r is Err ==> r == Err::<PathParts, SecurityError>(SecurityError::OutsideWorkspace),
    {
        let full = match name {
            Some(n) => canonical.push_name(n),
            None => canonical.duplicate(),
        };
        if full.starts_with(&self.root) {
            Ok(full)
        } else {
            Err(SecurityError::OutsideWorkspace)
        }
    }

    /// Finishes resolving `joined`: `exists` says whether it exists and
    /// `canonical` is the canonical form of its resolution target (`None`
    /// when canonicalization failed).
    pub fn finish_resolve(&self, joined: &PathParts, exists: bool, canonical: Option<PathParts>) -> (r:
        Result<PathParts, SecurityError>)
        ensures
            r is Ok <==> resolve_outcome(self.root_view(), joined@, exists, canonical_view(canonical)) is Ok,
            r matches Ok(p) ==> resolve_outcome(self.root_view(), joined@, exists, canonical_view(canonical)) == Ok::<Seq<PartView>, SecurityError>(p@),
            r matches Err(e) ==> resolve_outcome(self.root_view(), joined@, exists, canonical_view(canonical)) == Err::<Seq<PartView>, SecurityError>(e),
            r matches Ok(p) ==> starts_with(p@, self.root_view()),
    {
        let target = self.resolution_target(joined, exists);
        match target {
            Err(e) => Err(e),
            Ok((_, name)) => match canonical {
                None => Err(SecurityError::InvalidPath),
                Some(c) => self.accept_canonical(&c, &name),
            },
        }
    }
}

impl WorkspaceScope {
    /// Whether the joined path resolves inside the scope, given the
    /// filesystem's answers (see [`WorkspaceScope::finish_resolve`]).
    pub fn contains(&self, joined: &PathParts, exists: bool, canonical: Option<PathParts>) -> (r: bool)
        ensures
            r == resolve_outcome(self.root_view(), joined@, exists, canonical_view(canonical)) is Ok,
    {
        self.finish_resolve(joined, exists, canonical).is_ok()
    }
}

/// The outcome of resolving a joined path within `root`, given the
/// filesystem's answers.
pub open spec fn resolve_outcome(
    root: Seq<PartView>,
    joined: Seq<PartView>,
    exists: bool,
    canonical: Option<Seq<PartView>>,
) -> Result<Seq<PartView>, SecurityError> {
    match resolution_target(joined, exists) {
        Err(e) => Err(e),
        Ok((_, name)) => match canonical {
            None => Err(SecurityError::InvalidPath),
            Some(c) => if starts_with(completed(c, name), root) {
                Ok(completed(c, name))
            } else {
                Err(SecurityError::OutsideWorkspace)
            },
        },
    }
}

/// A path that resolution accepts lies under the workspace root, whatever
/// the filesystem answered.
pub proof fn law_resolved_paths_stay_in_scope(
    root: Seq<PartView>,
    joined: Seq<PartView>,
    exists: bool,
    canonical: Option<Seq<PartView>>,
)
    ensures
        resolve_outcome(root, joined, exists, canonical) matches Ok(p) ==> starts_with(p, root),
        resolve_outcome(root, joined, exists, canonical) matches Err(e) ==> (e
            == SecurityError::InvalidPath || e == SecurityError::OutsideWorkspace),
{
}

/// A canonical path: absolute, with only normal names after the root (no
/// `.` or `..`, which canonicalization removes).
pub open spec fn is_canonical(p: Seq<PartView>) -> bool {
    &&& p.len() > 0
    &&& p[0] is Root
    &&& forall|i: int| 1 <= i < p.len() ==> #[trigger] p[i] is Normal
}

/// Where the root and the filesystem's canonical answer are canonical, an
/// accepted path is canonical too: absolute, free of `.` and `..`, and under
/// the root component by component.
pub proof fn law_resolved_paths_are_canonical(
    root: Seq<PartView>,
    joined: Seq<PartView>,
    exists: bool,
    canonical: Seq<PartView>,
)
    requires
        is_canonical(root),
        is_canonical(canonical),
    ensures
        resolve_outcome(root, joined, exists, Some(canonical)) matches Ok(p) ==> is_canonical(p)
            && starts_with(p, root),
{
    if let Ok((_, name)) = resolution_target(joined, exists) {
        let full = completed(canonical, name);
        assert forall|i: int| 1 <= i < full.len() implies #[trigger] full[i] is Normal by {
            if i < canonical.len() {
                assert(full[i] == canonical[i]);
            }
        }
    }
}

/// A path that exists resolves exactly when its canonical form (symbolic
/// links followed) lies under the root, and then to that canonical form; so
/// a link that leads out of the workspace is refused.
pub proof fn law_existing_paths_resolve_to_their_canonical_form(
    root: Seq<PartView>,
    joined: Seq<PartView>,
    canonical: Seq<PartView>,
)
    ensures
        resolve_outcome(root, joined, true, Some(canonical)) == (if starts_with(canonical, root) {
            Ok::<Seq<PartView>, SecurityError>(canonical)
        } else {
            Err(SecurityError::OutsideWorkspace)
        }),
{
}

/// A name that does not exist yet, under a directory whose canonical form
/// (a link followed) is neither under the root nor an ancestor of it, is
/// refused as outside the workspace.
pub proof fn law_missing_names_under_escaping_links_are_refused(
    root: Seq<PartView>,
    joined: Seq<PartView>,
    parent_canonical: Seq<PartView>,
)
    requires
        parent(joined) is Some,
        file_name(joined) is Some,
        !starts_with(parent_canonical, root),
        !starts_with(root, parent_canonical),
    ensures
        resolve_outcome(root, joined, false, Some(parent_canonical)) == Err::<
            Seq<PartView>,
            SecurityError,
        >(SecurityError::OutsideWorkspace),
{
    let n = file_name(joined)->0;
    let full = parent_canonical.push(PartView::Normal(n));
    if starts_with(full, root) {
        if root.len() <= parent_canonical.len() {
            assert(parent_canonical.take(root.len() as int) =~= full.take(root.len() as int));
        } else {
            assert(root.len() == full.len());
            assert(root.take(parent_canonical.len() as int) =~= parent_canonical);
        }
    }
}

/// The workspace itself: `.` resolves to the canonical root.
pub proof fn law_current_directory_resolves_to_root(root: Seq<PartView>)
    requires
        is_canonical(root),
    ensures
        resolve_outcome(root, join(root, seq![PartView::Cur]), true, Some(root)) == Ok::<
            Seq<PartView>,
            SecurityError,
        >(root),
{
    assert(join(root, seq![PartView::Cur]) =~= root);
    assert(root.take(root.len() as int) =~= root);
}

// ----------------------------------------------------------------------------
// Policy
// ----------------------------------------------------------------------------

#[derive(Debug, Clone, Copy, PartialEq, Eq, Structural)]
pub enum Operation {
    FileRead,
    FileSearch,
    FileWrite,
    FileDelete,
    ShellReadOnly,
    ShellExecute,
    GitDiff,
    GitCommit,
    GitPush,
    ProductionDeploy,
    ExternalRead,
    ExternalWrite,
}

#[derive(Debug, Clone, Copy, PartialEq, Eq, Structural)]
pub enum PolicyDecision {
    Allow,
    Ask,
    Deny,
}

/// Decides, for each operation, whether it runs, asks the user, or is
/// refused.
#[derive(Debug, Clone)]
pub struct PolicyEngine {
    allow_shell_read_only: bool,
}

/// The policy: everything outside the workspace is denied; reads inside it
/// are allowed; a read-only shell is allowed when the engine permits it;
/// everything else asks.
pub open spec fn policy_decision(
    allow_shell_read_only: bool,
    operation: Operation,
    in_workspace: bool,
) -> PolicyDecision {
    if !in_workspace {
        PolicyDecision::Deny
    } else {
        match operation {
            Operation::FileRead | Operation::FileSearch | Operation::GitDiff
            | Operation::ExternalRead => PolicyDecision::Allow,
            Operation::ShellReadOnly => if allow_shell_read_only {
                PolicyDecision::Allow
            } else {
                PolicyDecision::Ask
            },
            _ => PolicyDecision::Ask,
        }
    }
}

/// An operation may proceed when it is allowed, or when it asks and the user
/// approved it.
pub open spec fn policy_permits(
    allow_shell_read_only: bool,
    operation: Operation,
    in_workspace: bool,
    approved: bool,
) -> bool {
    match policy_decision(allow_shell_read_only, operation, in_workspace) {
        PolicyDecision::Allow => true,
        PolicyDecision::Ask => approved,
        PolicyDecision::Deny => false,
    }
}

/// The operations that change state: they never proceed without approval.
pub open spec fn is_mutation(operation: Operation) -> bool {
    operation == Operation::FileWrite || operation == Operation::FileDelete || operation
        == Operation::ShellExecute || operation == Operation::GitCommit || operation
        == Operation::GitPush || operation == Operation::ProductionDeploy || operation
        == Operation::ExternalWrite
}

impl Default for PolicyEngine {
    fn default() -> (p: PolicyEngine)
        ensures
            p.allows_shell_read_only(),
    {
        PolicyEngine { allow_shell_read_only: true }
    }
}

impl PolicyEngine {
    pub closed spec fn allows_shell_read_only(&self) -> bool {
        self.allow_shell_read_only
    }

    /// An engine that allows (or not) read-only shell commands without asking.
    pub fn new(allow_shell_read_only: bool) -> (p: PolicyEngine)
        ensures
            p.allows_shell_read_only() == allow_shell_read_only,
    {
        PolicyEngine { allow_shell_read_only }
    }

    /// The decision for `operation`.
    pub fn decide(&self, operation: Operation, in_workspace: bool) -> (d: PolicyDecision)
        ensures
            d == policy_decision(self.allows_shell_read_only(), operation, in_workspace),
    {
        if !in_workspace {
            return PolicyDecision::Deny;
        }
        match operation {
            Operation::FileRead | Operation::FileSearch | Operation::GitDiff
            | Operation::ExternalRead => PolicyDecision::Allow,
            Operation::ShellReadOnly => if self.allow_shell_read_only {
                PolicyDecision::Allow
            } else {
                PolicyDecision::Ask
            },
            Operation::FileWrite | Operation::FileDelete | Operation::ShellExecute
            | Operation::GitCommit | Operation::GitPush | Operation::ProductionDeploy
            | Operation::ExternalWrite => PolicyDecision::Ask,
        }
    }

    /// `Ok` when the operation may proceed, `Denied` otherwise.
    pub fn require(&self, operation: Operation, in_workspace: bool, approved: bool) -> (r: Result<
        (),
        SecurityError,
    >)
        ensures
            r is Ok <==> policy_permits(
                self.allows_shell_read_only(),
                operation,
                in_workspace,
                approved,
            ),
            r is Err ==> r == Err::<(), SecurityError>(SecurityError::Denied),
    {
        match self.decide(operation, in_workspace) {
            PolicyDecision::Allow => Ok(()),
            PolicyDecision::Ask => if approved {
                Ok(())
            } else {
                Err(SecurityError::Denied)
            },
            PolicyDecision::Deny => Err(SecurityError::Denied),
        }
    }
}

/// Nothing proceeds outside the workspace, approved or not.
pub proof fn law_outside_workspace_is_denied(
    allow_shell_read_only: bool,
    operation: Operation,
    approved: bool,
)
    ensures
        policy_decision(allow_shell_read_only, operation, false) == PolicyDecision::Deny,
        !policy_permits(allow_shell_read_only, operation, false, approved),
{
}

/// A mutating operation never proceeds without the user's approval, and
/// proceeds with it inside the workspace.
pub proof fn law_mutations_need_approval(allow_shell_read_only: bool, operation: Operation, in_workspace: bool)
    requires
        is_mutation(operation),
    ensures
        !policy_permits(allow_shell_read_only, operation, in_workspace, false),
        in_workspace ==> policy_permits(allow_shell_read_only, operation, in_workspace, true),
{
}

/// Approval never takes a permission away.
pub proof fn law_approval_is_monotone(
    allow_shell_read_only: bool,
    operation: Operation,
    in_workspace: bool,
)
    ensures
        policy_permits(allow_shell_read_only, operation, in_workspace, false) ==> policy_permits(
            allow_shell_read_only,
            operation,
            in_workspace,
            true,
        ),
{
}

/// Reads inside the workspace proceed without asking.
pub proof fn law_reads_need_no_approval(allow_shell_read_only: bool, approved: bool)
    ensures
        policy_permits(allow_shell_read_only, Operation::FileRead, true, approved),
        policy_permits(allow_shell_read_only, Operation::FileSearch, true, approved),
        policy_permits(allow_shell_read_only, Operation::GitDiff, true, approved),
{
}

/// The permission class that shows a decision to the user.
pub open spec fn class_of(decision: PolicyDecision) -> PermissionClass {
    match decision {
        PolicyDecision::Allow => PermissionClass::Allow,
        PolicyDecision::Ask => PermissionClass::Ask,
        PolicyDecision::Deny => PermissionClass::Deny,
    }
}

/// The decision that a permission class stands for.
pub open spec fn decision_of(class: PermissionClass) -> PolicyDecision {
    match class {
        PermissionClass::Allow => PolicyDecision::Allow,
        PermissionClass::Ask => PolicyDecision::Ask,
        PermissionClass::Deny => PolicyDecision::Deny,
    }
}

pub fn permission_class(decision: PolicyDecision) -> (c: PermissionClass)
    ensures
        c == class_of(decision),
{
    match decision {
        PolicyDecision::Allow => PermissionClass::Allow,
        PolicyDecision::Ask => PermissionClass::Ask,
        PolicyDecision::Deny => PermissionClass::Deny,
    }
}

/// Decisions and permission classes correspond one to one.
pub proof fn law_permission_class_round_trip(decision: PolicyDecision, class: PermissionClass)
    ensures
        decision_of(class_of(decision)) == decision,
        class_of(decision_of(class)) == class,
{
}

// ----------------------------------------------------------------------------
// Secret redaction
// ----------------------------------------------------------------------------

/// The text that stands in for a redacted secret.
pub open spec fn redaction_mark() -> Seq<char> {
    "[REDACTED]"@
}

/// `input` with each non-empty secret, in turn, replaced by the mark.
pub open spec fn redacted(input: Seq<char>, secrets: Seq<Seq<char>>) -> Seq<char>
    decreases secrets.len(),
{
    if secrets.len() == 0 {
        input
    } else {
        let before = redacted(input, secrets.drop_last());
        if secrets.last().len() == 0 {
            before
        } else {
            replace_all(before, secrets.last(), redaction_mark())
        }
    }
}

pub open spec fn secret_views(secrets: Seq<&str>) -> Seq<Seq<char>> {
    secrets.map_values(|s: &str| s@)
}

/// `input` with every occurrence of each non-empty secret replaced by
/// `[REDACTED]`, secret after secret.
pub fn redact_secrets(input: &str, secrets: &[&str]) -> (r: String)
    ensures
        r@ == redacted(input@, secret_views(secrets@)),
{
    let mark = chars_of("[REDACTED]");
    let mut value = chars_of(input);
    let mut i: usize = 0;
    while i < secrets.len()
        invariant
            i <= secrets.len(),
            mark@ == redaction_mark(),
            value@ == redacted(input@, secret_views(secrets@).take(i as int)),
        decreases secrets.len() - i,
    {
        let secret = chars_of(secrets[i]);
        assert(secret_views(secrets@).take(i + 1).drop_last() =~= secret_views(secrets@).take(
            i as int,
        ));
        if secret.len() > 0 {
            value = replace_all_exec(&value, &secret, &mark);
        }
        i = i + 1;
    }
    assert(secret_views(secrets@).take(secrets.len() as int) =~= secret_views(secrets@));
    string_of(&value)
}

/// A non-empty secret that shares no character with `[REDACTED]` does not
/// occur in the redacted text, whatever the other secrets are.
pub proof fn law_redaction_removes_secret(input: Seq<char>, secrets: Seq<Seq<char>>, k: int)
    requires
        0 <= k < secrets.len(),
        secrets[k].len() > 0,
        disjoint_chars(secrets[k], redaction_mark()),
    ensures
        !occurs(redacted(input, secrets), secrets[k]),
    decreases secrets.len(),
{
    reveal_strlit("[REDACTED]");
    let before = redacted(input, secrets.drop_last());
    if k == secrets.len() - 1 {
        lemma_replace_removes(before, secrets[k], redaction_mark());
    } else {
        law_redaction_removes_secret(input, secrets.drop_last(), k);
        assert(secrets.drop_last()[k] == secrets[k]);
        if secrets.last().len() > 0 {
            lemma_replace_keeps_absent(before, secrets.last(), redaction_mark(), secrets[k]);
        }
    }
}

/// A text in which no secret occurs is returned unchanged.
pub proof fn law_redaction_without_secrets_is_identity(input: Seq<char>, secrets: Seq<Seq<char>>)
    requires
        forall|j: int| 0 <= j < secrets.len() ==> !occurs(input, #[trigger] secrets[j]),
    ensures
        redacted(input, secrets) == input,
    decreases secrets.len(),
{
    if secrets.len() > 0 {
        law_redaction_without_secrets_is_identity(input, secrets.drop_last());
        assert(!occurs(input, secrets[secrets.len() - 1]));
        lemma_replace_absent_is_identity(input, secrets.last(), redaction_mark());
    }
}

// ----------------------------------------------------------------------------
// Shell commands
// ----------------------------------------------------------------------------

/// The deny-listed shell fragments, matched against the lower-cased command.
pub open spec fn blocked_pattern(k: int) -> Seq<char> {
    if k == 0 {
        "rm -rf /"@
    } else if k == 1 {
        "format c:"@
    } else if k == 2 {
        "shutdown"@
    } else if k == 3 {
        "reboot"@
    } else if k == 4 {
        "del /s /q"@
    } else if k == 5 {
        "drop database"@
    } else if k == 6 {
        "curl | sh"@
    } else {
        "wget | sh"@
    }
}

pub open spec fn blocked_pattern_count() -> int {
    8
}

/// The command, ASCII-lower-cased, contains a deny-listed fragment.
pub open spec fn command_is_blocked(command: Seq<char>) -> bool {
    exists|k: int| 0 <= k < blocked_pattern_count() && occurs(lower_ascii(command), blocked_pattern(k))
}

fn blocked_pattern_text(k: usize) -> (s: &'static str)
    requires
        k < 8,
    ensures
        s@ == blocked_pattern(k as int),
{
    if k == 0 {
        "rm -rf /"
    } else if k == 1 {
        "format c:"
    } else if k == 2 {
        "shutdown"
    } else if k == 3 {
        "reboot"
    } else if k == 4 {
        "del /s /q"
    } else if k == 5 {
        "drop database"
    } else if k == 6 {
        "curl | sh"
    } else {
        "wget | sh"
    }
}

/// Refuses a command that contains a deny-listed fragment, ignoring ASCII case.
pub fn validate_shell_command(command: &str) -> (r: Result<(), SecurityError>)
    ensures
        r is Err <==> command_is_blocked(command@),
        r is Err ==> r == Err::<(), SecurityError>(SecurityError::CommandDenied),
{
    let normalized = lower_ascii_exec(&chars_of(command));
    let mut k: usize = 0;
    while k < 8
        invariant
            k <= 8,
            normalized@ == lower_ascii(command@),
            forall|j: int| 0 <= j < k ==> !occurs(normalized@, #[trigger] blocked_pattern(j)),
        decreases 8 - k,
    {
        let pattern = chars_of(blocked_pattern_text(k));
        if contains_exec(&normalized, &pattern) {
            return Err(SecurityError::CommandDenied);
        }
        k = k + 1;
    }
    Ok(())
}

} // verus!
