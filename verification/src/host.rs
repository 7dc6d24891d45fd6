//! Host-control tools: opening applications and URLs, listing processes,
//! running a bounded shell command, media keys and notifications. This
//! module decides; starting processes is left to the caller.
use vstd::prelude::*;
use crate::security::{
    Operation, PolicyEngine, SecurityError, policy_permits, validate_shell_command,
    command_is_blocked, security_message,
};
use crate::task::{ExecutionTarget, PermissionClass};
use crate::text::{
    chars_of, contains_exec, lines, lines_exec, lower_ascii, lower_ascii_exec, occurs, owned,
    starts_with, starts_with_exec, string_of, trim, trim_exec, char_views, string_views,
};
use crate::json::{json_string_list_object, string_list_object};
use crate::tools::{
    ToolDescriptor, ToolError, ToolInput, ToolResult, invalid_input, prefixed, text_field,
    text_or_empty,
};

verus! {

#[derive(Debug, Clone, Copy, PartialEq, Eq, Structural)]
pub enum HostToolKind {
    OpenApp,
    OpenUrl,
    ProcessList,
    ShellExec,
    MediaControl,
    Notify,
}

/// The operating system the host tools run on.
#[derive(Debug, Clone, Copy, PartialEq, Eq, Structural)]
pub enum HostOs {
    Windows,
    MacOs,
    OtherUnix,
}

pub open spec fn host_name(kind: HostToolKind) -> Seq<char> {
    match kind {
        HostToolKind::OpenApp => "host_open_app"@,
        HostToolKind::OpenUrl => "host_open_url"@,
        HostToolKind::ProcessList => "host_process_list"@,
        HostToolKind::ShellExec => "host_shell_exec"@,
        HostToolKind::MediaControl => "host_media_control"@,
        HostToolKind::Notify => "host_notify"@,
    }
}

pub open spec fn host_description(kind: HostToolKind) -> Seq<char> {
    match kind {
        HostToolKind::OpenApp => "Open an allowlisted desktop application or service."@,
        HostToolKind::OpenUrl => "Open a validated HTTP(S) URL in the default browser."@,
        HostToolKind::ProcessList => "Inspect currently running processes without modifying them."@,
        HostToolKind::ShellExec => "Execute a bounded shell command inside the active workspace."@,
        HostToolKind::MediaControl => "Control the active local media player."@,
        HostToolKind::Notify => "Send a local desktop notification."@,
    }
}

pub open spec fn host_permission(kind: HostToolKind) -> PermissionClass {
    match kind {
        HostToolKind::OpenApp | HostToolKind::ShellExec => PermissionClass::Ask,
        _ => PermissionClass::Allow,
    }
}

/// The operation that the policy is asked about before the tool runs.
pub open spec fn host_operation(kind: HostToolKind) -> Operation {
    match kind {
        HostToolKind::OpenApp | HostToolKind::ShellExec | HostToolKind::MediaControl => Operation::ShellExecute,
        _ => Operation::ShellReadOnly,
    }
}

/// The host tools' timeout, in milliseconds.
pub const HOST_TIMEOUT_MS: u64 = 30_000;

/// The media actions the media tool accepts.
pub open spec fn is_media_action(a: Seq<char>) -> bool {
    a == "play"@ || a == "pause"@ || a == "play_pause"@ || a == "next"@ || a == "previous"@ || a
        == "stop"@
}

/// An HTTP(S) URL on a single line.
pub open spec fn is_openable_url(url: Seq<char>) -> bool {
    (starts_with(url, "https://"@) || starts_with(url, "http://"@)) && !occurs(url, "\n"@)
}

/// Why `validate` refuses an input, if it does (before the working
/// directory of a shell command is resolved).
pub open spec fn host_input_error(kind: HostToolKind, input: ToolInput) -> Option<Seq<char>> {
    if !input.is_object {
        Some("input must be an object"@)
    } else {
        match kind {
            HostToolKind::OpenUrl => match text_field(input, "url"@) {
                None => Some("url is required"@),
                Some(url) => if !(starts_with(url, "https://"@) || starts_with(url, "http://"@)) {
                    Some("only HTTP(S) URLs are allowed"@)
                } else {
                    None
                },
            },
            HostToolKind::OpenApp => if text_or_empty(input, "app"@).len() == 0 {
                Some("app is required"@)
            } else {
                None
            },
            HostToolKind::ShellExec => match text_field(input, "command"@) {
                None => Some("command is required"@),
                Some(c) => if command_is_blocked(c) {
                    Some(security_message(SecurityError::CommandDenied))
                } else {
                    None
                },
            },
            HostToolKind::MediaControl => if !is_media_action(text_or_empty(input, "action"@)) {
                Some("unsupported media action"@)
            } else {
                None
            },
            HostToolKind::Notify => if text_or_empty(input, "title"@).len() == 0 || text_or_empty(
                input,
                "message"@,
            ).len() == 0 {
                Some("title and message are required"@)
            } else {
                None
            },
            HostToolKind::ProcessList => None,
        }
    }
}

/// How to carry out an "open application" request.
#[derive(Debug, Clone)]
pub enum AppLaunch {
    /// Open this URL in the browser.
    Url(String),
    /// Start this program with these arguments.
    Program { program: String, args: Vec<String> },
}

pub open spec fn is_allowlisted_app(app: Seq<char>) -> bool {
    app == "calculator"@ || app == "terminal"@ || app == "files"@ || app == "browser"@ || app
        == "vscode"@ || app == "code"@ || app == "notepad"@
}

/// The program that starts an allowlisted application.
pub open spec fn app_program(app: Seq<char>, os: HostOs) -> Seq<char> {
    if app == "calculator"@ {
        match os {
            HostOs::Windows => "calc"@,
            HostOs::MacOs => "open"@,
            HostOs::OtherUnix => "gnome-calculator"@,
        }
    } else if app == "terminal"@ {
        match os {
            HostOs::Windows => "cmd"@,
            HostOs::MacOs => "open"@,
            HostOs::OtherUnix => "x-terminal-emulator"@,
        }
    } else if app == "files"@ {
        match os {
            HostOs::Windows => "explorer"@,
            HostOs::MacOs => "open"@,
            HostOs::OtherUnix => "xdg-open"@,
        }
    } else if app == "browser"@ {
        match os {
            HostOs::Windows => "cmd"@,
            HostOs::MacOs => "open"@,
            HostOs::OtherUnix => "xdg-open"@,
        }
    } else if app == "notepad"@ {
        match os {
            HostOs::Windows => "notepad"@,
            _ => "gedit"@,
        }
    } else {
        "code"@
    }
}

/// The arguments placed before the user's: `/C` for the Windows terminal,
/// `-a <app>` for the macOS launcher, `.` for a browser or file manager
/// elsewhere.
pub open spec fn app_leading_args(app: Seq<char>, os: HostOs) -> Seq<Seq<char>> {
    let win = if os == HostOs::Windows && app == "terminal"@ {
        seq!["/C"@]
    } else {
        Seq::empty()
    };
    let mac = if os == HostOs::MacOs && (app == "calculator"@ || app == "terminal"@ || app
        == "files"@ || app == "browser"@) {
        seq!["-a"@, app]
    } else {
        Seq::empty()
    };
    let dot = if os != HostOs::MacOs && (app == "browser"@ || app == "files"@) {
        seq!["."@]
    } else {
        Seq::empty()
    };
    win + mac + dot
}

/// The processes listing: the lines of the trimmed output that contain the
/// lower-cased filter, ignoring ASCII case, at most 200 of them.
pub open spec fn process_matches_upto(ls: Seq<Seq<char>>, filter: Seq<char>, k: int) -> Seq<Seq<char>>
    decreases k,
{
    if k <= 0 {
        Seq::empty()
    } else if filter.len() == 0 || occurs(lower_ascii(ls[k - 1]), filter) {
        process_matches_upto(ls, filter, k - 1).push(ls[k - 1])
    } else {
        process_matches_upto(ls, filter, k - 1)
    }
}

pub open spec fn process_listing(output: Seq<char>, filter: Seq<char>) -> Seq<Seq<char>> {
    let all = process_matches_upto(lines(output), lower_ascii(filter), lines(output).len() as int);
    if all.len() <= 200 {
        all
    } else {
        all.take(200)
    }
}

proof fn lemma_process_prefix(ls: Seq<Seq<char>>, filter: Seq<char>, k: int, m: int)
    requires
        0 <= k <= m,
    ensures
        process_matches_upto(ls, filter, k).len() <= process_matches_upto(ls, filter, m).len(),
        process_matches_upto(ls, filter, m).take(process_matches_upto(ls, filter, k).len() as int)
            == process_matches_upto(ls, filter, k),
    decreases m - k,
{
    if k < m {
        lemma_process_prefix(ls, filter, k, m - 1);
        let a = process_matches_upto(ls, filter, k);
        let b = process_matches_upto(ls, filter, m - 1);
        assert(process_matches_upto(ls, filter, m).take(a.len() as int) =~= b.take(a.len() as int));
    } else {
        assert(process_matches_upto(ls, filter, m).take(process_matches_upto(ls, filter, k).len() as int)
            =~= process_matches_upto(ls, filter, k));
    }
}

pub open spec fn host_schema(kind: HostToolKind) -> Seq<char> {
    match kind {
        HostToolKind::OpenApp => "{\"type\":\"object\",\"required\":[\"app\"],\"properties\":{\"app\":{\"type\":\"string\"},\"args\":{\"type\":\"array\",\"items\":{\"type\":\"string\"}}}}"@,
        HostToolKind::OpenUrl => "{\"type\":\"object\",\"required\":[\"url\"],\"properties\":{\"url\":{\"type\":\"string\",\"pattern\":\"^https?://\"}}}"@,
        HostToolKind::ProcessList => "{\"type\":\"object\",\"properties\":{\"filter\":{\"type\":\"string\"}}}"@,
        HostToolKind::ShellExec => "{\"type\":\"object\",\"required\":[\"command\"],\"properties\":{\"command\":{\"type\":\"string\",\"minLength\":1},\"cwd\":{\"type\":\"string\"}}}"@,
        HostToolKind::MediaControl => "{\"type\":\"object\",\"required\":[\"action\"],\"properties\":{\"action\":{\"enum\":[\"play\",\"pause\",\"play_pause\",\"next\",\"previous\",\"stop\"]}}}"@,
        HostToolKind::Notify => "{\"type\":\"object\",\"required\":[\"title\",\"message\"],\"properties\":{\"title\":{\"type\":\"string\"},\"message\":{\"type\":\"string\"}}}"@,
    }
}

impl HostToolKind {
    pub fn name(self) -> (s: String)
        ensures
            s@ == host_name(self),
    {
        match self {
            HostToolKind::OpenApp => owned("host_open_app"),
            HostToolKind::OpenUrl => owned("host_open_url"),
            HostToolKind::ProcessList => owned("host_process_list"),
            HostToolKind::ShellExec => owned("host_shell_exec"),
            HostToolKind::MediaControl => owned("host_media_control"),
            HostToolKind::Notify => owned("host_notify"),
        }
    }

    pub fn description(self) -> (s: String)
        ensures
            s@ == host_description(self),
    {
        match self {
            HostToolKind::OpenApp => owned("Open an allowlisted desktop application or service."),
            HostToolKind::OpenUrl => owned("Open a validated HTTP(S) URL in the default browser."),
            HostToolKind::ProcessList => owned(
                "Inspect currently running processes without modifying them.",
            ),
            HostToolKind::ShellExec => owned(
                "Execute a bounded shell command inside the active workspace.",
            ),
            HostToolKind::MediaControl => owned("Control the active local media player."),
            HostToolKind::Notify => owned("Send a local desktop notification."),
        }
    }

    pub fn permission(self) -> (p: PermissionClass)
        ensures
            p == host_permission(self),
    {
        match self {
            HostToolKind::ProcessList | HostToolKind::OpenUrl | HostToolKind::Notify
            | HostToolKind::MediaControl => PermissionClass::Allow,
            HostToolKind::OpenApp | HostToolKind::ShellExec => PermissionClass::Ask,
        }
    }

    /// The JSON schema of the tool's input, as JSON text.
    pub fn schema(self) -> (s: String)
        ensures
            s@ == host_schema(self),
    {
        match self {
            HostToolKind::OpenApp => owned(
                "{\"type\":\"object\",\"required\":[\"app\"],\"properties\":{\"app\":{\"type\":\"string\"},\"args\":{\"type\":\"array\",\"items\":{\"type\":\"string\"}}}}",
            ),
            HostToolKind::OpenUrl => owned(
                "{\"type\":\"object\",\"required\":[\"url\"],\"properties\":{\"url\":{\"type\":\"string\",\"pattern\":\"^https?://\"}}}",
            ),
            HostToolKind::ProcessList => owned(
                "{\"type\":\"object\",\"properties\":{\"filter\":{\"type\":\"string\"}}}",
            ),
            HostToolKind::ShellExec => owned(
                "{\"type\":\"object\",\"required\":[\"command\"],\"properties\":{\"command\":{\"type\":\"string\",\"minLength\":1},\"cwd\":{\"type\":\"string\"}}}",
            ),
            HostToolKind::MediaControl => owned(
                "{\"type\":\"object\",\"required\":[\"action\"],\"properties\":{\"action\":{\"enum\":[\"play\",\"pause\",\"play_pause\",\"next\",\"previous\",\"stop\"]}}}",
            ),
            HostToolKind::Notify => owned(
                "{\"type\":\"object\",\"required\":[\"title\",\"message\"],\"properties\":{\"title\":{\"type\":\"string\"},\"message\":{\"type\":\"string\"}}}",
            ),
        }
    }

    /// The operation that the policy is asked about before the tool runs.
    pub fn operation(self) -> (o: Operation)
        ensures
            o == host_operation(self),
    {
        match self {
            HostToolKind::OpenApp => Operation::ShellExecute,
            HostToolKind::OpenUrl => Operation::ShellReadOnly,
            HostToolKind::ProcessList => Operation::ShellReadOnly,
            HostToolKind::ShellExec => Operation::ShellExecute,
            HostToolKind::MediaControl => Operation::ShellExecute,
            HostToolKind::Notify => Operation::ShellReadOnly,
        }
    }
}

/// A host-control tool and the policy it is held to.
#[derive(Debug, Clone)]
pub struct HostTool {
    kind: HostToolKind,
    policy: PolicyEngine,
}

fn is_media_action_exec(a: &Vec<char>) -> (r: bool)
    ensures
        r == is_media_action(a@),
{
    let s = string_of(a.as_slice());
    s == owned("play") || s == owned("pause") || s == owned("play_pause") || s == owned("next")
        || s == owned("previous") || s == owned("stop")
}

fn text_is(s: &String, lit: &str) -> (r: bool)
    ensures
        r == (s@ == lit@),
{
    *s == owned(lit)
}

impl HostTool {
    pub closed spec fn kind(&self) -> HostToolKind {
        self.kind
    }

    pub closed spec fn policy(&self) -> PolicyEngine {
        self.policy
    }

    /// A tool of the given kind held to the default policy.
    pub fn new(kind: HostToolKind) -> (t: HostTool)
        ensures
            t.kind() == kind,
            t.policy().allows_shell_read_only(),
    {
        HostTool { kind, policy: PolicyEngine::default() }
    }

    /// A tool of the given kind held to `policy`.
    pub fn with_policy(kind: HostToolKind, policy: PolicyEngine) -> (t: HostTool)
        ensures
            t.kind() == kind,
            t.policy() == policy,
    {
        HostTool { kind, policy }
    }

    /// One tool of each kind, in declaration order.
    pub fn all() -> (v: Vec<HostTool>)
        ensures
            v@.len() == 6,
            v@[0].kind() == HostToolKind::OpenApp,
            v@[1].kind() == HostToolKind::OpenUrl,
            v@[2].kind() == HostToolKind::ProcessList,
            v@[3].kind() == HostToolKind::ShellExec,
            v@[4].kind() == HostToolKind::MediaControl,
            v@[5].kind() == HostToolKind::Notify,
    {
        let mut v = Vec::new();
        v.push(HostTool::new(HostToolKind::OpenApp));
        v.push(HostTool::new(HostToolKind::OpenUrl));
        v.push(HostTool::new(HostToolKind::ProcessList));
        v.push(HostTool::new(HostToolKind::ShellExec));
        v.push(HostTool::new(HostToolKind::MediaControl));
        v.push(HostTool::new(HostToolKind::Notify));
        v
    }

    pub fn tool_kind(&self) -> (k: HostToolKind)
        ensures
            k == self.kind(),
    {
        self.kind
    }

    pub fn descriptor(&self) -> (d: ToolDescriptor)
        ensures
            d.name@ == host_name(self.kind()),
            d.version@ == "1"@,
            d.description@ == host_description(self.kind()),
            d.permission == host_permission(self.kind()),
            d.target == ExecutionTarget::Host,
            d.timeout_ms == HOST_TIMEOUT_MS,
            d.idempotent == (self.kind() != HostToolKind::ShellExec),
            d.input_schema@ == host_schema(self.kind()),
    {
        ToolDescriptor {
            name: self.kind.name(),
            version: owned("1"),
            description: self.kind.description(),
            permission: self.kind.permission(),
            target: ExecutionTarget::Host,
            timeout_ms: HOST_TIMEOUT_MS,
            idempotent: self.kind != HostToolKind::ShellExec,
            input_schema: self.kind.schema(),
        }
    }

    /// Checks the input; for a shell command, the caller then resolves the
    /// working directory (see [`HostTool::shell_cwd`]) inside the workspace.
    pub fn check_input(&self, input: &ToolInput) -> (r: Result<(), ToolError>)
        ensures
            r is Ok <==> host_input_error(self.kind(), *input) is None,
            r matches Err(e) ==> (e matches ToolError::InvalidInput(m) && host_input_error(
                self.kind(),
                *input,
            ) == Some(m@)),
    {
        if !input.is_object {
            return Err(invalid_input("input must be an object"));
        }
        match self.kind {
            HostToolKind::OpenUrl => {
                let url = match input.text("url") {
                    Some(u) => u,
                    None => {
                        return Err(invalid_input("url is required"));
                    },
                };
                let chars = chars_of(url.as_str());
                if !(starts_with_exec(&chars, &chars_of("https://")) || starts_with_exec(
                    &chars,
                    &chars_of("http://"),
                )) {
                    return Err(invalid_input("only HTTP(S) URLs are allowed"));
                }
            },
            HostToolKind::OpenApp => {
                if input.text_or_empty("app").as_str().is_empty() {
                    return Err(invalid_input("app is required"));
                }
            },
            HostToolKind::ShellExec => {
                let command = match input.text("command") {
                    Some(c) => c,
                    None => {
                        return Err(invalid_input("command is required"));
                    },
                };
                match validate_shell_command(command.as_str()) {
                    Ok(()) => {},
                    Err(e) => {
                        return Err(ToolError::InvalidInput(e.message()));
                    },
                }
            },
            HostToolKind::MediaControl => {
                let action = chars_of(input.text_or_empty("action").as_str());
                if !is_media_action_exec(&action) {
                    return Err(invalid_input("unsupported media action"));
                }
            },
            HostToolKind::Notify => {
                if input.text_or_empty("title").as_str().is_empty() || input.text_or_empty(
                    "message",
                ).as_str().is_empty() {
                    return Err(invalid_input("title and message are required"));
                }
            },
            HostToolKind::ProcessList => {},
        }
        Ok(())
    }

    /// The working directory of a shell command: the `cwd` field, or `.`.
    pub fn shell_cwd(input: &ToolInput) -> (s: String)
        ensures
            text_field(*input, "cwd"@) matches Some(c) ==> s@ == c,
            text_field(*input, "cwd"@) is None ==> s@ == "."@,
    {
        match input.text("cwd") {
            Some(c) => c,
            None => owned("."),
        }
    }

    /// Validation as a whole: the input checks, then, for a shell command,
    /// its working directory (see [`HostTool::shell_cwd`]) must resolve
    /// inside the workspace; `cwd_resolution` is the scope's answer for it.
    pub fn validation(&self, input: &ToolInput, cwd_resolution: Result<(), SecurityError>) -> (r: Result<
        (),
        ToolError,
    >)
        ensures
            r is Ok <==> (host_input_error(self.kind(), *input) is None && (self.kind()
                == HostToolKind::ShellExec ==> cwd_resolution is Ok)),
            host_input_error(self.kind(), *input) matches Some(m) ==> (r matches Err(
                ToolError::InvalidInput(e),
            ) && e@ == m),
            host_input_error(self.kind(), *input) is None ==> (self.kind() == HostToolKind::ShellExec
                ==> (cwd_resolution matches Err(e) ==> (r matches Err(ToolError::InvalidInput(m))
                && m@ == security_message(e)))),
    {
        self.check_input(input)?;
        if self.kind == HostToolKind::ShellExec {
            if let Err(e) = cwd_resolution {
                return Err(ToolError::InvalidInput(e.message()));
            }
        }
        Ok(())
    }

    /// `Execution(<policy message>)` unless the policy lets the tool's
    /// operation proceed.
    pub fn authorize(&self, approved: bool) -> (r: Result<(), ToolError>)
        ensures
            r is Ok <==> policy_permits(
                self.policy().allows_shell_read_only(),
                host_operation(self.kind()),
                true,
                approved,
            ),
            r matches Err(e) ==> (e matches ToolError::Execution(m) && m@ == security_message(
                SecurityError::Denied,
            )),
    {
        match self.policy.require(self.kind.operation(), true, approved) {
            Ok(()) => Ok(()),
            Err(e) => Err(ToolError::Execution(e.message())),
        }
    }
}

/// The summary of a completed host action.
pub open spec fn host_summary_text(kind: HostToolKind, input: ToolInput) -> Seq<char> {
    match kind {
        HostToolKind::OpenUrl => "Opened URL"@,
        HostToolKind::OpenApp => "Opened application: "@ + text_or_empty(input, "app"@),
        HostToolKind::ProcessList => "Listed running processes"@,
        HostToolKind::ShellExec => "Shell command completed"@,
        HostToolKind::MediaControl => "Media action: "@ + text_or_empty(input, "action"@),
        HostToolKind::Notify => "Desktop notification sent"@,
    }
}

/// The result of a completed host action: the tool's name, its summary,
/// the data and the time taken; host results are never redacted.
pub fn host_result(
    kind: HostToolKind,
    input: &ToolInput,
    invocation_id: u128,
    data: serde_json::Value,
    duration_ms: u64,
) -> (r: ToolResult)
    ensures
        r.invocation_id == invocation_id,
        r.tool@ == host_name(kind),
        r.success,
        r.summary@ == host_summary_text(kind, *input),
        r.data == data,
        r.duration_ms == duration_ms,
        !r.redacted,
{
    ToolResult::completed(invocation_id, kind.name(), host_summary(kind, input), data, duration_ms, false)
}

/// The result of listing processes from the listing program's output: the
/// shown lines (see [`process_listing`]) under `processes`, with the filter
/// the input gives (empty when it gives none).
pub fn process_list_result(input: &ToolInput, invocation_id: u128, output: &str, duration_ms: u64) -> (r:
    ToolResult)
    ensures
        r.invocation_id == invocation_id,
        r.tool@ == "host_process_list"@,
        r.success,
        r.summary@ == "Listed running processes"@,
        r.data == json_string_list_object(
            "processes"@,
            process_listing(output@, text_or_empty(*input, "filter"@)),
        ),
        r.duration_ms == duration_ms,
        !r.redacted,
{
    let filter = input.text_or_empty("filter");
    let shown = filter_processes(output, filter.as_str());
    let data = string_list_object("processes", shown);
    host_result(HostToolKind::ProcessList, input, invocation_id, data, duration_ms)
}

/// Accepts a URL to open when it is HTTP(S) on a single line.
pub fn check_openable_url(url: &str) -> (r: Result<(), ToolError>)
    ensures
        r is Ok <==> is_openable_url(url@),
        r matches Err(e) ==> (e matches ToolError::InvalidInput(m) && m@
            == "only HTTP(S) URLs are allowed"@),
{
    let chars = chars_of(url);
    let https = starts_with_exec(&chars, &chars_of("https://"));
    let http = starts_with_exec(&chars, &chars_of("http://"));
    let newline = contains_exec(&chars, &chars_of("\n"));
    if !(https || http) || newline {
        return Err(invalid_input("only HTTP(S) URLs are allowed"));
    }
    Ok(())
}

/// How an "open application" request is carried out: the name is trimmed
/// and lower-cased; `youtube` and `spotify` open their web sites; other
/// allowlisted names start a program for the operating system.
pub open spec fn launch_plan(app: Seq<char>, args: Seq<Seq<char>>, os: HostOs) -> Result<
    (bool, Seq<char>, Seq<Seq<char>>),
    Seq<char>,
> {
    let name = lower_ascii(trim(app));
    if name == "youtube"@ {
        Ok((true, "https://www.youtube.com"@, Seq::empty()))
    } else if name == "spotify"@ {
        Ok((true, "https://open.spotify.com"@, Seq::empty()))
    } else if !is_allowlisted_app(name) {
        Err("application is not allowlisted: "@ + name)
    } else {
        Ok((false, app_program(name, os), app_leading_args(name, os) + args))
    }
}

/// The program each allowlisted application starts, whatever its case or
/// surrounding spaces: the calculator is `calc` on Windows, `open` on macOS
/// and `gnome-calculator` elsewhere; the terminal `cmd`, `open`,
/// `x-terminal-emulator`; the file manager `explorer`, `open`, `xdg-open`;
/// the browser `cmd`, `open`, `xdg-open`; the editor `notepad` on Windows
/// and `gedit` elsewhere; VS Code `code` everywhere. The user's arguments
/// come last, unchanged.
pub proof fn law_allowlisted_apps_start_their_programs(app: Seq<char>, args: Seq<Seq<char>>, os: HostOs)
    ensures
        lower_ascii(trim(app)) == "calculator"@ ==> (launch_plan(app, args, os) matches Ok(
            (false, p, a),
        ) && p == (if os == HostOs::Windows {
            "calc"@
        } else if os == HostOs::MacOs {
            "open"@
        } else {
            "gnome-calculator"@
        }) && a.len() >= args.len()
            && a.skip(a.len() - args.len()) == args),
        lower_ascii(trim(app)) == "terminal"@ ==> (launch_plan(app, args, os) matches Ok(
            (false, p, a),
        ) && p == (if os == HostOs::Windows {
            "cmd"@
        } else if os == HostOs::MacOs {
            "open"@
        } else {
            "x-terminal-emulator"@
        }) && a.len() >= args.len()
            && a.skip(a.len() - args.len()) == args),
        lower_ascii(trim(app)) == "files"@ ==> (launch_plan(app, args, os) matches Ok(
            (false, p, a),
        ) && p == (if os == HostOs::Windows {
            "explorer"@
        } else if os == HostOs::MacOs {
            "open"@
        } else {
            "xdg-open"@
        }) && a.len() >= args.len()
            && a.skip(a.len() - args.len()) == args),
        lower_ascii(trim(app)) == "browser"@ ==> (launch_plan(app, args, os) matches Ok(
            (false, p, a),
        ) && p == (if os == HostOs::Windows {
            "cmd"@
        } else if os == HostOs::MacOs {
            "open"@
        } else {
            "xdg-open"@
        }) && a.len() >= args.len()
            && a.skip(a.len() - args.len()) == args),
        lower_ascii(trim(app)) == "notepad"@ ==> (launch_plan(app, args, os) matches Ok(
            (false, p, a),
        ) && p == (if os == HostOs::Windows {
            "notepad"@
        } else {
            "gedit"@
        }) && a.len() >= args.len()
            && a.skip(a.len() - args.len()) == args),
        (lower_ascii(trim(app)) == "vscode"@ || lower_ascii(trim(app)) == "code"@) ==> (launch_plan(
            app,
            args,
            os,
        ) matches Ok((false, p, a)) && p == "code"@ && a.len() >= args.len() && a.skip(
            a.len() - args.len(),
        ) == args),
{
    let name = lower_ascii(trim(app));
    let lead = app_leading_args(name, os);
    assert((lead + args).skip(lead.len() as int) =~= args);
    reveal_strlit("youtube");
    reveal_strlit("spotify");
    reveal_strlit("calculator");
    reveal_strlit("terminal");
    reveal_strlit("files");
    reveal_strlit("browser");
    reveal_strlit("notepad");
    reveal_strlit("vscode");
    reveal_strlit("code");
    assert("youtube"@[0] == 'y' && "spotify"@[0] == 's' && "calculator"@[0] == 'c'
        && "calculator"@[1] == 'a' && "terminal"@[0] == 't' && "files"@[0] == 'f'
        && "browser"@[0] == 'b' && "notepad"@[0] == 'n' && "vscode"@[0] == 'v'
        && "code"@[0] == 'c' && "code"@[1] == 'o');
    if is_allowlisted_app(name) && name != "youtube"@ && name != "spotify"@ {
        lemma_allowlisted_launch(app, args, os);
        if name == "terminal"@ {
            assert(name != "calculator"@);
        } else if name == "files"@ {
            assert(name != "calculator"@ && name != "terminal"@);
        } else if name == "browser"@ {
            assert(name != "calculator"@ && name != "terminal"@ && name != "files"@);
        } else if name == "notepad"@ {
            assert(name != "calculator"@ && name != "terminal"@ && name != "files"@ && name
                != "browser"@);
        } else if name == "vscode"@ || name == "code"@ {
            assert(name != "calculator"@ && name != "terminal"@ && name != "files"@ && name
                != "browser"@ && name != "notepad"@);
        }
    }
}

proof fn lemma_allowlisted_launch(app: Seq<char>, args: Seq<Seq<char>>, os: HostOs)
    requires
        is_allowlisted_app(lower_ascii(trim(app))),
        lower_ascii(trim(app)) != "youtube"@,
        lower_ascii(trim(app)) != "spotify"@,
    ensures
        launch_plan(app, args, os) == Ok::<(bool, Seq<char>, Seq<Seq<char>>), Seq<char>>(
            (
                false,
                app_program(lower_ascii(trim(app)), os),
                app_leading_args(lower_ascii(trim(app)), os) + args,
            ),
        ),
{
}

pub open spec fn launch_view(l: AppLaunch) -> (bool, Seq<char>, Seq<Seq<char>>) {
    match l {
        AppLaunch::Url(u) => (true, u@, Seq::empty()),
        AppLaunch::Program { program, args } => (false, program@, string_views(args@)),
    }
}

fn push_all(out: &mut Vec<String>, more: &Vec<String>)
    ensures
        string_views(final(out)@) == string_views(old(out)@) + string_views(more@),
{
    let ghost start = string_views(out@);
    let mut i: usize = 0;
    while i < more.len()
        invariant
            i <= more@.len(),
            string_views(out@) == start + string_views(more@.take(i as int)),
        decreases more@.len() - i,
    {
        let ghost before = out@;
        let item = more[i].clone();
        out.push(item);
        assert(out@ =~= before.push(more@[i as int]));
        assert(more@.take(i + 1) =~= more@.take(i as int).push(more@[i as int]));
        assert(string_views(out@) =~= string_views(before).push(more@[i as int]@));
        assert(string_views(more@.take(i + 1)) =~= string_views(more@.take(i as int)).push(more@[i as int]@));
        assert(string_views(out@) =~= start + string_views(more@.take(i + 1)));
        i = i + 1;
    }
    assert(more@.take(more@.len() as int) =~= more@);
}

/// Plans an "open application" request (see [`launch_plan`]).
pub fn plan_open_app(app: &str, args: &Vec<String>, os: HostOs) -> (r: Result<AppLaunch, ToolError>)
    ensures
        r matches Ok(l) ==> launch_plan(app@, string_views(args@), os) == Ok::<
            (bool, Seq<char>, Seq<Seq<char>>),
            Seq<char>,
        >(launch_view(l)),
        r matches Err(e) ==> (e matches ToolError::InvalidInput(m) && launch_plan(
            app@,
            string_views(args@),
            os,
        ) == Err::<(bool, Seq<char>, Seq<Seq<char>>), Seq<char>>(m@)),
{
    let chars = lower_ascii_exec(&trim_exec(&chars_of(app)));
    let name = string_of(chars.as_slice());
    if text_is(&name, "youtube") {
        return Ok(AppLaunch::Url(owned("https://www.youtube.com")));
    }
    if text_is(&name, "spotify") {
        return Ok(AppLaunch::Url(owned("https://open.spotify.com")));
    }
    let is_calc = text_is(&name, "calculator");
    let is_terminal = text_is(&name, "terminal");
    let is_files = text_is(&name, "files");
    let is_browser = text_is(&name, "browser");
    let is_code = text_is(&name, "vscode") || text_is(&name, "code");
    let is_notepad = text_is(&name, "notepad");
    if !(is_calc || is_terminal || is_files || is_browser || is_code || is_notepad) {
        return Err(ToolError::InvalidInput(prefixed("application is not allowlisted: ", name.as_str())));
    }
    let program = if is_calc {
        match os {
            HostOs::Windows => owned("calc"),
            HostOs::MacOs => owned("open"),
            HostOs::OtherUnix => owned("gnome-calculator"),
        }
    } else if is_terminal {
        match os {
            HostOs::Windows => owned("cmd"),
            HostOs::MacOs => owned("open"),
            HostOs::OtherUnix => owned("x-terminal-emulator"),
        }
    } else if is_files {
        match os {
            HostOs::Windows => owned("explorer"),
            HostOs::MacOs => owned("open"),
            HostOs::OtherUnix => owned("xdg-open"),
        }
    } else if is_browser {
        match os {
            HostOs::Windows => owned("cmd"),
            HostOs::MacOs => owned("open"),
            HostOs::OtherUnix => owned("xdg-open"),
        }
    } else if is_notepad {
        match os {
            HostOs::Windows => owned("notepad"),
            _ => owned("gedit"),
        }
    } else {
        owned("code")
    };
    let mut launch_args: Vec<String> = Vec::new();
    if os == HostOs::Windows && is_terminal {
        launch_args.push(owned("/C"));
    }
    if os == HostOs::MacOs && (is_calc || is_terminal || is_files || is_browser) {
        launch_args.push(owned("-a"));
        launch_args.push(name.clone());
    }
    if os != HostOs::MacOs && (is_browser || is_files) {
        launch_args.push(owned("."));
    }
    assert(string_views(launch_args@) =~= app_leading_args(name@, os));
    push_all(&mut launch_args, args);
    Ok(AppLaunch::Program { program, args: launch_args })
}

/// The process lines to show (see [`process_listing`]).
pub fn filter_processes(output: &str, filter: &str) -> (r: Vec<String>)
    ensures
        string_views(r@) == process_listing(output@, filter@),
{
    let ls = lines_exec(&chars_of(output));
    let f = lower_ascii_exec(&chars_of(filter));
    let ghost lv = lines(output@);
    let mut out: Vec<String> = Vec::new();
    let mut k: usize = 0;
    while k < ls.len() && out.len() < 200
        invariant
            char_views(ls@) == lv,
            f@ == lower_ascii(filter@),
            k <= ls@.len(),
            out@.len() <= 200,
            string_views(out@) == process_matches_upto(lv, f@, k as int),
        decreases ls@.len() - k,
    {
        assert(ls@[k as int]@ == lv[k as int]);
        let keep = f.len() == 0 || contains_exec(&lower_ascii_exec(&ls[k]), &f);
        if keep {
            out.push(string_of(ls[k].as_slice()));
            assert(string_views(out@) =~= process_matches_upto(lv, f@, k as int).push(lv[k as int]));
        }
        k = k + 1;
    }
    proof {
        lemma_process_prefix(lv, f@, k as int, lv.len() as int);
        if out@.len() < 200 {
            assert(k == lv.len());
        }
    }
    out
}

/// The summary reported when a host tool completes.
pub fn host_summary(kind: HostToolKind, input: &ToolInput) -> (s: String)
    ensures
        s@ == host_summary_text(kind, *input),
{
    match kind {
        HostToolKind::OpenUrl => owned("Opened URL"),
        HostToolKind::OpenApp => prefixed("Opened application: ", input.text_or_empty("app").as_str()),
        HostToolKind::ProcessList => owned("Listed running processes"),
        HostToolKind::ShellExec => owned("Shell command completed"),
        HostToolKind::MediaControl => prefixed("Media action: ", input.text_or_empty("action").as_str()),
        HostToolKind::Notify => owned("Desktop notification sent"),
    }
}

} // verus!
