//! Service integrations reached through configured REST adapters: calendar,
//! CRM, WordPress messages and research sources. This module decides; the
//! HTTP exchange is left to the caller.
use vstd::prelude::*;
use crate::json::{json_parsed, json_text_is_valid, json_text_object, parse_json, text_object};
use crate::security::{Operation, PolicyEngine, SecurityError, policy_permits, security_message};
use crate::task::{ExecutionTarget, PermissionClass};
use crate::text::{chars_of, has_non_space, has_non_space_exec, owned, starts_with, starts_with_exec};
use crate::tools::{ToolDescriptor, ToolError, ToolInput, invalid_input, prefixed, text_or_empty};

verus! {

#[derive(Debug, Clone, Copy, PartialEq, Eq, Structural)]
pub enum IntegrationKind {
    CalendarList,
    CalendarCreate,
    CrmSearch,
    CrmUpsert,
    WordPressMessage,
    ResearchFetch,
}

/// The HTTP method of a request to an adapter.
#[derive(Debug, Clone, Copy, PartialEq, Eq, Structural)]
pub enum HttpMethod {
    Get,
    Post,
}

/// The timeout of a request to an adapter, in milliseconds.
pub const REQUEST_TIMEOUT_MS: u64 = 30_000;

pub open spec fn integration_name(kind: IntegrationKind) -> Seq<char> {
    match kind {
        IntegrationKind::CalendarList => "calendar_list_events"@,
        IntegrationKind::CalendarCreate => "calendar_create_event"@,
        IntegrationKind::CrmSearch => "crm_search_leads"@,
        IntegrationKind::CrmUpsert => "crm_upsert_customer"@,
        IntegrationKind::WordPressMessage => "wordpress_send_message"@,
        IntegrationKind::ResearchFetch => "research_fetch_source"@,
    }
}

pub open spec fn integration_description(kind: IntegrationKind) -> Seq<char> {
    match kind {
        IntegrationKind::CalendarList => "Read calendar events through the configured calendar REST adapter."@,
        IntegrationKind::CalendarCreate => "Create a calendar event through the configured calendar REST adapter."@,
        IntegrationKind::CrmSearch => "Search leads and customers through the configured CRM REST adapter."@,
        IntegrationKind::CrmUpsert => "Create or update a lead/customer through the configured CRM REST adapter."@,
        IntegrationKind::WordPressMessage => "Send a message through the configured WordPress/customer-contact REST adapter."@,
        IntegrationKind::ResearchFetch => "Fetch a research source through a configured research gateway for later synthesis."@,
    }
}

pub open spec fn integration_endpoint_var(kind: IntegrationKind) -> Seq<char> {
    match kind {
        IntegrationKind::CalendarList | IntegrationKind::CalendarCreate => "NYX_CALENDAR_URL"@,
        IntegrationKind::CrmSearch | IntegrationKind::CrmUpsert => "NYX_CRM_URL"@,
        IntegrationKind::WordPressMessage => "NYX_WORDPRESS_URL"@,
        IntegrationKind::ResearchFetch => "NYX_RESEARCH_URL"@,
    }
}

pub open spec fn integration_token_var(kind: IntegrationKind) -> Seq<char> {
    match kind {
        IntegrationKind::CalendarList | IntegrationKind::CalendarCreate => "NYX_CALENDAR_TOKEN"@,
        IntegrationKind::CrmSearch | IntegrationKind::CrmUpsert => "NYX_CRM_TOKEN"@,
        IntegrationKind::WordPressMessage => "NYX_WORDPRESS_TOKEN"@,
        IntegrationKind::ResearchFetch => "NYX_RESEARCH_TOKEN"@,
    }
}

/// The integrations that change remote state.
pub open spec fn integration_writes(kind: IntegrationKind) -> bool {
    kind == IntegrationKind::CalendarCreate || kind == IntegrationKind::CrmUpsert || kind
        == IntegrationKind::WordPressMessage
}

pub open spec fn integration_operation(kind: IntegrationKind) -> Operation {
    if integration_writes(kind) {
        Operation::ExternalWrite
    } else {
        Operation::ExternalRead
    }
}

/// The reading integrations (calendar listing, CRM search, research
/// fetch) read remote state and proceed without approval under any policy;
/// the writing ones (calendar creation, CRM upsert, WordPress message)
/// change remote state, never proceed without approval, and do with it.
pub proof fn law_reads_are_free_and_writes_need_approval(kind: IntegrationKind, allow_shell_read_only: bool)
    ensures
        (kind == IntegrationKind::CalendarList || kind == IntegrationKind::CrmSearch || kind
            == IntegrationKind::ResearchFetch) ==> {
            &&& !integration_writes(kind)
            &&& integration_operation(kind) == Operation::ExternalRead
            &&& policy_permits(allow_shell_read_only, integration_operation(kind), true, false)
        },
        (kind == IntegrationKind::CalendarCreate || kind == IntegrationKind::CrmUpsert || kind
            == IntegrationKind::WordPressMessage) ==> {
            &&& integration_writes(kind)
            &&& integration_operation(kind) == Operation::ExternalWrite
            &&& !policy_permits(allow_shell_read_only, integration_operation(kind), true, false)
            &&& policy_permits(allow_shell_read_only, integration_operation(kind), true, true)
        },
{
}

/// Why `validate` refuses an input, if it does.
pub open spec fn integration_input_error(kind: IntegrationKind, input: ToolInput) -> Option<Seq<char>> {
    if !input.is_object {
        Some("input must be an object"@)
    } else if kind == IntegrationKind::WordPressMessage && !has_non_space(
        text_or_empty(input, "message"@),
    ) {
        Some("message must not be empty"@)
    } else {
        None
    }
}

pub open spec fn integration_schema(kind: IntegrationKind) -> Seq<char> {
    match kind {
        IntegrationKind::CalendarList => "{\"type\":\"object\",\"properties\":{\"from\":{\"type\":\"string\"},\"to\":{\"type\":\"string\"},\"query\":{\"type\":\"string\"}}}"@,
        IntegrationKind::CalendarCreate => "{\"type\":\"object\",\"required\":[\"title\",\"start\",\"end\"],\"properties\":{\"title\":{\"type\":\"string\"},\"start\":{\"type\":\"string\"},\"end\":{\"type\":\"string\"},\"description\":{\"type\":\"string\"},\"attendees\":{\"type\":\"array\",\"items\":{\"type\":\"string\"}}}}"@,
        IntegrationKind::CrmSearch => "{\"type\":\"object\",\"required\":[\"query\"],\"properties\":{\"query\":{\"type\":\"string\"},\"limit\":{\"type\":\"integer\",\"maximum\":100}}}"@,
        IntegrationKind::CrmUpsert => "{\"type\":\"object\",\"required\":[\"contact\"],\"properties\":{\"contact\":{\"type\":\"object\"}}}"@,
        IntegrationKind::WordPressMessage => "{\"type\":\"object\",\"required\":[\"recipient\",\"message\"],\"properties\":{\"recipient\":{\"type\":\"string\"},\"message\":{\"type\":\"string\",\"maxLength\":10000},\"subject\":{\"type\":\"string\"}}}"@,
        IntegrationKind::ResearchFetch => "{\"type\":\"object\",\"required\":[\"query\"],\"properties\":{\"query\":{\"type\":\"string\"},\"max_sources\":{\"type\":\"integer\",\"maximum\":20}}}"@,
    }
}

impl IntegrationKind {
    pub fn name(self) -> (s: String)
        ensures
            s@ == integration_name(self),
    {
        match self {
            IntegrationKind::CalendarList => owned("calendar_list_events"),
            IntegrationKind::CalendarCreate => owned("calendar_create_event"),
            IntegrationKind::CrmSearch => owned("crm_search_leads"),
            IntegrationKind::CrmUpsert => owned("crm_upsert_customer"),
            IntegrationKind::WordPressMessage => owned("wordpress_send_message"),
            IntegrationKind::ResearchFetch => owned("research_fetch_source"),
        }
    }

    pub fn description(self) -> (s: String)
        ensures
            s@ == integration_description(self),
    {
        match self {
            IntegrationKind::CalendarList => owned(
                "Read calendar events through the configured calendar REST adapter.",
            ),
            IntegrationKind::CalendarCreate => owned(
                "Create a calendar event through the configured calendar REST adapter.",
            ),
            IntegrationKind::CrmSearch => owned(
                "Search leads and customers through the configured CRM REST adapter.",
            ),
            IntegrationKind::CrmUpsert => owned(
                "Create or update a lead/customer through the configured CRM REST adapter.",
            ),
            IntegrationKind::WordPressMessage => owned(
                "Send a message through the configured WordPress/customer-contact REST adapter.",
            ),
            IntegrationKind::ResearchFetch => owned(
                "Fetch a research source through a configured research gateway for later synthesis.",
            ),
        }
    }

    /// The environment variable that holds the adapter's URL.
    pub fn endpoint_var(self) -> (s: String)
        ensures
            s@ == integration_endpoint_var(self),
    {
        match self {
            IntegrationKind::CalendarList | IntegrationKind::CalendarCreate => owned(
                "NYX_CALENDAR_URL",
            ),
            IntegrationKind::CrmSearch | IntegrationKind::CrmUpsert => owned("NYX_CRM_URL"),
            IntegrationKind::WordPressMessage => owned("NYX_WORDPRESS_URL"),
            IntegrationKind::ResearchFetch => owned("NYX_RESEARCH_URL"),
        }
    }

    /// The environment variable that holds the adapter's bearer token.
    pub fn token_var(self) -> (s: String)
        ensures
            s@ == integration_token_var(self),
    {
        match self {
            IntegrationKind::CalendarList | IntegrationKind::CalendarCreate => owned(
                "NYX_CALENDAR_TOKEN",
            ),
            IntegrationKind::CrmSearch | IntegrationKind::CrmUpsert => owned("NYX_CRM_TOKEN"),
            IntegrationKind::WordPressMessage => owned("NYX_WORDPRESS_TOKEN"),
            IntegrationKind::ResearchFetch => owned("NYX_RESEARCH_TOKEN"),
        }
    }

    pub fn operation(self) -> (o: Operation)
        ensures
            o == integration_operation(self),
    {
        match self {
            IntegrationKind::CalendarList | IntegrationKind::CrmSearch
            | IntegrationKind::ResearchFetch => Operation::ExternalRead,
            IntegrationKind::CalendarCreate | IntegrationKind::CrmUpsert
            | IntegrationKind::WordPressMessage => Operation::ExternalWrite,
        }
    }

    /// Whether the integration changes remote state.
    pub fn write(self) -> (w: bool)
        ensures
            w == integration_writes(self),
    {
        match self {
            IntegrationKind::CalendarCreate | IntegrationKind::CrmUpsert
            | IntegrationKind::WordPressMessage => true,
            _ => false,
        }
    }

    /// POST for writes, GET for reads.
    pub fn method(self) -> (m: HttpMethod)
        ensures
            m == (if integration_writes(self) {
                HttpMethod::Post
            } else {
                HttpMethod::Get
            }),
    {
        if self.write() {
            HttpMethod::Post
        } else {
            HttpMethod::Get
        }
    }

    /// The JSON schema of the input, as JSON text.
    pub fn schema(self) -> (s: String)
        ensures
            s@ == integration_schema(self),
    {
        match self {
            IntegrationKind::CalendarList => owned(
                "{\"type\":\"object\",\"properties\":{\"from\":{\"type\":\"string\"},\"to\":{\"type\":\"string\"},\"query\":{\"type\":\"string\"}}}",
            ),
            IntegrationKind::CalendarCreate => owned(
                "{\"type\":\"object\",\"required\":[\"title\",\"start\",\"end\"],\"properties\":{\"title\":{\"type\":\"string\"},\"start\":{\"type\":\"string\"},\"end\":{\"type\":\"string\"},\"description\":{\"type\":\"string\"},\"attendees\":{\"type\":\"array\",\"items\":{\"type\":\"string\"}}}}",
            ),
            IntegrationKind::CrmSearch => owned(
                "{\"type\":\"object\",\"required\":[\"query\"],\"properties\":{\"query\":{\"type\":\"string\"},\"limit\":{\"type\":\"integer\",\"maximum\":100}}}",
            ),
            IntegrationKind::CrmUpsert => owned(
                "{\"type\":\"object\",\"required\":[\"contact\"],\"properties\":{\"contact\":{\"type\":\"object\"}}}",
            ),
            IntegrationKind::WordPressMessage => owned(
                "{\"type\":\"object\",\"required\":[\"recipient\",\"message\"],\"properties\":{\"recipient\":{\"type\":\"string\"},\"message\":{\"type\":\"string\",\"maxLength\":10000},\"subject\":{\"type\":\"string\"}}}",
            ),
            IntegrationKind::ResearchFetch => owned(
                "{\"type\":\"object\",\"required\":[\"query\"],\"properties\":{\"query\":{\"type\":\"string\"},\"max_sources\":{\"type\":\"integer\",\"maximum\":20}}}",
            ),
        }
    }
}

/// An integration tool and the policy it is held to.
#[derive(Debug, Clone)]
pub struct IntegrationTool {
    kind: IntegrationKind,
    policy: PolicyEngine,
}

impl IntegrationTool {
    pub closed spec fn kind(&self) -> IntegrationKind {
        self.kind
    }

    pub closed spec fn policy(&self) -> PolicyEngine {
        self.policy
    }

    /// A tool of the given kind held to the default policy.
    pub fn new(kind: IntegrationKind) -> (t: IntegrationTool)
        ensures
            t.kind() == kind,
            t.policy().allows_shell_read_only(),
    {
        IntegrationTool { kind, policy: PolicyEngine::default() }
    }

    /// A tool of the given kind held to `policy`.
    pub fn with_policy(kind: IntegrationKind, policy: PolicyEngine) -> (t: IntegrationTool)
        ensures
            t.kind() == kind,
            t.policy() == policy,
    {
        IntegrationTool { kind, policy }
    }

    /// One tool of each kind, in declaration order.
    pub fn all() -> (v: Vec<IntegrationTool>)
        ensures
            v@.len() == 6,
            v@[0].kind() == IntegrationKind::CalendarList,
            v@[1].kind() == IntegrationKind::CalendarCreate,
            v@[2].kind() == IntegrationKind::CrmSearch,
            v@[3].kind() == IntegrationKind::CrmUpsert,
            v@[4].kind() == IntegrationKind::WordPressMessage,
            v@[5].kind() == IntegrationKind::ResearchFetch,
    {
        let mut v = Vec::new();
        v.push(IntegrationTool::new(IntegrationKind::CalendarList));
        v.push(IntegrationTool::new(IntegrationKind::CalendarCreate));
        v.push(IntegrationTool::new(IntegrationKind::CrmSearch));
        v.push(IntegrationTool::new(IntegrationKind::CrmUpsert));
        v.push(IntegrationTool::new(IntegrationKind::WordPressMessage));
        v.push(IntegrationTool::new(IntegrationKind::ResearchFetch));
        v
    }

    pub fn tool_kind(&self) -> (k: IntegrationKind)
        ensures
            k == self.kind(),
    {
        self.kind
    }

    pub fn descriptor(&self) -> (d: ToolDescriptor)
        ensures
            d.name@ == integration_name(self.kind()),
            d.version@ == "1"@,
            d.description@ == integration_description(self.kind()),
            d.permission == (if integration_writes(self.kind()) {
                PermissionClass::Ask
            } else {
                PermissionClass::Allow
            }),
            d.target == ExecutionTarget::Remote,
            d.timeout_ms == REQUEST_TIMEOUT_MS,
            d.idempotent == !integration_writes(self.kind()),
            d.input_schema@ == integration_schema(self.kind()),
    {
        ToolDescriptor {
            name: self.kind.name(),
            version: owned("1"),
            description: self.kind.description(),
            permission: if self.kind.write() {
                PermissionClass::Ask
            } else {
                PermissionClass::Allow
            },
            target: ExecutionTarget::Remote,
            timeout_ms: REQUEST_TIMEOUT_MS,
            idempotent: !self.kind.write(),
            input_schema: self.kind.schema(),
        }
    }

    /// Checks the input: an object; a message that is not blank.
    pub fn check_input(&self, input: &ToolInput) -> (r: Result<(), ToolError>)
        ensures
            r is Ok <==> integration_input_error(self.kind(), *input) is None,
            r matches Err(e) ==> (e matches ToolError::InvalidInput(m) && integration_input_error(
                self.kind(),
                *input,
            ) == Some(m@)),
    {
        if !input.is_object {
            return Err(invalid_input("input must be an object"));
        }
        if self.kind == IntegrationKind::WordPressMessage && !has_non_space_exec(
            &chars_of(input.text_or_empty("message").as_str()),
        ) {
            return Err(invalid_input("message must not be empty"));
        }
        Ok(())
    }

    /// `Execution(<policy message>)` unless the policy lets the tool's
    /// operation proceed.
    pub fn authorize(&self, approved: bool) -> (r: Result<(), ToolError>)
        ensures
            r is Ok <==> policy_permits(
                self.policy().allows_shell_read_only(),
                integration_operation(self.kind()),
                true,
                approved,
            ),
            r matches Err(e) ==> (e matches ToolError::Execution(m) && m@ == security_message(
                SecurityError::Denied,
            )),
    {
        match self.policy.require(self.kind.operation(), true, approved) {
            Ok(()) => Ok(()),
            Err(e) => Err(ToolError::Execution(e.message())),
        }
    }

    /// The adapter URL must be HTTP(S).
    pub fn check_endpoint(url: &str) -> (r: Result<(), ToolError>)
        ensures
            r is Ok <==> (starts_with(url@, "https://"@) || starts_with(url@, "http://"@)),
            r matches Err(e) ==> (e matches ToolError::InvalidInput(m) && m@
                == "integration endpoint must be HTTP(S)"@),
    {
        let chars = chars_of(url);
        if starts_with_exec(&chars, &chars_of("https://")) || starts_with_exec(&chars, &chars_of("http://")) {
            Ok(())
        } else {
            Err(invalid_input("integration endpoint must be HTTP(S)"))
        }
    }

    /// The error for an adapter that is not configured.
    pub fn not_configured(&self) -> (e: ToolError)
        ensures
            e matches ToolError::Execution(m) && m@ == "integration is not configured: "@
                + integration_endpoint_var(self.kind()),
    {
        ToolError::Execution(prefixed("integration is not configured: ", self.kind.endpoint_var().as_str()))
    }

    /// "`name` completed".
    pub fn completion_summary(&self) -> (s: String)
        ensures
            s@ == integration_name(self.kind()) + " completed"@,
    {
        let mut s = self.kind.name();
        s.append(" completed");
        s
    }
}

/// The value an adapter's successful reply body stands for: the body
/// parsed as JSON, or `{"raw": body}` when it is not JSON.
pub fn adapter_reply(body: &str) -> (v: serde_json::Value)
    ensures
        json_text_is_valid(body@) ==> v == json_parsed(body@),
        !json_text_is_valid(body@) ==> v == json_text_object("raw"@, body@),
{
    match parse_json(body) {
        Ok(value) => value,
        Err(_) => text_object("raw", body),
    }
}

} // verus!
