//! The LLM planner's configuration and the checks applied to its answer:
//! only registered tools, with arguments that parse as JSON.
use vstd::prelude::*;
use crate::json::{json_error_message, json_parsed, json_text_is_valid, parse_json};
use crate::text::{chars_of, owned, starts_with, starts_with_exec, string_of, string_views};
use crate::tools::prefixed;

verus! {

#[derive(Debug, Clone)]
pub enum PlannerError {
    NotConfigured,
    Request(String),
    InvalidResponse(String),
}

impl PlannerError {
    /// The human-readable message of the error.
    pub fn message(&self) -> (m: String)
        ensures
            m@ == planner_error_message(*self),
    {
        match self {
            PlannerError::NotConfigured => owned("LLM provider is not configured"),
            PlannerError::Request(s) => prefixed("LLM request failed: ", s.as_str()),
            PlannerError::InvalidResponse(s) => prefixed("LLM response was invalid: ", s.as_str()),
        }
    }
}

pub open spec fn planner_error_message(e: PlannerError) -> Seq<char> {
    match e {
        PlannerError::NotConfigured => "LLM provider is not configured"@,
        PlannerError::Request(s) => "LLM request failed: "@ + s@,
        PlannerError::InvalidResponse(s) => "LLM response was invalid: "@ + s@,
    }
}

/// One tool call chosen by the planner.
#[derive(Debug)]
pub struct PlannedToolCall {
    pub name: String,
    pub arguments: serde_json::Value,
}

/// The planner's answer: a summary and the calls to make, in order.
#[derive(Debug)]
pub struct PlannerOutput {
    pub summary: String,
    pub calls: Vec<PlannedToolCall>,
}

/// A tool call as the model returned it: a name and JSON argument text.
#[derive(Debug, Clone)]
pub struct ToolCallText {
    pub name: String,
    pub arguments: String,
}

/// The message of the model's first choice.
#[derive(Debug, Clone)]
pub struct ChatMessage {
    pub content: Option<String>,
    pub tool_calls: Option<Vec<ToolCallText>>,
}

/// Where and how to reach the model.
#[derive(Debug, Clone)]
pub struct Planner {
    pub base_url: String,
    pub api_key: String,
    pub model: String,
}

/// The model used when none is configured.
pub open spec fn default_model() -> Seq<char> {
    "gpt-5-mini"@
}

/// The instruction the planner gives the model.
pub open spec fn system_prompt() -> Seq<char> {
    "You are NYX, a local-first computer agent. Select only tools from the supplied registry. Never invent tool names. Return concise tool calls and a short summary."@
}

/// The most tokens the model may spend on one answer.
pub const COMPLETION_TOKEN_LIMIT: u32 = 2000;

/// The request member that carries the token limit: Gemini models take
/// `max_tokens`, the others `max_completion_tokens`.
pub open spec fn token_limit_key(model: Seq<char>) -> Seq<char> {
    if starts_with(model, "gemini"@) {
        "max_tokens"@
    } else {
        "max_completion_tokens"@
    }
}

/// What a chat completion request asks, apart from the tools offered.
#[derive(Debug, Clone)]
pub struct ChatRequest {
    pub model: String,
    pub system: String,
    pub user: String,
    /// Always `auto`: the model picks the tools.
    pub tool_choice: String,
    pub token_limit_key: String,
    pub token_limit: u32,
}

/// `s` without the `/` characters at its end.
pub open spec fn trim_trailing_slashes(s: Seq<char>) -> Seq<char>
    decreases s.len(),
{
    if s.len() > 0 && s.last() == '/' {
        trim_trailing_slashes(s.drop_last())
    } else {
        s
    }
}

pub open spec fn call_is_acceptable(allowed: Seq<Seq<char>>, call: ToolCallText) -> bool {
    allowed.contains(call.name@) && json_text_is_valid(call.arguments@)
}

/// The index of the first call that names an unknown tool or carries
/// arguments that are not JSON.
pub open spec fn first_rejected(allowed: Seq<Seq<char>>, calls: Seq<ToolCallText>) -> Option<int> {
    if exists|i: int| 0 <= i < calls.len() && !call_is_acceptable(allowed, calls[i]) {
        Some(
            choose|i: int|
                0 <= i < calls.len() && !call_is_acceptable(allowed, calls[i]) && forall|j: int|
                    0 <= j < i ==> call_is_acceptable(allowed, calls[j]),
        )
    } else {
        None
    }
}

proof fn lemma_first_rejected(allowed: Seq<Seq<char>>, calls: Seq<ToolCallText>, i: int)
    requires
        0 <= i < calls.len(),
        !call_is_acceptable(allowed, calls[i]),
        forall|j: int| 0 <= j < i ==> call_is_acceptable(allowed, calls[j]),
    ensures
        first_rejected(allowed, calls) == Some(i),
{
    let k = choose|k: int|
        0 <= k < calls.len() && !call_is_acceptable(allowed, calls[k]) && forall|j: int|
            0 <= j < k ==> call_is_acceptable(allowed, calls[j]);
    assert(0 <= k < calls.len() && !call_is_acceptable(allowed, calls[k]) && forall|j: int|
        0 <= j < k ==> call_is_acceptable(allowed, calls[j]));
    if k < i {
        assert(call_is_acceptable(allowed, calls[k]));
    } else if k > i {
        assert(call_is_acceptable(allowed, calls[i]));
    }
}

/// A planner answer is accepted only when every call names a registered tool
/// and carries JSON arguments.
pub proof fn law_accepted_calls_are_registered(allowed: Seq<Seq<char>>, calls: Seq<ToolCallText>)
    requires
        first_rejected(allowed, calls) is None,
    ensures
        forall|i: int|
            0 <= i < calls.len() ==> allowed.contains(#[trigger] calls[i].name@) && json_text_is_valid(
                calls[i].arguments@,
            ),
{
    assert forall|i: int| 0 <= i < calls.len() implies allowed.contains(#[trigger] calls[i].name@)
        && json_text_is_valid(calls[i].arguments@) by {
        if !call_is_acceptable(allowed, calls[i]) {
            assert(exists|k: int| 0 <= k < calls.len() && !call_is_acceptable(allowed, calls[k]));
        }
    }
}

fn contains_name(allowed: &Vec<String>, name: &String) -> (r: bool)
    ensures
        r == string_views(allowed@).contains(name@),
{
    let mut i: usize = 0;
    while i < allowed.len()
        invariant
            i <= allowed@.len(),
            forall|k: int| 0 <= k < i ==> allowed@[k]@ != name@,
        decreases allowed@.len() - i,
    {
        if allowed[i] == *name {
            assert(string_views(allowed@)[i as int] == name@);
            return true;
        }
        i = i + 1;
    }
    assert forall|k: int| 0 <= k < string_views(allowed@).len() implies string_views(
        allowed@,
    )[k] != name@ by {
        assert(string_views(allowed@)[k] == allowed@[k]@);
    }
    false
}

impl Planner {
    /// A planner for the given settings: base URL and key are required, the
    /// model defaults to `gpt-5-mini`.
    pub fn from_settings(base_url: Option<String>, api_key: Option<String>, model: Option<String>) -> (r: Result<
        Planner,
        PlannerError,
    >)
        ensures
            r is Ok <==> (base_url is Some && api_key is Some),
            r is Err ==> r matches Err(PlannerError::NotConfigured),
            r matches Ok(p) ==> p.base_url@ == base_url->0@ && p.api_key@ == api_key->0@ && (
            match model {
                Some(m) => p.model@ == m@,
                None => p.model@ == default_model(),
            }),
    {
        let base_url = match base_url {
            Some(b) => b,
            None => {
                return Err(PlannerError::NotConfigured);
            },
        };
        let api_key = match api_key {
            Some(k) => k,
            None => {
                return Err(PlannerError::NotConfigured);
            },
        };
        let model = match model {
            Some(m) => m,
            None => owned("gpt-5-mini"),
        };
        Ok(Planner { base_url, api_key, model })
    }

    /// The chat request for `request`: the configured model, the planner's
    /// instruction, the request as the user's message, automatic tool choice
    /// and the token limit under the key the model takes.
    pub fn chat_request(&self, request: &str) -> (c: ChatRequest)
        ensures
            c.model@ == self.model@,
            c.system@ == system_prompt(),
            c.user@ == request@,
            c.tool_choice@ == "auto"@,
            c.token_limit_key@ == token_limit_key(self.model@),
            c.token_limit == COMPLETION_TOKEN_LIMIT,
    {
        let gemini = starts_with_exec(&chars_of(self.model.as_str()), &chars_of("gemini"));
        let key = if gemini {
            owned("max_tokens")
        } else {
            owned("max_completion_tokens")
        };
        ChatRequest {
            model: self.model.clone(),
            system: owned(
                "You are NYX, a local-first computer agent. Select only tools from the supplied registry. Never invent tool names. Return concise tool calls and a short summary.",
            ),
            user: owned(request),
            tool_choice: owned("auto"),
            token_limit_key: key,
            token_limit: COMPLETION_TOKEN_LIMIT,
        }
    }

    /// The chat completions endpoint under the base URL.
    pub fn endpoint(&self) -> (s: String)
        ensures
            s@ == trim_trailing_slashes(self.base_url@) + "/chat/completions"@,
    {
        let chars = chars_of(self.base_url.as_str());
        let mut end = chars.len();
        assert(chars@.take(chars@.len() as int) =~= chars@);
        while end > 0 && chars[end - 1] == '/'
            invariant
                end <= chars@.len(),
                trim_trailing_slashes(chars@) == trim_trailing_slashes(chars@.take(end as int)),
            decreases end,
        {
            assert(chars@.take(end as int).drop_last() =~= chars@.take(end - 1));
            end = end - 1;
        }
        let mut kept: Vec<char> = Vec::new();
        let mut i: usize = 0;
        while i < end
            invariant
                i <= end,
                end <= chars@.len(),
                kept@ == chars@.take(i as int),
            decreases end - i,
        {
            kept.push(chars[i]);
            assert(kept@ =~= chars@.take(i + 1));
            i = i + 1;
        }
        let mut s = string_of(kept.as_slice());
        s.append("/chat/completions");
        s
    }
}

/// The planner's output for the first choice of the answer: `no choices`
/// when there is none; otherwise each tool call must name a registered tool
/// and carry JSON arguments, checked in order; the summary defaults to
/// "Plan hazırlandı".
pub fn plan_from_message(allowed: &Vec<String>, first: Option<ChatMessage>) -> (r: Result<
    PlannerOutput,
    PlannerError,
>)
    ensures
        first is None ==> (r matches Err(PlannerError::InvalidResponse(m)) && m@ == "no choices"@),
        first matches Some(msg) ==> {
            let calls = match msg.tool_calls {
                Some(c) => c@,
                None => Seq::empty(),
            };
            &&& (r is Ok <==> first_rejected(string_views(allowed@), calls) is None)
            &&& (r matches Ok(out) ==> {
                &&& out.calls@.len() == calls.len()
                &&& forall|i: int|
                    0 <= i < calls.len() ==> #[trigger] out.calls@[i].name@ == calls[i].name@
                &&& forall|i: int|
                    0 <= i < calls.len() ==> #[trigger] out.calls@[i].arguments == json_parsed(
                        calls[i].arguments@,
                    )
                &&& match msg.content {
                    Some(c) => out.summary@ == c@,
                    None => out.summary@ == "Plan hazırlandı"@,
                }
            })
            &&& (r is Err ==> r matches Err(PlannerError::InvalidResponse(_)))
            &&& (r matches Err(PlannerError::InvalidResponse(m)) ==> {
                let i = first_rejected(string_views(allowed@), calls)->0;
                !string_views(allowed@).contains(calls[i].name@) ==> m@ == "unknown tool: "@
                    + calls[i].name@
            })
        },
{
    let msg = match first {
        Some(m) => m,
        None => {
            return Err(PlannerError::InvalidResponse(owned("no choices")));
        },
    };
    let content = msg.content;
    let calls = match msg.tool_calls {
        Some(c) => c,
        None => Vec::new(),
    };
    let ghost allowed_v = string_views(allowed@);
    let mut out: Vec<PlannedToolCall> = Vec::new();
    let mut i: usize = 0;
    while i < calls.len()
        invariant
            i <= calls@.len(),
            allowed_v == string_views(allowed@),
            first is Some,
            content == first->0.content,
            calls@ == (match first->0.tool_calls {
                Some(c) => c@,
                None => Seq::<ToolCallText>::empty(),
            }),
            out@.len() == i,
            forall|k: int| 0 <= k < i ==> #[trigger] out@[k].name@ == calls@[k].name@,
            forall|k: int|
                0 <= k < i ==> #[trigger] out@[k].arguments == json_parsed(calls@[k].arguments@),
            forall|k: int| 0 <= k < i ==> call_is_acceptable(allowed_v, #[trigger] calls@[k]),
        decreases calls@.len() - i,
    {
        let call = &calls[i];
        if !contains_name(allowed, &call.name) {
            proof {
                lemma_first_rejected(allowed_v, calls@, i as int);
            }
            return Err(PlannerError::InvalidResponse(prefixed("unknown tool: ", call.name.as_str())));
        }
        match parse_json(call.arguments.as_str()) {
            Ok(arguments) => {
                out.push(PlannedToolCall { name: call.name.clone(), arguments });
            },
            Err(e) => {
                proof {
                    lemma_first_rejected(allowed_v, calls@, i as int);
                }
                return Err(PlannerError::InvalidResponse(json_error_message(&e)));
            },
        }
        i = i + 1;
    }
    let summary = match content {
        Some(c) => c,
        None => owned("Plan hazırlandı"),
    };
    Ok(PlannerOutput { summary, calls: out })
}

} // verus!
