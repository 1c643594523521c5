//! Plain shapes for the model API: chat messages, the callable function
//! offered to the model, and the request the library asks the caller to
//! send.  The caller owns the HTTP client; the library only decides what
//! goes into each request.

use vstd::prelude::*;
use crate::text::opt_str_view;
use vstd::string::StringExecFns;

verus! {

/// Who a chat message is from.
#[derive(Debug, Clone, Copy, PartialEq, Eq, Structural)]
pub enum Role {
    /// The fixed instructions.
    System,
    /// The person typing.
    User,
    /// The model.
    Assistant,
}

/// One chat message.
#[derive(Debug, PartialEq)]
pub struct ChatMessage {
    /// Who the message is from.
    pub role: Role,
    /// The message text, when there is any.
    pub content: Option<String>,
}

impl Clone for ChatMessage {
    /// Copies the message.
    fn clone(&self) -> (r: Self)
        ensures
            r == *self,
    {
        ChatMessage {
            role: self.role,
            content: match &self.content {
                Some(c) => Some(c.clone()),
                None => None,
            },
        }
    }
}

impl ChatMessage {
    /// Whether this message is from `role` and reads `text`.
    pub open spec fn is_from(self, role: Role, text: Seq<char>) -> bool {
        &&& self.role == role
        &&& self.content matches Some(c) && c@ == text
    }
}

/// The text of an optional message body; empty when there is none.
pub open spec fn spec_content_text(content: Option<String>) -> Seq<char> {
    match content {
        Some(c) => c@,
        None => Seq::empty(),
    }
}

/// Whether `result` is `base` with one message from `role` reading `text`
/// appended.
pub open spec fn spec_appended(
    result: Seq<ChatMessage>,
    base: Seq<ChatMessage>,
    role: Role,
    text: Seq<char>,
) -> bool {
    &&& result.len() == base.len() + 1
    &&& result.drop_last() == base
    &&& result.last().is_from(role, text)
}

/// Builds a message from `role` reading `text`.
pub fn chat_message(role: Role, text: String) -> (m: ChatMessage)
    ensures
        m.role == role,
        m.content == Some(text),
{
    ChatMessage { role, content: Some(text) }
}

/// Copies a transcript.
pub fn clone_messages(ms: &Vec<ChatMessage>) -> (r: Vec<ChatMessage>)
    ensures
        r@ == ms@,
{
    let r = ms.clone();
    proof {
        assert forall|i: int| 0 <= i < ms@.len() implies r@[i] == ms@[i] by {
            assert(vstd::pervasive::cloned::<ChatMessage>(ms@[i], r@[i]));
        }
        assert(r@ =~= ms@);
    }
    r
}

/// A function the model may ask the caller to run.
#[derive(Debug, Clone, PartialEq)]
pub struct FunctionDef {
    /// The function's name.
    pub name: String,
    /// What the function does.
    pub description: String,
    /// The JSON schema of the function's arguments.
    pub parameters: String,
}

/// Whether `f` is the one function this library offers: running a SQL
/// query.
pub open spec fn spec_run_sql_query_def(f: FunctionDef) -> bool {
    &&& f.name@ == "run_sql_query"@
    &&& f.description@ == "Get data from database using SQL query"@
    &&& f.parameters@ ==
        "{\"type\":\"object\",\"properties\":{\"query\":{\"type\":\"string\",\"description\":\"PostgreSQL query to run\"}},\"required\":[\"query\"]}"@
}

/// The functions offered to the model: just `run_sql_query`.
pub fn list_functions() -> (r: Vec<FunctionDef>)
    ensures
        r@.len() == 1,
        spec_run_sql_query_def(r@[0]),
{
    let f = FunctionDef {
        name: String::from_str("run_sql_query"),
        description: String::from_str("Get data from database using SQL query"),
        parameters: String::from_str(
            "{\"type\":\"object\",\"properties\":{\"query\":{\"type\":\"string\",\"description\":\"PostgreSQL query to run\"}},\"required\":[\"query\"]}",
        ),
    };
    let mut fs: Vec<FunctionDef> = Vec::new();
    fs.push(f);
    fs
}

/// One request to the model API.
#[derive(Debug, PartialEq)]
pub struct ModelRequest {
    /// The model asked for.
    pub model: String,
    /// The completion budget.
    pub max_tokens: u16,
    /// The transcript sent.
    pub messages: Vec<ChatMessage>,
    /// The functions offered; empty when none are.
    pub functions: Vec<FunctionDef>,
    /// Whether the model may choose to call a function.
    pub function_call_auto: bool,
}

/// Whether `r` is the request this library sends for `messages`.
pub open spec fn spec_chat_request(
    r: ModelRequest,
    messages: Seq<ChatMessage>,
    with_functions: bool,
) -> bool {
    &&& r.model@ == "gpt-3.5-turbo-0613"@
    &&& r.max_tokens == 512
    &&& r.messages@ == messages
    &&& if with_functions {
        r.functions@.len() == 1 && spec_run_sql_query_def(r.functions@[0])
            && r.function_call_auto
    } else {
        r.functions@.len() == 0 && !r.function_call_auto
    }
}

/// Builds the request this library sends for `messages`.
pub fn chat_request(messages: Vec<ChatMessage>, with_functions: bool) -> (r: ModelRequest)
    ensures
        spec_chat_request(r, messages@, with_functions),
{
    let functions: Vec<FunctionDef> = if with_functions {
        list_functions()
    } else {
        Vec::new()
    };
    ModelRequest {
        model: String::from_str("gpt-3.5-turbo-0613"),
        max_tokens: 512,
        messages,
        functions,
        function_call_auto: with_functions,
    }
}

/// What the model reads out of a JSON argument text under a given key.
pub uninterp spec fn spec_json_string_field(s: Seq<char>, key: Seq<char>) -> Option<Seq<char>>;

/// Relies on `serde_json`: decodes `s` as JSON and reads the text under
/// `key` of the resulting object.  The reading is a function of the two
/// texts alone; it is named by [`spec_json_string_field`].
#[verifier::external_body]
pub(crate) fn json_string_field(s: &str, key: &str) -> (r: Option<String>)
    ensures
        opt_str_view(r) == spec_json_string_field(s@, key@),
{
    match serde_json::from_str::<serde_json::Value>(s) {
        Ok(v) => match v.get(key) {
            Some(x) => x.as_str().map(|q| q.to_string()),
            None => None,
        },
        Err(_) => None,
    }
}

} // verus!
