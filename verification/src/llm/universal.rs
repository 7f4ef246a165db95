//! The universal chat-completion schema: the canonical shape of requests,
//! responses and stream chunks, whichever provider serves them.

use crate::text::{clone_strings, opt_text, texts};
use vstd::prelude::*;

verus! {

/// `serde_json::Value`, carried as it is: nothing inside it is visible here.
#[verifier::external_type_specification]
#[verifier::external_body]
pub struct ExJsonValue(serde_json::Value);

/// A JSON document.
pub type Json = serde_json::Value;

/// The compact JSON text of a document, or `None` where it cannot be written.
pub uninterp spec fn json_text(v: serde_json::Value) -> Option<Seq<char>>;

/// Writes a document as compact JSON text.
///
/// Trusted: `serde_json::to_string` writes the value it is given and nothing
/// else, so its outcome is a function of the document; an error is turned
/// into `None`.
#[verifier::external_body]
pub(crate) fn json_to_string(v: &Json) -> (r: Option<String>)
    ensures
        opt_text(r) == json_text(*v),
{
    serde_json::to_string(v).ok()
}

/// The JSON object without members.
///
/// Trusted: `serde_json::Map::new` makes an empty map, and an object with no
/// members is written as an opening and a closing brace.
#[verifier::external_body]
pub(crate) fn empty_object() -> (r: Json)
    ensures
        json_text(r) == Some("{}"@),
{
    serde_json::Value::Object(serde_json::Map::new())
}

/// The low 32 bits of a count.
pub open spec fn low32(n: int) -> int {
    n % 0x1_0000_0000
}

/// The low 64 bits of a count.
pub open spec fn low64(n: int) -> int {
    n % 0x1_0000_0000_0000_0000
}

/// A single-precision number, carried by its IEEE 754 bit pattern. The
/// translation only hands such numbers on.
#[derive(Clone, Copy, Debug, PartialEq, Eq, Structural)]
pub struct Real32 {
    pub bits: u32,
}

/// Who speaks in a message.
#[derive(Clone, Copy, Debug, PartialEq, Eq, Structural)]
pub enum Role {
    System,
    User,
    Assistant,
    Tool,
}

/// One message of a request.
#[derive(Clone, Debug)]
pub struct RequestMessage {
    pub role: Role,
    pub content: Option<String>,
}

/// A function that the model may call.
#[derive(Debug)]
pub struct FunctionObject {
    pub name: String,
    pub description: Option<String>,
    pub parameters: Option<Json>,
}

/// A tool offered to the model.
#[derive(Debug)]
pub struct Tool {
    pub function: FunctionObject,
}

/// How the model is to use the tools.
#[derive(Clone, Debug)]
pub enum ToolChoiceOption {
    NoTools,
    Auto,
    Required,
    Named(String),
}

/// Where generation stops: at one string, or at any of several.
#[derive(Clone, Debug)]
pub enum Stop {
    String(String),
    StringArray(Vec<String>),
}

/// A chat-completion request.
#[derive(Debug)]
pub struct Request {
    pub model: String,
    pub messages: Vec<RequestMessage>,
    pub tools: Option<Vec<Tool>>,
    pub tool_choice: Option<ToolChoiceOption>,
    pub max_tokens: Option<u32>,
    pub stop: Option<Stop>,
    pub stream: Option<bool>,
    pub temperature: Option<Real32>,
    pub top_p: Option<Real32>,
    pub user: Option<String>,
}

/// Why generation ended.
#[derive(Clone, Copy, Debug, PartialEq, Eq, Structural)]
pub enum FinishReason {
    Stop,
    Length,
    ToolCalls,
    ContentFilter,
    FunctionCall,
}

/// The kind of a tool call.
#[derive(Clone, Copy, Debug, PartialEq, Eq, Structural)]
pub enum ToolType {
    Function,
}

/// The function named by a tool call, and its arguments as JSON text.
#[derive(Clone, Debug)]
pub struct FunctionCall {
    pub name: String,
    pub arguments: String,
}

/// A call that the model asks for.
#[derive(Clone, Debug)]
pub struct MessageToolCall {
    pub id: String,
    pub kind: ToolType,
    pub function: FunctionCall,
}

/// The message of a response choice.
#[derive(Clone, Debug)]
pub struct ResponseMessage {
    pub role: Role,
    pub content: Option<String>,
    pub tool_calls: Option<Vec<MessageToolCall>>,
    pub refusal: Option<String>,
}

/// One choice of a response.
#[derive(Clone, Debug)]
pub struct ChatChoice {
    pub index: u32,
    pub message: ResponseMessage,
    pub finish_reason: Option<FinishReason>,
    pub logprobs: Option<String>,
}

/// Token accounting.
#[derive(Clone, Copy, Debug, PartialEq, Eq, Structural)]
pub struct Usage {
    pub prompt_tokens: u32,
    pub completion_tokens: u32,
    pub total_tokens: u32,
}

/// A whole chat-completion response.
#[derive(Clone, Debug)]
pub struct Response {
    pub id: String,
    pub object: String,
    pub created: u32,
    pub model: String,
    pub choices: Vec<ChatChoice>,
    pub usage: Option<Usage>,
    pub service_tier: Option<String>,
    pub system_fingerprint: Option<String>,
}

/// What a stream chunk adds to a choice.
#[derive(Clone, Debug)]
pub struct StreamResponseDelta {
    pub role: Option<Role>,
    pub content: Option<String>,
    pub refusal: Option<String>,
    pub tool_calls: Option<Vec<MessageToolCall>>,
}

/// One choice of a stream chunk.
#[derive(Clone, Debug)]
pub struct ChatChoiceStream {
    pub index: u32,
    pub delta: StreamResponseDelta,
    pub finish_reason: Option<FinishReason>,
    pub logprobs: Option<String>,
}

/// One chunk of a streamed response.
#[derive(Clone, Debug)]
pub struct StreamResponse {
    pub id: String,
    pub object: String,
    pub created: u32,
    pub model: String,
    pub choices: Vec<ChatChoiceStream>,
    pub usage: Option<Usage>,
    pub service_tier: Option<String>,
    pub system_fingerprint: Option<String>,
}

/// The error of an error response.
#[derive(Clone, Debug)]
pub struct ChatCompletionError {
    pub kind: String,
    pub message: String,
    pub param: Option<String>,
    pub code: Option<String>,
    pub event_id: Option<String>,
}

/// An error response.
#[derive(Clone, Debug)]
pub struct ChatCompletionErrorResponse {
    pub event_id: Option<String>,
    pub error: ChatCompletionError,
}

/// The token limit used where a request names none.
pub const DEFAULT_MAX_TOKENS: usize = 4096;

/// The token limit of a request: its own, or the default.
pub open spec fn spec_max_tokens(req: Request) -> int {
    match req.max_tokens {
        Some(n) => n as int,
        None => DEFAULT_MAX_TOKENS as int,
    }
}

/// The stop sequences of a request, as a list.
pub open spec fn spec_stop_sequence(req: Request) -> Seq<Seq<char>> {
    match req.stop {
        Some(Stop::String(s)) => seq![s@],
        Some(Stop::StringArray(v)) => texts(v@),
        None => Seq::empty(),
    }
}

/// The token limit of a request: its own, or the default.
pub fn max_tokens(req: &Request) -> (r: usize)
    ensures
        r == spec_max_tokens(*req),
{
    match req.max_tokens {
        Some(n) => n as usize,
        None => DEFAULT_MAX_TOKENS,
    }
}

/// The stop sequences of a request, as a list.
pub fn stop_sequence(req: &Request) -> (r: Vec<String>)
    ensures
        texts(r@) == spec_stop_sequence(*req),
{
    match &req.stop {
        Some(Stop::String(s)) => {
            let mut out: Vec<String> = Vec::new();
            out.push(s.clone());
            proof {
                assert(texts(out@) =~= seq![s@]);
            }
            out
        },
        Some(Stop::StringArray(v)) => clone_strings(v),
        None => {
            let out: Vec<String> = Vec::new();
            proof {
                assert(texts(out@) =~= Seq::<Seq<char>>::empty());
            }
            out
        },
    }
}

/// The role of a message.
pub fn message_role(msg: &RequestMessage) -> (r: Role)
    ensures
        r == msg.role,
{
    msg.role
}

/// The text of a message, where it has any.
pub fn message_text(msg: &RequestMessage) -> (r: Option<&str>)
    ensures
        match r {
            Some(s) => msg.content.is_some() && s@ == msg.content.unwrap()@,
            None => msg.content.is_none(),
        },
{
    match &msg.content {
        Some(s) => Some(s.as_str()),
        None => None,
    }
}

} // verus!
