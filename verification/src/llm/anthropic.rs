//! The Anthropic Messages API, to and from the universal schema.

pub mod stream;
pub mod types;

use crate::assoc::AssocList;
use crate::llm::anthropic::types::{
    ContentBlock, Message, MessagesErrorResponse, MessagesRequest, MessagesResponse, Metadata,
    StopReason,
};
use crate::llm::universal;
use crate::llm::universal::{json_text, json_to_string, low32};
use crate::llm::{created_from, unix_now, AIError};
use crate::strng::{strng_chars, Strng};
use crate::text::{opt_text, texts};
use vstd::prelude::*;

verus! {

/// The host that serves the API.
pub const DEFAULT_HOST_STR: &'static str = "api.anthropic.com";

/// The path of the Messages API on that host.
pub const DEFAULT_PATH: &'static str = "/v1/messages";

/// The role under which a universal message reaches the provider: the
/// assistant stays the assistant, every other speaker becomes the user.
pub open spec fn provider_role(role: universal::Role) -> types::Role {
    if role == universal::Role::Assistant {
        types::Role::Assistant
    } else {
        types::Role::User
    }
}

/// The texts of the system messages, in order; one without text adds nothing.
pub open spec fn system_texts(msgs: Seq<universal::RequestMessage>) -> Seq<Seq<char>>
    decreases msgs.len(),
{
    if msgs.len() == 0 {
        Seq::empty()
    } else {
        let rest = system_texts(msgs.drop_last());
        let m = msgs.last();
        if m.role == universal::Role::System && m.content.is_some() {
            rest.push(m.content.unwrap()@)
        } else {
            rest
        }
    }
}

/// The parts, with a line feed between each two.
pub open spec fn join_lines(parts: Seq<Seq<char>>) -> Seq<char>
    decreases parts.len(),
{
    if parts.len() == 0 {
        Seq::empty()
    } else if parts.len() == 1 {
        parts[0]
    } else {
        join_lines(parts.drop_last()) + seq!['\n'] + parts.last()
    }
}

/// Role and text of each message that goes to the provider as a message: the
/// ones that are not system messages and have text.
pub open spec fn kept_messages(msgs: Seq<universal::RequestMessage>) -> Seq<(types::Role, Seq<char>)>
    decreases msgs.len(),
{
    if msgs.len() == 0 {
        Seq::empty()
    } else {
        let rest = kept_messages(msgs.drop_last());
        let m = msgs.last();
        if m.role != universal::Role::System && m.content.is_some() {
            rest.push((provider_role(m.role), m.content.unwrap()@))
        } else {
            rest
        }
    }
}

/// `m` is a message of `role` whose content is one text block holding `text`.
pub open spec fn is_text_message(m: Message, role: types::Role, text: Seq<char>) -> bool {
    &&& m.role == role
    &&& m.content@.len() == 1
    &&& m.content@[0] matches ContentBlock::Text { text: t }
    &&& t@ == text
}

/// `t` is the provider's form of the universal tool `u`: same name and
/// description, and as input schema the tool's parameters, or the empty
/// object where it has none.
pub open spec fn is_tool_of(t: types::Tool, u: universal::Tool) -> bool {
    &&& t.name@ == u.function.name@
    &&& opt_text(t.description) == opt_text(u.function.description)
    &&& match u.function.parameters {
        Some(p) => t.input_schema == p,
        None => json_text(t.input_schema) == Some("{}"@),
    }
}

/// `t` is the provider's form of the universal tool choice `u`.
pub open spec fn is_tool_choice_of(t: types::ToolChoice, u: universal::ToolChoiceOption) -> bool {
    match u {
        universal::ToolChoiceOption::Auto => t is Auto,
        universal::ToolChoiceOption::Required => t is Any,
        universal::ToolChoiceOption::NoTools => t is NoTools,
        universal::ToolChoiceOption::Named(f) => t matches types::ToolChoice::Tool { name }
            && name@ == f@,
    }
}

/// `r` is the provider request that stands for the universal request `req`.
pub open spec fn is_request_of(r: MessagesRequest, req: universal::Request) -> bool {
    &&& r.model@ == req.model@
    &&& r.system@ == join_lines(system_texts(req.messages@))
    &&& r.messages@.len() == kept_messages(req.messages@).len()
    &&& forall|i: int|
        0 <= i < r.messages@.len() ==> is_text_message(
            #[trigger] r.messages@[i],
            kept_messages(req.messages@)[i].0,
            kept_messages(req.messages@)[i].1,
        )
    &&& r.max_tokens == universal::spec_max_tokens(req)
    &&& texts(r.stop_sequences@) == universal::spec_stop_sequence(req)
    &&& r.stream == (req.stream == Some(true))
    &&& r.temperature == req.temperature
    &&& r.top_p == req.top_p
    &&& r.top_k.is_none()
    &&& match req.tools {
        Some(tools) => r.tools.is_some() && r.tools.unwrap()@.len() == tools@.len() && forall|
            i: int,
        |
            0 <= i < tools@.len() ==> is_tool_of(#[trigger] r.tools.unwrap()@[i], tools@[i]),
        None => r.tools.is_none(),
    }
    &&& match req.tool_choice {
        Some(c) => r.tool_choice.is_some() && is_tool_choice_of(r.tool_choice.unwrap(), c),
        None => r.tool_choice.is_none(),
    }
    &&& match req.user {
        Some(user) => r.metadata.is_some() && r.metadata.unwrap().fields.wf()
            && r.metadata.unwrap().fields@ == Map::<Seq<char>, String>::empty().insert(
            "user_id"@,
            user,
        ),
        None => r.metadata.is_none(),
    }
}

/// The system prompt of a request: the texts of its system messages joined by
/// line feeds.
fn collect_system(messages: &Vec<universal::RequestMessage>) -> (r: String)
    ensures
        r@ == join_lines(system_texts(messages@)),
{
    let mut system = String::new();
    let mut first = true;
    let mut i: usize = 0;
    proof {
        assert(messages@.take(0) =~= Seq::empty());
    }
    while i < messages.len()
        invariant
            i <= messages.len(),
            system@ == join_lines(system_texts(messages@.take(i as int))),
            first == (system_texts(messages@.take(i as int)).len() == 0),
        decreases messages.len() - i,
    {
        let msg = &messages[i];
        proof {
            assert(messages@.take(i + 1).drop_last() =~= messages@.take(i as int));
            assert(messages@.take(i + 1).last() == messages@[i as int]);
        }
        if let universal::Role::System = universal::message_role(msg) {
            if let Some(text) = universal::message_text(msg) {
                let ghost before = system_texts(messages@.take(i as int));
                proof {
                    reveal_strlit("\n");
                    assert("\n"@ =~= seq!['\n']);
                    assert(before.push(text@).drop_last() =~= before);
                }
                if first {
                    first = false;
                    proof {
                        assert(system@ =~= Seq::<char>::empty());
                        assert(system@ + text@ =~= text@);
                    }
                } else {
                    system.append("\n");
                }
                system.append(text);
            }
        }
        i += 1;
    }
    proof {
        assert(messages@.take(i as int) =~= messages@);
    }
    system
}

/// The messages of a request that go to the provider as messages, each as one
/// text block.
fn collect_messages(messages: &Vec<universal::RequestMessage>) -> (r: Vec<Message>)
    ensures
        r@.len() == kept_messages(messages@).len(),
        forall|i: int|
            0 <= i < r@.len() ==> is_text_message(
                #[trigger] r@[i],
                kept_messages(messages@)[i].0,
                kept_messages(messages@)[i].1,
            ),
{
    let mut out: Vec<Message> = Vec::new();
    let mut i: usize = 0;
    proof {
        assert(messages@.take(0) =~= Seq::empty());
    }
    while i < messages.len()
        invariant
            i <= messages.len(),
            out@.len() == kept_messages(messages@.take(i as int)).len(),
            forall|j: int|
                0 <= j < out@.len() ==> is_text_message(
                    #[trigger] out@[j],
                    kept_messages(messages@.take(i as int))[j].0,
                    kept_messages(messages@.take(i as int))[j].1,
                ),
        decreases messages.len() - i,
    {
        let msg = &messages[i];
        proof {
            assert(messages@.take(i + 1).drop_last() =~= messages@.take(i as int));
            assert(messages@.take(i + 1).last() == messages@[i as int]);
        }
        let role = match universal::message_role(msg) {
            universal::Role::System => None,
            universal::Role::Assistant => Some(types::Role::Assistant),
            _ => Some(types::Role::User),
        };
        if let Some(role) = role {
            if let Some(text) = universal::message_text(msg) {
                let mut content: Vec<ContentBlock> = Vec::new();
                content.push(ContentBlock::Text { text: text.to_owned() });
                out.push(Message { role, content });
            }
        }
        i += 1;
    }
    proof {
        assert(messages@.take(i as int) =~= messages@);
    }
    out
}

/// The provider's form of each tool.
fn collect_tools(tools: Vec<universal::Tool>) -> (r: Vec<types::Tool>)
    ensures
        r@.len() == tools@.len(),
        forall|i: int| 0 <= i < tools@.len() ==> is_tool_of(#[trigger] r@[i], tools@[i]),
{
    let mut out: Vec<types::Tool> = Vec::new();
    for tool in it: tools
        invariant
            out@.len() == it.index(),
            forall|j: int| 0 <= j < out@.len() ==> is_tool_of(#[trigger] out@[j], it.seq()[j]),
    {
        let universal::FunctionObject { name, description, parameters } = tool.function;
        let input_schema = match parameters {
            Some(p) => p,
            None => universal::empty_object(),
        };
        out.push(types::Tool { name, description, input_schema });
    }
    out
}

/// Translates a universal request into a Messages API request.
///
/// The system messages become the system prompt, joined by line feeds. The
/// other messages that have text become messages of one text block each,
/// under the role of the assistant or of the user. Tools, tool choice, the
/// user as metadata, and the sampling settings are carried over; `top_k`
/// stays unset.
pub fn translate_request(req: universal::Request) -> (r: MessagesRequest)
    ensures
        is_request_of(r, req),
{
    let max_tokens = universal::max_tokens(&req);
    let stop_sequences = universal::stop_sequence(&req);
    let system = collect_system(&req.messages);
    let messages = collect_messages(&req.messages);
    let universal::Request {
        model,
        messages: _,
        tools,
        tool_choice,
        max_tokens: _,
        stop: _,
        stream,
        temperature,
        top_p,
        user,
    } = req;
    let tools = match tools {
        Some(tools) => Some(collect_tools(tools)),
        None => None,
    };
    let metadata = match user {
        Some(user) => {
            let mut fields: AssocList<String, String> = AssocList::new();
            fields.insert("user_id".to_owned(), user);
            Some(Metadata { fields })
        },
        None => None,
    };
    let tool_choice = match tool_choice {
        Some(universal::ToolChoiceOption::Named(name)) => Some(types::ToolChoice::Tool { name }),
        Some(universal::ToolChoiceOption::Auto) => Some(types::ToolChoice::Auto),
        Some(universal::ToolChoiceOption::Required) => Some(types::ToolChoice::Any),
        Some(universal::ToolChoiceOption::NoTools) => Some(types::ToolChoice::NoTools),
        None => None,
    };
    let stream = match stream {
        Some(s) => s,
        None => false,
    };
    MessagesRequest {
        messages,
        system,
        model,
        max_tokens,
        stop_sequences,
        stream,
        temperature,
        top_p,
        top_k: None,
        tools,
        tool_choice,
        metadata,
    }
}

/// The universal finish reason for a provider's stop reason.
pub open spec fn finish_reason_of(stop: StopReason) -> universal::FinishReason {
    match stop {
        StopReason::EndTurn => universal::FinishReason::Stop,
        StopReason::MaxTokens => universal::FinishReason::Length,
        StopReason::StopSequence => universal::FinishReason::Stop,
        StopReason::ToolUse => universal::FinishReason::ToolCalls,
        StopReason::Refusal => universal::FinishReason::ContentFilter,
    }
}

/// The universal finish reason for a provider's stop reason.
pub fn translate_stop_reason(resp: &StopReason) -> (r: universal::FinishReason)
    ensures
        r == finish_reason_of(*resp),
{
    match resp {
        StopReason::EndTurn => universal::FinishReason::Stop,
        StopReason::MaxTokens => universal::FinishReason::Length,
        StopReason::StopSequence => universal::FinishReason::Stop,
        StopReason::ToolUse => universal::FinishReason::ToolCalls,
        StopReason::Refusal => universal::FinishReason::ContentFilter,
    }
}

/// Wraps a provider's error body as a universal error response: always an
/// `invalid_request_error` with the provider's message.
pub fn translate_error(resp: MessagesErrorResponse) -> (r: Result<
    universal::ChatCompletionErrorResponse,
    AIError,
>)
    ensures
        r matches Ok(e) && e.event_id.is_none() && e.error.kind@ == "invalid_request_error"@
            && e.error.message@ == resp.error.message@ && e.error.param.is_none()
            && e.error.code.is_none() && e.error.event_id.is_none(),
{
    Ok(
        universal::ChatCompletionErrorResponse {
            event_id: None,
            error: universal::ChatCompletionError {
                kind: "invalid_request_error".to_owned(),
                message: resp.error.message,
                param: None,
                code: None,
                event_id: None,
            },
        },
    )
}

/// The text of the first text block, if there is one.
pub open spec fn first_text(blocks: Seq<ContentBlock>) -> Option<Seq<char>>
    decreases blocks.len(),
{
    if blocks.len() == 0 {
        None
    } else {
        match first_text(blocks.drop_last()) {
            Some(t) => Some(t),
            None => match blocks.last() {
                ContentBlock::Text { text } => Some(text@),
                _ => None,
            },
        }
    }
}

/// Identifier, function name and argument text of each tool-use block whose
/// input can be written as JSON, in order.
pub open spec fn tool_calls_of(blocks: Seq<ContentBlock>) -> Seq<
    (Seq<char>, Seq<char>, Seq<char>),
>
    decreases blocks.len(),
{
    if blocks.len() == 0 {
        Seq::empty()
    } else {
        let rest = tool_calls_of(blocks.drop_last());
        match blocks.last() {
            ContentBlock::ToolUse { id, name, input } => match json_text(input) {
                Some(args) => rest.push((id@, name@, args)),
                None => rest,
            },
            _ => rest,
        }
    }
}

/// `c` is a function call with this identifier, name and argument text.
pub open spec fn is_tool_call(c: universal::MessageToolCall, call: (Seq<char>, Seq<char>, Seq<char>)) -> bool {
    &&& c.id@ == call.0
    &&& c.kind == universal::ToolType::Function
    &&& c.function.name@ == call.1
    &&& c.function.arguments@ == call.2
}

/// The usage of a response in the universal schema, each count by its low 32
/// bits.
pub open spec fn usage_of(input_tokens: int, output_tokens: int) -> universal::Usage {
    universal::Usage {
        prompt_tokens: low32(input_tokens) as u32,
        completion_tokens: low32(output_tokens) as u32,
        total_tokens: low32(input_tokens + output_tokens) as u32,
    }
}

/// `r` is the universal response that stands for the provider response
/// `resp`, created at `created`.
pub open spec fn is_response_of(r: universal::Response, resp: MessagesResponse, created: u32) -> bool {
    &&& r.id@ == resp.id@
    &&& r.object@ == "chat.completion"@
    &&& r.created == created
    &&& r.model@ == resp.model@
    &&& r.service_tier.is_none()
    &&& r.system_fingerprint.is_none()
    &&& r.usage == Some(usage_of(resp.usage.input_tokens as int, resp.usage.output_tokens as int))
    &&& r.choices@.len() == 1
    &&& r.choices@[0].index == 0
    &&& r.choices@[0].logprobs.is_none()
    &&& r.choices@[0].finish_reason == match resp.stop_reason {
        Some(s) => Some(finish_reason_of(s)),
        None => None,
    }
    &&& r.choices@[0].message.role == universal::Role::Assistant
    &&& r.choices@[0].message.refusal.is_none()
    &&& opt_text(r.choices@[0].message.content) == first_text(resp.content@)
    &&& match r.choices@[0].message.tool_calls {
        Some(calls) => calls@.len() > 0 && calls@.len() == tool_calls_of(resp.content@).len()
            && forall|i: int|
            0 <= i < calls@.len() ==> is_tool_call(
                #[trigger] calls@[i],
                tool_calls_of(resp.content@)[i],
            ),
        None => tool_calls_of(resp.content@).len() == 0,
    }
}

/// The low 32 bits of a count.
fn low_bits(n: u128) -> (r: u32)
    ensures
        r == low32(n as int),
{
    (n % 0x1_0000_0000u128) as u32
}

/// The usage of a response in the universal schema.
pub(crate) fn translate_usage(input_tokens: usize, output_tokens: usize) -> (r: universal::Usage)
    ensures
        r == usage_of(input_tokens as int, output_tokens as int),
{
    universal::Usage {
        prompt_tokens: low_bits(input_tokens as u128),
        completion_tokens: low_bits(output_tokens as u128),
        total_tokens: low_bits(input_tokens as u128 + output_tokens as u128),
    }
}

/// Translates a provider response, taking `created` as the time of
/// translation.
///
/// The one choice is an assistant message whose content is the text of the
/// first text block and whose tool calls are the tool-use blocks, their input
/// written as JSON text. Image and tool-result blocks are passed over.
pub fn translate_response_at(resp: MessagesResponse, created: u32) -> (r: universal::Response)
    ensures
        is_response_of(r, resp, created),
{
    let MessagesResponse { id, kind: _, role: _, content: blocks, model, stop_reason, stop_sequence: _, usage } = resp;
    let mut tool_calls: Vec<universal::MessageToolCall> = Vec::new();
    let mut content: Option<String> = None;
    let ghost all = blocks@;
    proof {
        assert(all.take(0) =~= Seq::empty());
    }
    for block in it: blocks
        invariant
            it.seq() == all,
            opt_text(content) == first_text(all.take(it.index() as int)),
            tool_calls@.len() == tool_calls_of(all.take(it.index() as int)).len(),
            forall|j: int|
                0 <= j < tool_calls@.len() ==> is_tool_call(
                    #[trigger] tool_calls@[j],
                    tool_calls_of(all.take(it.index() as int))[j],
                ),
    {
        proof {
            let i = it.index() as int;
            assert(all.take(i + 1).drop_last() =~= all.take(i));
            assert(all.take(i + 1).last() == all[i]);
        }
        match block {
            ContentBlock::Text { text } => {
                if content.is_none() {
                    content = Some(text);
                }
            },
            ContentBlock::Image { .. } => {},
            ContentBlock::ToolUse { id, name, input } => {
                if let Some(arguments) = json_to_string(&input) {
                    tool_calls.push(
                        universal::MessageToolCall {
                            id,
                            kind: universal::ToolType::Function,
                            function: universal::FunctionCall { name, arguments },
                        },
                    );
                }
            },
            ContentBlock::ToolResult { .. } => {},
        }
    }
    proof {
        assert(all.take(all.len() as int) =~= all);
    }
    let message = universal::ResponseMessage {
        role: universal::Role::Assistant,
        content,
        tool_calls: if tool_calls.len() == 0 {
            None
        } else {
            Some(tool_calls)
        },
        refusal: None,
    };
    let finish_reason = match stop_reason {
        Some(s) => Some(translate_stop_reason(&s)),
        None => None,
    };
    let choice = universal::ChatChoice { index: 0, message, finish_reason, logprobs: None };
    let mut choices: Vec<universal::ChatChoice> = Vec::new();
    choices.push(choice);
    universal::Response {
        id,
        object: "chat.completion".to_owned(),
        created,
        model,
        choices,
        usage: Some(translate_usage(usage.input_tokens, usage.output_tokens)),
        service_tier: None,
        system_fingerprint: None,
    }
}

/// Translates a provider response, stamped with the present time.
pub fn translate_response(resp: MessagesResponse) -> (r: universal::Response)
    ensures
        is_response_of(r, resp, r.created),
{
    let created = created_from(unix_now());
    translate_response_at(resp, created)
}

/// A provider response that repeats a translated request's model and the
/// content of one of its messages translates back to a response with the
/// request's model and that message's text, under one of the two provider
/// roles.
pub proof fn lemma_request_round_trip(
    req: universal::Request,
    sent: MessagesRequest,
    i: int,
    resp: MessagesResponse,
    created: u32,
    back: universal::Response,
)
    requires
        is_request_of(sent, req),
        0 <= i < sent.messages@.len(),
        resp.model@ == sent.model@,
        resp.content@ == sent.messages@[i].content@,
        is_response_of(back, resp, created),
    ensures
        back.model@ == req.model@,
        i < kept_messages(req.messages@).len(),
        opt_text(back.choices@[0].message.content) == Some(kept_messages(req.messages@)[i].1),
        back.choices@[0].message.tool_calls.is_none(),
        sent.messages@[i].role == kept_messages(req.messages@)[i].0,
        sent.messages@[i].role == types::Role::User || sent.messages@[i].role
            == types::Role::Assistant,
{
    let blocks = resp.content@;
    assert(is_text_message(
        sent.messages@[i],
        kept_messages(req.messages@)[i].0,
        kept_messages(req.messages@)[i].1,
    ));
    assert(blocks.len() == 1);
    assert(blocks.drop_last() =~= Seq::<ContentBlock>::empty());
    assert(first_text(blocks.drop_last()).is_none());
    assert(tool_calls_of(blocks.drop_last()).len() == 0);
}

/// A provider for the Anthropic Messages API.
#[derive(Debug)]
pub struct Provider {
    /// The model to ask for, whatever the caller named.
    pub model: Option<Strng>,
}

/// The name under which this provider is known.
pub const NAME: &'static str = "anthropic";

impl Provider {
    /// Translates a request for the provider; a configured model takes the
    /// place of the caller's.
    pub fn process_request(&self, req: universal::Request) -> (r: Result<MessagesRequest, AIError>)
        ensures
            r matches Ok(m) && is_request_of(
                m,
                universal::Request {
                    model: m.model,
                    ..req
                },
            ) && m.model@ == match self.model {
                Some(model) => strng_chars(model),
                None => req.model@,
            },
    {
        let mut req = req;
        if let Some(model) = &self.model {
            req.model = crate::strng::to_string(model);
        }
        let ghost sent = req;
        let m = translate_request(req);
        proof {
            assert(is_request_of(m, universal::Request { model: m.model, ..sent }));
        }
        Ok(m)
    }

    /// Translates what was read of a response body: the response, or the error
    /// that reading it gave.
    pub fn process_response(&self, parsed: Result<MessagesResponse, serde_json::Error>) -> (r: Result<
        universal::Response,
        AIError,
    >)
        ensures
            match parsed {
                Ok(resp) => r matches Ok(u) && is_response_of(u, resp, u.created),
                Err(e) => r matches Err(AIError::ResponseParsing(f)) && f == e,
            },
    {
        match parsed {
            Ok(resp) => Ok(translate_response(resp)),
            Err(e) => Err(AIError::ResponseParsing(e)),
        }
    }

    /// Translates what was read of an error body.
    pub fn process_error(&self, parsed: Result<MessagesErrorResponse, serde_json::Error>) -> (r: Result<
        universal::ChatCompletionErrorResponse,
        AIError,
    >)
        ensures
            match parsed {
                Ok(resp) => r matches Ok(e) && e.error.kind@ == "invalid_request_error"@
                    && e.error.message@ == resp.error.message@ && e.error.param.is_none()
                    && e.error.code.is_none() && e.error.event_id.is_none()
                    && e.event_id.is_none(),
                Err(e) => r matches Err(AIError::ResponseParsing(f)) && f == e,
            },
    {
        match parsed {
            Ok(resp) => translate_error(resp),
            Err(e) => Err(AIError::ResponseParsing(e)),
        }
    }
}

} // verus!
