//! The streamed form of a response: provider events in, universal chunks out.

use crate::llm::anthropic::types::{ContentBlockDelta, MessagesStreamEvent};
use crate::llm::anthropic::usage_of;
use crate::llm::universal;
use crate::llm::universal::low64;
use crate::text::opt_text;
use crate::llm::{created_from, instant_now, unix_now, LLMResponse};
use crate::strng::{new, strng_chars};
use vstd::prelude::*;

verus! {

/// What is remembered from one event of a stream to the next.
#[derive(Clone, Debug)]
pub struct StreamState {
    pub message_id: Option<String>,
    pub model: String,
    /// Taken once, when the stream starts.
    pub created: u32,
    pub input_tokens: usize,
    /// Whether a content delta has come yet.
    pub saw_token: bool,
}

/// The text that a frame carries: that of a content delta, and nothing for
/// any other event or for a frame that could not be read.
pub open spec fn frame_text<E>(frame: Result<MessagesStreamEvent, E>) -> Seq<char> {
    match frame {
        Ok(MessagesStreamEvent::ContentBlockDelta { delta: ContentBlockDelta::TextDelta { text }, .. }) => text@,
        _ => Seq::empty(),
    }
}

/// Whether a frame is a content delta.
pub open spec fn is_delta<E>(frame: Result<MessagesStreamEvent, E>) -> bool {
    frame matches Ok(MessagesStreamEvent::ContentBlockDelta { .. })
}

/// Whether a frame makes a chunk: content deltas and message deltas do.
pub open spec fn emits<E>(frame: Result<MessagesStreamEvent, E>) -> bool {
    frame matches Ok(MessagesStreamEvent::ContentBlockDelta { .. }) || frame matches Ok(
        MessagesStreamEvent::MessageDelta { .. },
    )
}

/// The texts of all frames, one after the other.
pub open spec fn frames_text<E>(frames: Seq<Result<MessagesStreamEvent, E>>) -> Seq<char>
    decreases frames.len(),
{
    if frames.len() == 0 {
        Seq::empty()
    } else {
        frames_text(frames.drop_last()) + frame_text(frames.last())
    }
}

/// Whether any of the frames is a content delta.
pub open spec fn has_delta<E>(frames: Seq<Result<MessagesStreamEvent, E>>) -> bool {
    exists|i: int| 0 <= i < frames.len() && is_delta(#[trigger] frames[i])
}

/// How many of the frames make a chunk.
pub open spec fn emitted_count<E>(frames: Seq<Result<MessagesStreamEvent, E>>) -> nat
    decreases frames.len(),
{
    if frames.len() == 0 {
        0
    } else {
        emitted_count(frames.drop_last()) + if emits(frames.last()) {
            1nat
        } else {
            0nat
        }
    }
}

/// The content that the choices of a chunk add, one after the other.
pub open spec fn choices_text(choices: Seq<universal::ChatChoiceStream>) -> Seq<char>
    decreases choices.len(),
{
    if choices.len() == 0 {
        Seq::empty()
    } else {
        choices_text(choices.drop_last()) + match choices.last().delta.content {
            Some(s) => s@,
            None => Seq::empty(),
        }
    }
}

/// The content of all chunks, one after the other.
pub open spec fn chunks_text(chunks: Seq<universal::StreamResponse>) -> Seq<char>
    decreases chunks.len(),
{
    if chunks.len() == 0 {
        Seq::empty()
    } else {
        chunks_text(chunks.drop_last()) + choices_text(chunks.last().choices@)
    }
}

/// The identifier that chunks carry: that of the message, once known.
pub open spec fn chunk_id(state: StreamState) -> Seq<char> {
    match state.message_id {
        Some(id) => id@,
        None => "unknown"@,
    }
}

/// `c` carries what every chunk of the stream in `state` carries.
pub open spec fn is_chunk_of(c: universal::StreamResponse, state: StreamState) -> bool {
    &&& c.id@ == chunk_id(state)
    &&& c.model@ == state.model@
    &&& c.object@ == "chat.completion.chunk"@
    &&& c.created == state.created
    &&& c.system_fingerprint.is_none()
    &&& c.service_tier.is_none()
}

/// `c` is a chunk whose one choice adds `text` and nothing else.
pub open spec fn is_text_chunk(c: universal::StreamResponse, text: Seq<char>) -> bool {
    &&& c.usage.is_none()
    &&& c.choices@.len() == 1
    &&& c.choices@[0].index == 0
    &&& c.choices@[0].finish_reason.is_none()
    &&& c.choices@[0].logprobs.is_none()
    &&& c.choices@[0].delta.role.is_none()
    &&& c.choices@[0].delta.refusal.is_none()
    &&& c.choices@[0].delta.tool_calls.is_none()
    &&& opt_text(c.choices@[0].delta.content) == Some(text)
}

/// `a` and `b` agree on everything but the moment of the first token.
pub open spec fn same_counts(a: LLMResponse, b: LLMResponse) -> bool {
    &&& a.output_tokens == b.output_tokens
    &&& a.input_tokens_from_response == b.input_tokens_from_response
    &&& a.total_tokens == b.total_tokens
    &&& a.provider_model == b.provider_model
}

/// The state and log after a frame, and the chunk that the frame made, are
/// what the stream's rules give for the state and log before it.
pub open spec fn is_step<E>(
    before: StreamState,
    log_before: LLMResponse,
    frame: Result<MessagesStreamEvent, E>,
    after: StreamState,
    log_after: LLMResponse,
    out: Option<universal::StreamResponse>,
) -> bool {
    &&& after.created == before.created
    &&& after.saw_token == (before.saw_token || is_delta(frame))
    &&& out.is_some() == emits(frame)
    &&& if before.saw_token || !is_delta(frame) {
        log_after.first_token == log_before.first_token
    } else {
        log_after.first_token.is_some()
    }
    &&& match frame {
        Ok(MessagesStreamEvent::MessageStart { message }) => {
            &&& opt_text(after.message_id) == Some(message.id@)
            &&& after.model@ == message.model@
            &&& after.input_tokens == message.usage.input_tokens
            &&& log_after.output_tokens == Some(message.usage.output_tokens as u64)
            &&& log_after.input_tokens_from_response == Some(message.usage.input_tokens as u64)
            &&& log_after.total_tokens == log_before.total_tokens
            &&& log_after.provider_model matches Some(m)
            &&& strng_chars(m) == message.model@
        },
        Ok(MessagesStreamEvent::ContentBlockDelta { delta: ContentBlockDelta::TextDelta { text }, .. }) => {
            &&& after.message_id == before.message_id
            &&& after.model == before.model
            &&& after.input_tokens == before.input_tokens
            &&& same_counts(log_after, log_before)
            &&& out matches Some(c)
            &&& is_chunk_of(c, before)
            &&& is_text_chunk(c, text@)
        },
        Ok(MessagesStreamEvent::MessageDelta { usage, .. }) => {
            &&& after == before
            &&& log_after.output_tokens == Some(usage.output_tokens as u64)
            &&& log_after.input_tokens_from_response == log_before.input_tokens_from_response
            &&& log_after.provider_model == log_before.provider_model
            &&& log_after.total_tokens == match log_before.input_tokens_from_response {
                Some(inp) => Some(low64(inp + usage.output_tokens) as u64),
                None => log_before.total_tokens,
            }
            &&& out matches Some(c)
            &&& is_chunk_of(c, before)
            &&& c.choices@.len() == 0
            &&& c.usage == Some(usage_of(before.input_tokens as int, usage.output_tokens as int))
        },
        _ => after == before && same_counts(log_after, log_before),
    }
}

/// Taking `frames` one after the other, each by the stream's rules, leads
/// from `before` and `log_before` to `after` and `log_after`, and makes
/// exactly `chunks`, in order.
pub open spec fn is_run<E>(
    before: StreamState,
    log_before: LLMResponse,
    frames: Seq<Result<MessagesStreamEvent, E>>,
    after: StreamState,
    log_after: LLMResponse,
    chunks: Seq<universal::StreamResponse>,
) -> bool
    decreases frames.len(),
{
    if frames.len() == 0 {
        after == before && log_after == log_before && chunks.len() == 0
    } else {
        exists|mid: StreamState, log_mid: LLMResponse, out: Option<universal::StreamResponse>|
            {
                &&& #[trigger] is_step(mid, log_mid, frames.last(), after, log_after, out)
                &&& match out {
                    Some(c) => chunks.len() > 0 && chunks.last() == c && is_run(
                        before,
                        log_before,
                        frames.drop_last(),
                        mid,
                        log_mid,
                        chunks.drop_last(),
                    ),
                    None => is_run(before, log_before, frames.drop_last(), mid, log_mid, chunks),
                }
            }
    }
}

/// `s` is the state at the start of a stream: nothing is known of the
/// message yet, and no content delta has come.
pub open spec fn is_fresh(s: StreamState) -> bool {
    &&& s.message_id.is_none()
    &&& s.model@ == Seq::<char>::empty()
    &&& s.input_tokens == 0
    &&& !s.saw_token
}

impl StreamState {
    /// The state at the start of a stream that begins at `created`.
    pub fn new(created: u32) -> (r: StreamState)
        ensures
            is_fresh(r),
            r.created == created,
    {
        StreamState {
            message_id: None,
            model: String::new(),
            created,
            input_tokens: 0,
            saw_token: false,
        }
    }

    /// The state at the start of a stream that begins now.
    pub fn start() -> (r: StreamState)
        ensures
            is_fresh(r),
    {
        StreamState::new(created_from(unix_now()))
    }

    /// A chunk with what every chunk of this stream carries.
    fn chunk(&self, choices: Vec<universal::ChatChoiceStream>, usage: Option<universal::Usage>) -> (c:
        universal::StreamResponse)
        ensures
            is_chunk_of(c, *self),
            c.choices == choices,
            c.usage == usage,
    {
        let id = match &self.message_id {
            Some(id) => id.clone(),
            None => "unknown".to_owned(),
        };
        universal::StreamResponse {
            id,
            model: self.model.clone(),
            object: "chat.completion.chunk".to_owned(),
            system_fingerprint: None,
            service_tier: None,
            created: self.created,
            choices,
            usage,
        }
    }

    /// Takes one frame of the stream: the event, or the error that reading it
    /// gave. Returns the chunk that it makes, if it makes one.
    ///
    /// A message start seeds the identifier, the model and the input tokens,
    /// and is noted in the log. A content delta makes a chunk with its text;
    /// the first one also stamps the log with the moment of the first token.
    /// A message delta updates the log's counts and makes a chunk with the
    /// usage and no choice. Every other event, and a frame that could not be
    /// read, makes nothing and changes nothing.
    pub fn on_event<E>(
        &mut self,
        log: &mut LLMResponse,
        frame: Result<MessagesStreamEvent, E>,
    ) -> (r: Option<universal::StreamResponse>)
        ensures
            is_step(*old(self), *old(log), frame, *final(self), *final(log), r),
            match r {
                Some(c) => choices_text(c.choices@) == frame_text(frame),
                None => frame_text(frame) == Seq::<char>::empty(),
            },
    {
        let event = match frame {
            Ok(event) => event,
            Err(_) => {
                return None;
            },
        };
        match event {
            MessagesStreamEvent::MessageStart { message } => {
                self.model = message.model.clone();
                self.input_tokens = message.usage.input_tokens;
                log.output_tokens = Some(message.usage.output_tokens as u64);
                log.input_tokens_from_response = Some(message.usage.input_tokens as u64);
                log.provider_model = Some(new(message.model.as_str()));
                self.message_id = Some(message.id);
                None
            },
            MessagesStreamEvent::ContentBlockStart { .. } => None,
            MessagesStreamEvent::ContentBlockDelta { delta, .. } => {
                if !self.saw_token {
                    self.saw_token = true;
                    log.first_token = Some(instant_now());
                }
                let ContentBlockDelta::TextDelta { text } = delta;
                let choice = universal::ChatChoiceStream {
                    index: 0,
                    logprobs: None,
                    delta: universal::StreamResponseDelta {
                        role: None,
                        content: Some(text),
                        refusal: None,
                        tool_calls: None,
                    },
                    finish_reason: None,
                };
                let mut choices: Vec<universal::ChatChoiceStream> = Vec::new();
                choices.push(choice);
                proof {
                    reveal_with_fuel(choices_text, 2);
                    assert(choices@.drop_last() =~= Seq::empty());
                    assert(choices_text(choices@) =~= text@);
                }
                Some(self.chunk(choices, None))
            },
            MessagesStreamEvent::MessageDelta { usage, delta: _ } => {
                let output = usage.output_tokens as u64;
                log.output_tokens = Some(output);
                if let Some(inp) = log.input_tokens_from_response {
                    log.total_tokens = Some(inp.wrapping_add(output));
                }
                let choices: Vec<universal::ChatChoiceStream> = Vec::new();
                let total = crate::llm::anthropic::translate_usage(
                    self.input_tokens,
                    usage.output_tokens,
                );
                Some(self.chunk(choices, Some(total)))
            },
            MessagesStreamEvent::ContentBlockStop { .. } => None,
            MessagesStreamEvent::MessageStop => None,
            MessagesStreamEvent::Ping => None,
        }
    }

    /// Takes the frames of a stream in order, and returns the chunks that they
    /// make, in order.
    ///
    /// The chunks' content, read one after the other, is the text of the
    /// content deltas among the frames, read one after the other. A content
    /// delta has been seen after the call exactly if one had been seen before
    /// or is among the frames; the log's moment of the first token is set at
    /// the first content delta of the stream and stays as it is otherwise.
    pub fn translate_all<E>(
        &mut self,
        log: &mut LLMResponse,
        frames: Vec<Result<MessagesStreamEvent, E>>,
    ) -> (r: Vec<universal::StreamResponse>)
        ensures
            is_run(*old(self), *old(log), frames@, *final(self), *final(log), r@),
            chunks_text(r@) == frames_text(frames@),
            r@.len() == emitted_count(frames@),
            final(self).created == old(self).created,
            final(self).saw_token == (old(self).saw_token || has_delta(frames@)),
            if old(self).saw_token || !has_delta(frames@) {
                final(log).first_token == old(log).first_token
            } else {
                final(log).first_token.is_some()
            },
            forall|i: int| 0 <= i < r@.len() ==> (#[trigger] r@[i]).created == old(self).created,
    {
        let mut out: Vec<universal::StreamResponse> = Vec::new();
        let ghost all = frames@;
        let ghost state0 = *self;
        let ghost log0 = *log;
        proof {
            assert(all.take(0) =~= Seq::empty());
        }
        for frame in it: frames
            invariant
                it.seq() == all,
                is_run(state0, log0, all.take(it.index() as int), *self, *log, out@),
                self.created == state0.created,
                forall|i: int| 0 <= i < out@.len() ==> (#[trigger] out@[i]).created == state0.created,
        {
            let ghost i = it.index() as int;
            let ghost before = out@;
            let ghost mid = *self;
            let ghost log_mid = *log;
            proof {
                assert(all.take(i + 1).drop_last() =~= all.take(i));
                assert(all.take(i + 1).last() == all[i]);
            }
            let made = self.on_event(log, frame);
            match made {
                Some(chunk) => {
                    out.push(chunk);
                    proof {
                        assert(out@.drop_last() =~= before);
                        assert(out@.last() == chunk);
                    }
                },
                None => {},
            }
            proof {
                assert(is_step(mid, log_mid, all.take(i + 1).last(), *self, *log, made));
                assert(is_run(state0, log0, all.take(i + 1), *self, *log, out@));
            }
        }
        proof {
            assert(all.take(all.len() as int) =~= all);
            lemma_run_text(state0, log0, all, *self, *log, out@);
            lemma_run_first_token(state0, log0, all, *self, *log, out@);
        }
        out
    }
}

/// The last step of a run that takes at least one frame: the state and log
/// before it, and the chunk that it made, if it made one.
pub proof fn lemma_last_step<E>(
    before: StreamState,
    log_before: LLMResponse,
    frames: Seq<Result<MessagesStreamEvent, E>>,
    after: StreamState,
    log_after: LLMResponse,
    chunks: Seq<universal::StreamResponse>,
) -> (r: (StreamState, LLMResponse, Option<universal::StreamResponse>))
    requires
        frames.len() > 0,
        is_run(before, log_before, frames, after, log_after, chunks),
    ensures
        is_step(r.0, r.1, frames.last(), after, log_after, r.2),
        match r.2 {
            Some(c) => chunks.len() > 0 && chunks.last() == c && is_run(
                before,
                log_before,
                frames.drop_last(),
                r.0,
                r.1,
                chunks.drop_last(),
            ),
            None => is_run(before, log_before, frames.drop_last(), r.0, r.1, chunks),
        },
{
    choose|mid: StreamState, log_mid: LLMResponse, out: Option<universal::StreamResponse>|
        {
            &&& #[trigger] is_step(mid, log_mid, frames.last(), after, log_after, out)
            &&& match out {
                Some(c) => chunks.len() > 0 && chunks.last() == c && is_run(
                    before,
                    log_before,
                    frames.drop_last(),
                    mid,
                    log_mid,
                    chunks.drop_last(),
                ),
                None => is_run(before, log_before, frames.drop_last(), mid, log_mid, chunks),
            }
        }
}

/// Whatever the frames of a run are, the content of the chunks that it
/// makes, read one after the other, is the text of its content deltas, read
/// one after the other; and it makes one chunk for each content delta and
/// each message delta.
pub proof fn lemma_run_text<E>(
    before: StreamState,
    log_before: LLMResponse,
    frames: Seq<Result<MessagesStreamEvent, E>>,
    after: StreamState,
    log_after: LLMResponse,
    chunks: Seq<universal::StreamResponse>,
)
    requires
        is_run(before, log_before, frames, after, log_after, chunks),
    ensures
        chunks_text(chunks) == frames_text(frames),
        chunks.len() == emitted_count(frames),
    decreases frames.len(),
{
    if frames.len() > 0 {
        let (mid, log_mid, out) = lemma_last_step(before, log_before, frames, after, log_after, chunks);
        match out {
            Some(c) => {
                lemma_run_text(before, log_before, frames.drop_last(), mid, log_mid, chunks.drop_last());
                reveal_with_fuel(choices_text, 2);
                if c.choices@.len() == 1 {
                    assert(c.choices@.drop_last() =~= Seq::empty());
                    assert(choices_text(c.choices@) =~= frame_text(frames.last()));
                }
            },
            None => {
                lemma_run_text(before, log_before, frames.drop_last(), mid, log_mid, chunks);
                assert(frames_text(frames) =~= frames_text(frames.drop_last()));
            },
        }
    }
}

/// Whatever the frames of a run are, a content delta has been seen after it
/// exactly if one had been seen before it or is among its frames; the log's
/// moment of the first token is set where the run holds the first content
/// delta of the stream, and stays what it was otherwise. So a stream taken
/// from its start with a fresh log ends with the moment set exactly if it
/// held a content delta.
pub proof fn lemma_run_first_token<E>(
    before: StreamState,
    log_before: LLMResponse,
    frames: Seq<Result<MessagesStreamEvent, E>>,
    after: StreamState,
    log_after: LLMResponse,
    chunks: Seq<universal::StreamResponse>,
)
    requires
        is_run(before, log_before, frames, after, log_after, chunks),
    ensures
        after.created == before.created,
        after.saw_token == (before.saw_token || has_delta(frames)),
        if before.saw_token || !has_delta(frames) {
            log_after.first_token == log_before.first_token
        } else {
            log_after.first_token.is_some()
        },
        !before.saw_token && log_before.first_token.is_none() ==> (log_after.first_token.is_some()
            <==> has_delta(frames)),
    decreases frames.len(),
{
    if frames.len() > 0 {
        let (mid, log_mid, out) = lemma_last_step(before, log_before, frames, after, log_after, chunks);
        let earlier = frames.drop_last();
        match out {
            Some(c) => {
                lemma_run_first_token(before, log_before, earlier, mid, log_mid, chunks.drop_last());
            },
            None => {
                lemma_run_first_token(before, log_before, earlier, mid, log_mid, chunks);
            },
        }
        if has_delta(earlier) {
            let k = choose|k: int| 0 <= k < earlier.len() && is_delta(#[trigger] earlier[k]);
            assert(is_delta(frames[k]));
        }
        if is_delta(frames.last()) {
            assert(is_delta(frames[frames.len() - 1]));
        }
        if has_delta(frames) {
            let k = choose|k: int| 0 <= k < frames.len() && is_delta(#[trigger] frames[k]);
            if k < earlier.len() {
                assert(is_delta(earlier[k]));
            }
        }
    }
}

impl crate::llm::anthropic::Provider {
    /// Translates a whole stream, from its first frame to its last, stamped
    /// with the present time: one chunk for each content delta and each
    /// message delta, in order. The chunks' content, read one after the
    /// other, is the text of the content deltas, and the log holds the
    /// moment of the first token from the first content delta on.
    pub fn process_streaming<E>(
        &self,
        log: &mut LLMResponse,
        frames: Vec<Result<MessagesStreamEvent, E>>,
    ) -> (r: Vec<universal::StreamResponse>)
        ensures
            exists|start: StreamState, end: StreamState|
                is_fresh(start) && #[trigger] is_run(start, *old(log), frames@, end, *final(log), r@),
            chunks_text(r@) == frames_text(frames@),
            r@.len() == emitted_count(frames@),
            if has_delta(frames@) {
                final(log).first_token.is_some()
            } else {
                final(log).first_token == old(log).first_token
            },
            forall|i: int, j: int|
                0 <= i < r@.len() && 0 <= j < r@.len() ==> (#[trigger] r@[i]).created == (
                #[trigger] r@[j]).created,
    {
        let mut state = StreamState::start();
        let ghost start = state;
        let r = state.translate_all(log, frames);
        proof {
            assert(is_run(start, *old(log), frames@, state, *log, r@));
        }
        r
    }
}

} // verus!
