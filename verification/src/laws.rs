//! What holds of the window's state machine as a whole.

pub mod messages;
pub mod queue;

use serde_json::Value;
use vstd::prelude::*;

use crate::api::{DetailV, SummaryV};
use crate::conversation;
use crate::conversation::StreamV;
use crate::effect::{EffectV, OutcomeV};
use crate::message::UiMessageV;
use crate::text;
use crate::transition;
use crate::transition::WindowV;
use crate::voice::AdeleOutput;

verus! {

// ---------------------------------------------------------------------------
// Validity
// ---------------------------------------------------------------------------

#[verifier::opaque]
spec fn stays_valid(w: WindowV, msg: UiMessageV) -> bool {
    w.step(msg).0.wf()
}

proof fn stream_events_stay_valid(w: WindowV, msg: UiMessageV)
    requires
        w.wf(),
        msg is StreamChunk || msg is StreamComplete || msg is StreamError || msg is Disconnected,
    ensures
        stays_valid(w, msg),
{
    reveal(stays_valid);
    match msg {
        UiMessageV::Disconnected { reason } => {
            assert(conversation::without_streams(w.open).dom() =~= w.open.dom());
        },
        _ => {},
    }
}

proof fn submits_stay_valid(w: WindowV, msg: UiMessageV)
    requires
        w.wf(),
        msg is SubmitPrompt,
    ensures
        stays_valid(w, msg),
{
    reveal(stays_valid);
}

proof fn sends_stay_valid(w: WindowV, msg: UiMessageV)
    requires
        w.wf(),
        msg is ConversationLoaded || msg is SendFailed || msg is PromptSent
            || msg is UserMessageAdded || msg is ClientToolCall,
    ensures
        stays_valid(w, msg),
{
    reveal(stays_valid);
}

proof fn others_stay_valid(w: WindowV, msg: UiMessageV)
    requires
        w.wf(),
        !(msg is StreamChunk || msg is StreamComplete || msg is StreamError || msg is Disconnected
            || msg is ConversationLoaded || msg is SubmitPrompt || msg is SendFailed
            || msg is PromptSent || msg is UserMessageAdded || msg is ClientToolCall),
    ensures
        stays_valid(w, msg),
{
    reveal(stays_valid);
}

/// A state with finitely many conversations is followed by such a state,
/// whatever the message. The other laws take such states.
pub proof fn a_state_stays_valid(w: WindowV, msg: UiMessageV)
    requires
        w.wf(),
    ensures
        w.step(msg).0.wf(),
{
    assert(stays_valid(w, msg)) by {
        match msg {
            UiMessageV::StreamChunk { .. }
            | UiMessageV::StreamComplete { .. }
            | UiMessageV::StreamError { .. }
            | UiMessageV::Disconnected { .. } => stream_events_stay_valid(w, msg),
            UiMessageV::SubmitPrompt { .. } => submits_stay_valid(w, msg),
            UiMessageV::ConversationLoaded(_)
            | UiMessageV::SendFailed { .. }
            | UiMessageV::PromptSent { .. }
            | UiMessageV::UserMessageAdded { .. }
            | UiMessageV::ClientToolCall { .. } => sends_stay_valid(w, msg),
            _ => others_stay_valid(w, msg),
        }
    }
    reveal(stays_valid);
}

// ---------------------------------------------------------------------------
// Client tools
// ---------------------------------------------------------------------------

/// Every client-tool call, whatever its tool and arguments, is resolved exactly
/// once, under its own ids: the resolution is the last effect, and the only one
/// of its kind.
pub proof fn every_tool_call_is_resolved_once(
    w: WindowV,
    task_id: Seq<char>,
    conversation_id: Seq<char>,
    tool_call_id: Seq<char>,
    tool_name: Seq<char>,
    arguments: Value,
)
    ensures
        ({
            let out = w.step(
                UiMessageV::ClientToolCall {
                    task_id,
                    conversation_id,
                    tool_call_id,
                    tool_name,
                    arguments,
                },
            ).1;
            &&& out.len() > 0
            &&& out.last() matches EffectV::SubmitClientToolResult {
                task_id: t,
                tool_call_id: c,
                result,
            } && t == task_id && c == tool_call_id
            &&& forall|i: int|
                0 <= i < out.len() - 1 ==> !(#[trigger] out[i] is SubmitClientToolResult)
        }),
{
}

/// A call of an unknown tool, or of `say_this` without a text, is resolved with
/// an error and changes nothing.
pub proof fn a_call_that_cannot_be_run_changes_nothing(
    w: WindowV,
    task_id: Seq<char>,
    conversation_id: Seq<char>,
    tool_call_id: Seq<char>,
    tool_name: Seq<char>,
    arguments: Value,
)
    requires
        tool_name != "request_voice"@,
        tool_name != "stop_voice"@,
        tool_name != "say_this"@ || transition::said_text(arguments) is None,
    ensures
        ({
            let (after, out) = w.step(
                UiMessageV::ClientToolCall {
                    task_id,
                    conversation_id,
                    tool_call_id,
                    tool_name,
                    arguments,
                },
            );
            &&& after == w
            &&& out.len() == 1
            &&& out[0] matches EffectV::SubmitClientToolResult { task_id: _, tool_call_id: _, result }
                && result is Err
        }),
{
}

// ---------------------------------------------------------------------------
// Speech
// ---------------------------------------------------------------------------

/// Whether a message may have the conversation in view speak.
spec fn may_speak(w: WindowV, msg: UiMessageV) -> bool {
    &&& w.current is Some
    &&& (msg is StreamComplete && w.current_level() == AdeleOutput::Always) || (
    msg is ClientToolCall && w.current_level() == AdeleOutput::OnDemand)
}

/// Whether everything that a message has spoken is within bounds.
#[verifier::opaque]
spec fn speech_gated(w: WindowV, msg: UiMessageV) -> bool {
    forall|i: int|
        0 <= i < w.step(msg).1.len() && #[trigger] w.step(msg).1[i] is Speak ==> may_speak(w, msg)
}

proof fn turn_speech_gated(w: WindowV, msg: UiMessageV)
    requires
        msg is StreamComplete || msg is StreamError || msg is Disconnected,
    ensures
        speech_gated(w, msg),
{
    reveal(speech_gated);
    match msg {
        UiMessageV::StreamComplete { request_id, full_response } => {
            complete_effects(w, request_id, full_response);
        },
        UiMessageV::StreamError { request_id, error } => {
            error_effects(w, request_id, error);
        },
        UiMessageV::Disconnected { reason } => {
            disconnect_effects(w, reason);
        },
        _ => {},
    }
}

proof fn send_speech_gated(w: WindowV, msg: UiMessageV)
    requires
        msg is ConversationLoaded || msg is SubmitPrompt || msg is SendFailed || msg is PromptSent,
    ensures
        speech_gated(w, msg),
{
    reveal(speech_gated);
    match msg {
        UiMessageV::ConversationLoaded(d) => {
            flush_effects(w.switched_to(d));
        },
        UiMessageV::SubmitPrompt { prompt, idempotency_key } => {
            submit_effects(w, prompt, idempotency_key);
        },
        _ => {},
    }
}

proof fn tool_speech_gated(w: WindowV, msg: UiMessageV)
    requires
        msg is ClientToolCall,
    ensures
        speech_gated(w, msg),
{
    reveal(speech_gated);
}

proof fn queue_speech_gated(w: WindowV, msg: UiMessageV)
    requires
        msg is EditQueued || msg is RemoveQueued || msg is CancelQueuedEdit,
    ensures
        speech_gated(w, msg),
{
    reveal(speech_gated);
}

proof fn list_speech_gated(w: WindowV, msg: UiMessageV)
    requires
        msg is ConversationsLoaded || msg is ConversationListRefetched
            || msg is ConversationReloaded || msg is ConversationCreated
            || msg is ConversationDeleted || msg is ConversationRenamed || msg is TitleChanged
            || msg is ConversationListChanged || msg is ConversationWarning,
    ensures
        speech_gated(w, msg),
{
    reveal(speech_gated);
}

proof fn other_speech_gated(w: WindowV, msg: UiMessageV)
    requires
        msg is StreamChunk || msg is AssistantStatus || msg is UserMessageAdded
            || msg is ContextUsage || msg is ModelsLoaded || msg is DefaultModelLoaded
            || msg is Connected || msg is StatusUpdate || msg is Error || msg is TasksLoaded
            || msg is TaskStarted || msg is TaskProgress || msg is TaskLogAppended
            || msg is TaskCompleted || msg is ConversationScratchpadLoaded
            || msg is ScratchpadChanged || msg is KnowledgeChanged || msg is SetVoiceIn
            || msg is SetAdeleOutput,
    ensures
        speech_gated(w, msg),
{
    reveal(speech_gated);
}

/// Nothing is spoken but a finished reply in view at the level that narrates, or
/// an aside in view at the level that speaks asides.
pub proof fn speech_is_gated(w: WindowV, msg: UiMessageV, i: int)
    requires
        0 <= i < w.step(msg).1.len(),
        w.step(msg).1[i] is Speak,
    ensures
        w.current is Some,
        (msg is StreamComplete && w.current_level() == AdeleOutput::Always) || (
        msg is ClientToolCall && w.current_level() == AdeleOutput::OnDemand),
{
    assert(speech_gated(w, msg)) by {
        match msg {
            UiMessageV::StreamComplete { .. }
            | UiMessageV::StreamError { .. }
            | UiMessageV::Disconnected { .. } => turn_speech_gated(w, msg),
            UiMessageV::ConversationLoaded(_)
            | UiMessageV::SubmitPrompt { .. }
            | UiMessageV::SendFailed { .. }
            | UiMessageV::PromptSent { .. } => send_speech_gated(w, msg),
            UiMessageV::ClientToolCall { .. } => tool_speech_gated(w, msg),
            UiMessageV::EditQueued { .. }
            | UiMessageV::RemoveQueued { .. }
            | UiMessageV::CancelQueuedEdit => queue_speech_gated(w, msg),
            UiMessageV::ConversationsLoaded(_)
            | UiMessageV::ConversationListRefetched(_)
            | UiMessageV::ConversationReloaded(_)
            | UiMessageV::ConversationCreated { .. }
            | UiMessageV::ConversationDeleted { .. }
            | UiMessageV::ConversationRenamed { .. }
            | UiMessageV::TitleChanged { .. }
            | UiMessageV::ConversationListChanged { .. }
            | UiMessageV::ConversationWarning { .. } => list_speech_gated(w, msg),
            _ => other_speech_gated(w, msg),
        }
    }
    reveal(speech_gated);
}

/// Whatever happens, nothing is spoken while the conversation in view is
/// silenced, or while none is in view.
pub proof fn nothing_is_spoken_while_disabled(w: WindowV, msg: UiMessageV, i: int)
    requires
        w.current_level() == AdeleOutput::Disabled,
        0 <= i < w.step(msg).1.len(),
    ensures
        !(w.step(msg).1[i] is Speak),
{
    if w.step(msg).1[i] is Speak {
        speech_is_gated(w, msg, i);
    }
}

/// A reply is not narrated on top of an aside that was spoken during its turn,
/// nor when its turn was started elsewhere.
pub proof fn a_reply_is_not_spoken_twice(
    w: WindowV,
    id: Seq<char>,
    request_id: Seq<char>,
    reply: Seq<char>,
    i: int,
)
    requires
        conversation::owner(w.open, request_id) == Some(id),
        w.open[id].stream->0.say_this_spoken_this_turn || w.open[id].stream->0.external,
        0 <= i < w.on_stream_complete(request_id, reply).1.len(),
    ensures
        !(w.on_stream_complete(request_id, reply).1[i] is Speak),
{
    flush_effects(
        w.without_stream(id).with_message(transition::local_message("assistant"@, reply, None)),
    );
}

// ---------------------------------------------------------------------------
// Effects of the larger transitions
// ---------------------------------------------------------------------------

/// A flush gives out nothing, or one send and the queue it leaves.
proof fn flush_effects(w: WindowV)
    ensures
        w.flushed().1.len() == 0 <==> !w.can_flush(),
        w.can_flush() ==> {
            &&& w.flushed().1.len() == 2
            &&& w.flushed().1[0] is SendPrompt
            &&& w.flushed().1[1] is SetQueuedMessages
        },
{
}

proof fn submit_effects(w: WindowV, prompt: Seq<char>, key: Option<Seq<char>>)
    ensures
        forall|i: int|
            0 <= i < w.on_submit_prompt(prompt, key).1.len() ==> {
                ||| #[trigger] w.on_submit_prompt(prompt, key).1[i] is SendPrompt
                ||| w.on_submit_prompt(prompt, key).1[i] is SetQueuedMessages
                ||| w.on_submit_prompt(prompt, key).1[i] is SetComposerText
            },
{
    if w.current is Some && w.current_model() is Some {
        let id = w.current->0;
        let m = w.open[id];
        if m.editing is Some {
            let edited = w.edit_ended(id, m.editing->0, prompt);
            flush_effects(edited);
        } else {
            flush_effects(w.with_model(id, WindowV::queued(m, prompt, key)));
        }
    }
}

proof fn complete_effects(w: WindowV, request_id: Seq<char>, reply: Seq<char>)
    ensures
        forall|i: int|
            0 <= i < w.on_stream_complete(request_id, reply).1.len() ==> ({
                let e = #[trigger] w.on_stream_complete(request_id, reply).1[i];
                let id = conversation::owner(w.open, request_id);
                &&& id is Some
                &&& e is Speak ==> w.is_active(id->0) && w.open[id->0].adele_output.narrates()
                &&& e is TurnFinished ==> e == transition::finished(
                    id->0,
                    request_id,
                    w.open[id->0].stream->0,
                    OutcomeV::Completed,
                )
            }),
{
    conversation::owner_is_streaming(w.open, request_id);
    if conversation::owner(w.open, request_id) is Some {
        let id = conversation::owner(w.open, request_id)->0;
        flush_effects(
            w.without_stream(id).with_message(
                transition::local_message("assistant"@, reply, None),
            ),
        );
    }
}

proof fn error_effects(w: WindowV, request_id: Seq<char>, error: Seq<char>)
    ensures
        forall|i: int|
            0 <= i < w.on_stream_error(request_id, error).1.len() ==> ({
                let e = #[trigger] w.on_stream_error(request_id, error).1[i];
                let id = conversation::owner(w.open, request_id);
                &&& id is Some
                &&& !(e is Speak)
                &&& e is TurnFinished ==> e == transition::finished(
                    id->0,
                    request_id,
                    w.open[id->0].stream->0,
                    OutcomeV::Failed(error),
                )
            }),
{
    conversation::owner_is_streaming(w.open, request_id);
    if conversation::owner(w.open, request_id) is Some {
        flush_effects(w.without_stream(conversation::owner(w.open, request_id)->0));
    }
}

proof fn disconnect_effects(w: WindowV, reason: Seq<char>)
    ensures
        forall|i: int|
            0 <= i < w.on_disconnected(reason).1.len() ==> ({
                let e = #[trigger] w.on_disconnected(reason).1[i];
                let told = "Disconnected: "@ + reason;
                &&& !(e is Speak)
                &&& e is TurnFinished ==> w.all_turns_ended(told).1.contains(e)
            }),
{
    let told = "Disconnected: "@ + reason;
    let reports = w.all_turns_ended(told).1;
    let out = w.on_disconnected(reason).1;
    assert forall|i: int| 0 <= i < out.len() implies ({
        let e = #[trigger] out[i];
        &&& !(e is Speak)
        &&& e is TurnFinished ==> reports.contains(e)
    }) by {
        let head = out.len() - reports.len();
        if i >= head {
            assert(out[i] == reports[i - head]);
        }
    }
}

// ---------------------------------------------------------------------------
// Turns
// ---------------------------------------------------------------------------

/// Whether `after` is a later moment of the turn that `before` is a moment of.
pub open spec fn same_turn(before: StreamV, after: StreamV) -> bool {
    &&& after.task_id == before.task_id
    &&& after.idempotency_key == before.idempotency_key
    &&& after.external == before.external
    &&& before.buffer.is_prefix_of(after.buffer)
    &&& before.request_id is Some ==> after.request_id == before.request_id
}

/// Whether the turn of `id` goes on from one state to the next.
pub open spec fn goes_on(before: WindowV, after: WindowV, id: Seq<char>) -> bool {
    conversation::is_streaming(after.open, id) && same_turn(
        before.open[id].stream->0,
        after.open[id].stream->0,
    )
}

/// Whether effects report the end of a turn of `id` sent under `key`.
pub open spec fn reports_end(out: Seq<EffectV>, id: Seq<char>, key: Option<Seq<char>>) -> bool {
    exists|i: int|
        0 <= i < out.len() && (#[trigger] out[i] matches EffectV::TurnFinished {
            conversation_id,
            request_id,
            idempotency_key,
            outcome,
        } && conversation_id == id && idempotency_key == key)
}

/// Whether every reply in flight of one state is in flight, unchanged, in
/// another.
spec fn keeps_streams(before: WindowV, after: WindowV) -> bool {
    forall|id: Seq<char>| #[trigger]
        conversation::is_streaming(before.open, id) ==> conversation::is_streaming(after.open, id)
            && after.open[id].stream == before.open[id].stream
}

proof fn flush_keeps_streams(w: WindowV)
    ensures
        keeps_streams(w, w.flushed().0),
{
}

proof fn kept_turn_goes_on(before: WindowV, after: WindowV, id: Seq<char>)
    requires
        keeps_streams(before, after),
        conversation::is_streaming(before.open, id),
    ensures
        goes_on(before, after, id),
{
    let b = before.open[id].stream->0.buffer;
    assert(b.is_prefix_of(b)) by {
        assert(b.subrange(0, b.len() as int) =~= b);
    }
}

proof fn chunk_accounts(w: WindowV, request_id: Seq<char>, chunk: Seq<char>, id: Seq<char>)
    requires
        conversation::is_streaming(w.open, id),
    ensures
        goes_on(w, w.on_stream_chunk(request_id, chunk).0, id),
{
    let after = w.on_stream_chunk(request_id, chunk).0;
    let s = w.open[id].stream->0;
    conversation::owner_is_streaming(w.open, request_id);
    if conversation::owner(w.open, request_id) == Some(id) {
        assert(s.buffer.is_prefix_of(s.buffer + chunk)) by {
            assert((s.buffer + chunk).subrange(0, s.buffer.len() as int) =~= s.buffer);
        }
    } else {
        assert(keeps_streams_of(w, after, id));
        same_stream_goes_on(w, after, id);
    }
}

proof fn complete_accounts(w: WindowV, request_id: Seq<char>, reply: Seq<char>, id: Seq<char>)
    requires
        conversation::is_streaming(w.open, id),
    ensures
        goes_on(w, w.on_stream_complete(request_id, reply).0, id) || reports_end(
            w.on_stream_complete(request_id, reply).1,
            id,
            w.open[id].stream->0.idempotency_key,
        ),
{
    let (after, out) = w.on_stream_complete(request_id, reply);
    conversation::owner_is_streaming(w.open, request_id);
    if conversation::owner(w.open, request_id) is Some {
        let o = conversation::owner(w.open, request_id)->0;
        let report = transition::finished(
            o,
            request_id,
            w.open[o].stream->0,
            OutcomeV::Completed,
        );
        let mid = w.without_stream(o).with_message(
            transition::local_message("assistant"@, reply, None),
        );
        flush_effects(mid);
        flush_keeps_streams(mid);
        if o == id {
            if w.is_active(o) {
                let (_, flush) = mid.flushed();
                assert(out[out.len() - flush.len() - 1] == report);
            } else {
                assert(out[0] == report);
            }
        } else {
            assert(conversation::is_streaming(mid.open, id));
            assert(keeps_streams_of(w, after, id));
            same_stream_goes_on(w, after, id);
        }
    } else {
        same_stream_goes_on(w, after, id);
    }
}

proof fn error_accounts(w: WindowV, request_id: Seq<char>, error: Seq<char>, id: Seq<char>)
    requires
        conversation::is_streaming(w.open, id),
    ensures
        goes_on(w, w.on_stream_error(request_id, error).0, id) || reports_end(
            w.on_stream_error(request_id, error).1,
            id,
            w.open[id].stream->0.idempotency_key,
        ),
{
    let (after, out) = w.on_stream_error(request_id, error);
    conversation::owner_is_streaming(w.open, request_id);
    if conversation::owner(w.open, request_id) is Some {
        let o = conversation::owner(w.open, request_id)->0;
        let report = transition::finished(
            o,
            request_id,
            w.open[o].stream->0,
            OutcomeV::Failed(error),
        );
        let mid = w.without_stream(o);
        flush_effects(mid);
        flush_keeps_streams(mid);
        if o == id {
            if w.is_active(o) {
                assert(out[2] == report);
            } else {
                assert(out[1] == report);
            }
        } else {
            assert(conversation::is_streaming(mid.open, id));
            assert(keeps_streams_of(w, after, id));
            same_stream_goes_on(w, after, id);
        }
    } else {
        same_stream_goes_on(w, after, id);
    }
}

proof fn echo_accounts(
    w: WindowV,
    conversation_id: Seq<char>,
    request_id: Seq<char>,
    content: Seq<char>,
    key: Option<Seq<char>>,
    id: Seq<char>,
)
    requires
        conversation::is_streaming(w.open, id),
    ensures
        goes_on(w, w.on_user_message_added(conversation_id, request_id, content, key).0, id),
{
    let after = w.on_user_message_added(conversation_id, request_id, content, key).0;
    let s = w.open[id].stream->0;
    assert(s.buffer.is_prefix_of(s.buffer)) by {
        assert(s.buffer.subrange(0, s.buffer.len() as int) =~= s.buffer);
    }
    assert(conversation::is_streaming(after.open, id));
}

proof fn tool_call_accounts(
    w: WindowV,
    task_id: Seq<char>,
    conversation_id: Seq<char>,
    tool_call_id: Seq<char>,
    tool_name: Seq<char>,
    said: Option<Seq<char>>,
    id: Seq<char>,
)
    requires
        conversation::is_streaming(w.open, id),
    ensures
        goes_on(
            w,
            w.on_client_tool_call(task_id, conversation_id, tool_call_id, tool_name, said).0,
            id,
        ),
{
    let s = w.open[id].stream->0;
    assert(s.buffer.is_prefix_of(s.buffer)) by {
        assert(s.buffer.subrange(0, s.buffer.len() as int) =~= s.buffer);
    }
}

proof fn disconnect_accounts(w: WindowV, reason: Seq<char>, id: Seq<char>)
    requires
        w.wf(),
        conversation::is_streaming(w.open, id),
    ensures
        reports_end(w.on_disconnected(reason).1, id, w.open[id].stream->0.idempotency_key),
{
    let out = w.on_disconnected(reason).1;
    let key = w.open[id].stream->0.idempotency_key;
    let reports = w.all_turns_ended("Disconnected: "@ + reason).1;
    all_reported(w, "Disconnected: "@ + reason, id);
    let k = choose|k: int|
        0 <= k < reports.len() && (#[trigger] reports[k] matches EffectV::TurnFinished {
            conversation_id,
            request_id,
            idempotency_key,
            outcome,
        } && conversation_id == id && idempotency_key == key);
    assert(out[out.len() - reports.len() + k] == reports[k]);
}

proof fn switch_accounts(w: WindowV, d: DetailV, id: Seq<char>)
    requires
        conversation::is_streaming(w.open, id),
    ensures
        goes_on(w, w.on_conversation_loaded(d).0, id),
{
    let after = w.on_conversation_loaded(d).0;
    flush_keeps_streams(w.switched_to(d));
    assert(conversation::is_streaming(w.switched_to(d).open, id));
    assert(keeps_streams_of(w, after, id));
    same_stream_goes_on(w, after, id);
}

/// Whether the turn of `id` goes on past a message, or is reported.
#[verifier::opaque]
spec fn accounted(w: WindowV, msg: UiMessageV, id: Seq<char>) -> bool {
    goes_on(w, w.step(msg).0, id) || reports_end(
        w.step(msg).1,
        id,
        w.open[id].stream->0.idempotency_key,
    )
}

proof fn stream_events_account(w: WindowV, msg: UiMessageV, id: Seq<char>)
    requires
        w.wf(),
        conversation::is_streaming(w.open, id),
        msg is StreamChunk || msg is StreamComplete || msg is StreamError || msg is Disconnected,
    ensures
        accounted(w, msg, id),
{
    reveal(accounted);
    match msg {
        UiMessageV::StreamChunk { request_id, chunk } => {
            chunk_accounts(w, request_id, chunk, id);
        },
        UiMessageV::StreamComplete { request_id, full_response } => {
            complete_accounts(w, request_id, full_response, id);
        },
        UiMessageV::StreamError { request_id, error } => {
            error_accounts(w, request_id, error, id);
        },
        UiMessageV::Disconnected { reason } => {
            disconnect_accounts(w, reason, id);
        },
        _ => {},
    }
}

proof fn sends_account(w: WindowV, msg: UiMessageV, id: Seq<char>)
    requires
        conversation::is_streaming(w.open, id),
        msg is ConversationLoaded || msg is SubmitPrompt || msg is SendFailed || msg is PromptSent,
    ensures
        accounted(w, msg, id),
{
    reveal(accounted);
    let (after, out) = w.step(msg);
    match msg {
        UiMessageV::PromptSent { task_id, conversation_id, idempotency_key } => {
            if conversation_id == id {
                assert(out[0] is TurnFinished);
            } else {
                same_stream_goes_on(w, after, id);
            }
        },
        UiMessageV::ConversationLoaded(d) => {
            switch_accounts(w, d, id);
        },
        UiMessageV::SubmitPrompt { prompt, idempotency_key } => {
            submit_keeps_streams(w, prompt, idempotency_key);
            kept_turn_goes_on(w, after, id);
        },
        _ => {
            assert(keeps_streams_of(w, after, id));
            same_stream_goes_on(w, after, id);
        },
    }
}

proof fn calls_account(w: WindowV, msg: UiMessageV, id: Seq<char>)
    requires
        conversation::is_streaming(w.open, id),
        msg is UserMessageAdded || msg is ClientToolCall,
    ensures
        accounted(w, msg, id),
{
    reveal(accounted);
    match msg {
        UiMessageV::UserMessageAdded { conversation_id, request_id, content, idempotency_key } => {
            echo_accounts(w, conversation_id, request_id, content, idempotency_key, id);
        },
        UiMessageV::ClientToolCall {
            task_id,
            conversation_id,
            tool_call_id,
            tool_name,
            arguments,
        } => {
            tool_call_accounts(
                w,
                task_id,
                conversation_id,
                tool_call_id,
                tool_name,
                transition::said_text(arguments),
                id,
            );
        },
        _ => {},
    }
}

proof fn queue_edits_account(w: WindowV, msg: UiMessageV, id: Seq<char>)
    requires
        conversation::is_streaming(w.open, id),
        msg is EditQueued || msg is RemoveQueued || msg is CancelQueuedEdit,
    ensures
        accounted(w, msg, id),
{
    reveal(accounted);
    assert(keeps_streams_of(w, w.step(msg).0, id));
    same_stream_goes_on(w, w.step(msg).0, id);
}

proof fn list_changes_account(w: WindowV, msg: UiMessageV, id: Seq<char>)
    requires
        conversation::is_streaming(w.open, id),
        msg is ConversationsLoaded || msg is ConversationListRefetched
            || msg is ConversationReloaded || msg is ConversationCreated
            || msg is ConversationDeleted || msg is ConversationRenamed || msg is TitleChanged
            || msg is ConversationListChanged || msg is ConversationWarning,
    ensures
        accounted(w, msg, id),
{
    reveal(accounted);
    let (after, out) = w.step(msg);
    if msg == (UiMessageV::ConversationDeleted { id }) {
        assert(out[out.len() - 1] == w.deletion_reports(id)[0]);
    } else {
        assert(keeps_streams_of(w, after, id));
        same_stream_goes_on(w, after, id);
    }
}

proof fn others_account(w: WindowV, msg: UiMessageV, id: Seq<char>)
    requires
        conversation::is_streaming(w.open, id),
        msg is AssistantStatus || msg is ContextUsage || msg is ModelsLoaded
            || msg is DefaultModelLoaded || msg is Connected || msg is StatusUpdate || msg is Error
            || msg is TasksLoaded || msg is TaskStarted || msg is TaskProgress
            || msg is TaskLogAppended || msg is TaskCompleted || msg is ConversationScratchpadLoaded
            || msg is ScratchpadChanged || msg is KnowledgeChanged || msg is SetVoiceIn
            || msg is SetAdeleOutput,
    ensures
        accounted(w, msg, id),
{
    reveal(accounted);
    assert(keeps_streams_of(w, w.step(msg).0, id));
    same_stream_goes_on(w, w.step(msg).0, id);
}

/// A turn that was in flight goes on, or its end is reported under its own
/// conversation and key, whatever the message. No turn ends in silence.
pub proof fn every_turn_goes_on_or_is_reported(w: WindowV, msg: UiMessageV, id: Seq<char>)
    requires
        w.wf(),
        conversation::is_streaming(w.open, id),
    ensures
        goes_on(w, w.step(msg).0, id) || reports_end(
            w.step(msg).1,
            id,
            w.open[id].stream->0.idempotency_key,
        ),
{
    assert(accounted(w, msg, id)) by {
        match msg {
            UiMessageV::StreamChunk { .. }
            | UiMessageV::StreamComplete { .. }
            | UiMessageV::StreamError { .. }
            | UiMessageV::Disconnected { .. } => stream_events_account(w, msg, id),
            UiMessageV::ConversationLoaded(_)
            | UiMessageV::SubmitPrompt { .. }
            | UiMessageV::SendFailed { .. }
            | UiMessageV::PromptSent { .. } => sends_account(w, msg, id),
            UiMessageV::UserMessageAdded { .. } | UiMessageV::ClientToolCall { .. } =>
                calls_account(w, msg, id),
            UiMessageV::EditQueued { .. }
            | UiMessageV::RemoveQueued { .. }
            | UiMessageV::CancelQueuedEdit => queue_edits_account(w, msg, id),
            UiMessageV::ConversationsLoaded(_)
            | UiMessageV::ConversationListRefetched(_)
            | UiMessageV::ConversationReloaded(_)
            | UiMessageV::ConversationCreated { .. }
            | UiMessageV::ConversationDeleted { .. }
            | UiMessageV::ConversationRenamed { .. }
            | UiMessageV::TitleChanged { .. }
            | UiMessageV::ConversationListChanged { .. }
            | UiMessageV::ConversationWarning { .. } => list_changes_account(w, msg, id),
            _ => others_account(w, msg, id),
        }
    }
    reveal(accounted);
}

spec fn keeps_streams_of(before: WindowV, after: WindowV, id: Seq<char>) -> bool {
    conversation::is_streaming(after.open, id) && after.open[id].stream == before.open[id].stream
}

proof fn same_stream_goes_on(before: WindowV, after: WindowV, id: Seq<char>)
    requires
        keeps_streams_of(before, after, id),
        conversation::is_streaming(before.open, id),
    ensures
        goes_on(before, after, id),
{
    let b = before.open[id].stream->0.buffer;
    assert(b.is_prefix_of(b)) by {
        assert(b.subrange(0, b.len() as int) =~= b);
    }
}

proof fn submit_keeps_streams(w: WindowV, prompt: Seq<char>, key: Option<Seq<char>>)
    ensures
        keeps_streams(w, w.on_submit_prompt(prompt, key).0),
{
    if w.current is Some && w.current_model() is Some {
        let id = w.current->0;
        let m = w.open[id];
        if m.editing is Some {
            let edited = w.edit_ended(id, m.editing->0, prompt);
            assert(keeps_streams(w, edited));
            flush_keeps_streams(edited);
        } else {
            let queued = w.with_model(id, WindowV::queued(m, prompt, key));
            assert(keeps_streams(w, queued));
            flush_keeps_streams(queued);
        }
    }
}

/// A teardown of every turn reports each turn that was in flight.
proof fn all_reported(w: WindowV, reason: Seq<char>, id: Seq<char>)
    requires
        w.wf(),
        conversation::is_streaming(w.open, id),
    ensures
        reports_end(w.all_turns_ended(reason).1, id, w.open[id].stream->0.idempotency_key),
{
    let ids = conversation::streaming_ids(w.open);
    conversation::streaming_ids_listed(w.open);
    assert(ids.contains(id));
    let k = ids.index_of(id);
    let out = w.all_turns_ended(reason).1;
    assert(conversation::streams(w.open)[k] == (id, w.open[id].stream->0));
    assert(out[k] is TurnFinished);
}

/// Whether an effect, if it reports the end of a turn, names a turn that was in
/// flight, by its conversation and its key.
pub open spec fn is_true_report(w: WindowV, e: EffectV) -> bool {
    e matches EffectV::TurnFinished { conversation_id, request_id, idempotency_key, outcome } ==> {
        &&& conversation::is_streaming(w.open, conversation_id)
        &&& idempotency_key == w.open[conversation_id].stream->0.idempotency_key
    }
}

/// Whether all of a message's reports are true.
#[verifier::opaque]
spec fn reports_truly(w: WindowV, msg: UiMessageV) -> bool {
    forall|i: int|
        0 <= i < w.step(msg).1.len() ==> is_true_report(w, #[trigger] w.step(msg).1[i])
}

proof fn teardown_reports_truly(w: WindowV, reason: Seq<char>)
    requires
        w.wf(),
    ensures
        forall|i: int|
            0 <= i < w.all_turns_ended(reason).1.len() ==> is_true_report(
                w,
                #[trigger] w.all_turns_ended(reason).1[i],
            ),
{
    let ids = conversation::streaming_ids(w.open);
    conversation::streaming_ids_listed(w.open);
    assert forall|i: int| 0 <= i < w.all_turns_ended(reason).1.len() implies is_true_report(
        w,
        #[trigger] w.all_turns_ended(reason).1[i],
    ) by {
        assert(ids.contains(ids[i]));
        assert(conversation::streams(w.open)[i] == (ids[i], w.open[ids[i]].stream->0));
    }
}

proof fn stream_events_report_truly(w: WindowV, msg: UiMessageV)
    requires
        w.wf(),
        msg is StreamComplete || msg is StreamError || msg is Disconnected,
    ensures
        reports_truly(w, msg),
{
    reveal(reports_truly);
    match msg {
        UiMessageV::StreamComplete { request_id, full_response } => {
            conversation::owner_is_streaming(w.open, request_id);
            complete_effects(w, request_id, full_response);
        },
        UiMessageV::StreamError { request_id, error } => {
            conversation::owner_is_streaming(w.open, request_id);
            error_effects(w, request_id, error);
        },
        UiMessageV::Disconnected { reason } => {
            let told = "Disconnected: "@ + reason;
            let reports = w.all_turns_ended(told).1;
            disconnect_effects(w, reason);
            teardown_reports_truly(w, told);
            let out = w.on_disconnected(reason).1;
            assert forall|i: int| 0 <= i < out.len() implies is_true_report(
                w,
                #[trigger] out[i],
            ) by {
                if out[i] is TurnFinished {
                    let k = reports.index_of(out[i]);
                    assert(reports[k] == out[i]);
                }
            }
        },
        _ => {},
    }
}

proof fn sends_report_truly(w: WindowV, msg: UiMessageV)
    requires
        msg is ConversationLoaded || msg is SubmitPrompt || msg is SendFailed || msg is PromptSent,
    ensures
        reports_truly(w, msg),
{
    reveal(reports_truly);
    match msg {
        UiMessageV::ConversationLoaded(d) => {
            flush_effects(w.switched_to(d));
        },
        UiMessageV::SubmitPrompt { prompt, idempotency_key } => {
            submit_effects(w, prompt, idempotency_key);
        },
        _ => {},
    }
}

proof fn calls_report_truly(w: WindowV, msg: UiMessageV)
    requires
        msg is ClientToolCall || msg is EditQueued || msg is RemoveQueued
            || msg is CancelQueuedEdit,
    ensures
        reports_truly(w, msg),
{
    reveal(reports_truly);
}

proof fn list_changes_report_truly(w: WindowV, msg: UiMessageV)
    requires
        msg is ConversationsLoaded || msg is ConversationListRefetched
            || msg is ConversationReloaded || msg is ConversationCreated
            || msg is ConversationDeleted || msg is ConversationRenamed || msg is TitleChanged
            || msg is ConversationListChanged || msg is ConversationWarning,
    ensures
        reports_truly(w, msg),
{
    reveal(reports_truly);
}

proof fn others_report_truly(w: WindowV, msg: UiMessageV)
    requires
        msg is StreamChunk || msg is AssistantStatus || msg is UserMessageAdded
            || msg is ContextUsage || msg is ModelsLoaded || msg is DefaultModelLoaded
            || msg is Connected || msg is StatusUpdate || msg is Error || msg is TasksLoaded
            || msg is TaskStarted || msg is TaskProgress || msg is TaskLogAppended
            || msg is TaskCompleted || msg is ConversationScratchpadLoaded
            || msg is ScratchpadChanged || msg is KnowledgeChanged || msg is SetVoiceIn
            || msg is SetAdeleOutput,
    ensures
        reports_truly(w, msg),
{
    reveal(reports_truly);
}

/// The end of a turn is reported only of a turn that was in flight: a stray or
/// unknown stream event closes nothing.
pub proof fn every_report_is_of_a_turn_in_flight(w: WindowV, msg: UiMessageV, i: int)
    requires
        w.wf(),
        0 <= i < w.step(msg).1.len(),
    ensures
        is_true_report(w, w.step(msg).1[i]),
{
    assert(reports_truly(w, msg)) by {
        match msg {
            UiMessageV::StreamComplete { .. }
            | UiMessageV::StreamError { .. }
            | UiMessageV::Disconnected { .. } => stream_events_report_truly(w, msg),
            UiMessageV::ConversationLoaded(_)
            | UiMessageV::SubmitPrompt { .. }
            | UiMessageV::SendFailed { .. }
            | UiMessageV::PromptSent { .. } => sends_report_truly(w, msg),
            UiMessageV::ClientToolCall { .. }
            | UiMessageV::EditQueued { .. }
            | UiMessageV::RemoveQueued { .. }
            | UiMessageV::CancelQueuedEdit => calls_report_truly(w, msg),
            UiMessageV::ConversationsLoaded(_)
            | UiMessageV::ConversationListRefetched(_)
            | UiMessageV::ConversationReloaded(_)
            | UiMessageV::ConversationCreated { .. }
            | UiMessageV::ConversationDeleted { .. }
            | UiMessageV::ConversationRenamed { .. }
            | UiMessageV::TitleChanged { .. }
            | UiMessageV::ConversationListChanged { .. }
            | UiMessageV::ConversationWarning { .. } => list_changes_report_truly(w, msg),
            _ => others_report_truly(w, msg),
        }
    }
    reveal(reports_truly);
}

/// After a disconnect or a reset no reply is in flight, and there is one report
/// for each that was, in ascending order of conversation.
pub proof fn a_teardown_ends_every_turn(w: WindowV, reason: Seq<char>, id: Seq<char>)
    requires
        w.wf(),
    ensures
        !conversation::is_streaming(w.all_turns_ended(reason).0.open, id),
        !conversation::is_streaming(w.on_disconnected(reason).0.open, id),
        w.all_turns_ended(reason).1.len() == conversation::streaming_ids(w.open).len(),
        conversation::lists_streaming(w.open, conversation::streaming_ids(w.open)),
        forall|i: int|
            0 <= i < w.all_turns_ended(reason).1.len() ==> (
            #[trigger] w.all_turns_ended(reason).1[i] matches EffectV::TurnFinished {
                conversation_id,
                request_id,
                idempotency_key,
                outcome,
            } && conversation_id == conversation::streaming_ids(w.open)[i] && outcome
                == OutcomeV::Failed(reason)),
{
    conversation::streaming_ids_listed(w.open);
    let out = w.all_turns_ended(reason).1;
    let ids = conversation::streaming_ids(w.open);
    assert forall|i: int| 0 <= i < out.len() implies (
    #[trigger] out[i] matches EffectV::TurnFinished {
        conversation_id,
        request_id,
        idempotency_key,
        outcome,
    } && conversation_id == ids[i] && outcome == OutcomeV::Failed(reason)) by {
        assert(conversation::streams(w.open)[i] == (ids[i], w.open[ids[i]].stream->0));
    }
}

/// A turn in view that finished or failed is reported before the queue is sent as
/// the next one.
pub proof fn a_turn_is_closed_before_the_next_is_sent(w: WindowV, msg: UiMessageV, i: int, j: int)
    requires
        msg is StreamComplete || msg is StreamError,
        0 <= i < w.step(msg).1.len(),
        0 <= j < w.step(msg).1.len(),
        w.step(msg).1[i] is TurnFinished,
        w.step(msg).1[j] is SendPrompt,
    ensures
        i < j,
{
    match msg {
        UiMessageV::StreamComplete { request_id, full_response } => {
            conversation::owner_is_streaming(w.open, request_id);
            if conversation::owner(w.open, request_id) is Some {
                let id = conversation::owner(w.open, request_id)->0;
                flush_effects(
                    w.without_stream(id).with_message(
                        transition::local_message("assistant"@, full_response, None),
                    ),
                );
            }
        },
        UiMessageV::StreamError { request_id, error } => {
            conversation::owner_is_streaming(w.open, request_id);
            if conversation::owner(w.open, request_id) is Some {
                flush_effects(w.without_stream(conversation::owner(w.open, request_id)->0));
            }
        },
        _ => {},
    }
}

/// An acknowledged send opens its turn: unclaimed, empty, started here, and under
/// the task and the key of the send.
pub proof fn an_acknowledgement_opens_its_turn(
    w: WindowV,
    task_id: Seq<char>,
    id: Seq<char>,
    key: Option<Seq<char>>,
)
    ensures
        ({
            let after = w.step(
                UiMessageV::PromptSent { task_id, conversation_id: id, idempotency_key: key },
            ).0;
            let s = after.open[id].stream->0;
            &&& conversation::is_pending(after.open, id)
            &&& s.task_id == task_id
            &&& s.idempotency_key == key
            &&& !s.external
            &&& s.buffer.len() == 0
        }),
{
}

/// A turn that this client did not start has no task to cancel and no key to
/// report.
pub proof fn an_adopted_turn_is_not_ours(
    w: WindowV,
    id: Seq<char>,
    request_id: Seq<char>,
    content: Seq<char>,
    key: Option<Seq<char>>,
)
    requires
        !conversation::is_streaming(w.open, id),
        conversation::is_streaming(
            w.on_user_message_added(id, request_id, content, key).0.open,
            id,
        ),
    ensures
        ({
            let (after, out) = w.on_user_message_added(id, request_id, content, key);
            let s = after.open[id].stream->0;
            &&& w.is_active(id)
            &&& s.external
            &&& s.request_id == Some(request_id)
            &&& s.task_id.len() == 0
            &&& s.idempotency_key is None
            &&& out == seq![EffectV::AddUserMessage(content)]
        }),
{
}

/// The end of a turn leaves no reply of it in flight, and so nothing to cancel.
pub proof fn a_finished_turn_is_gone(w: WindowV, id: Seq<char>, request_id: Seq<char>, text: Seq<char>)
    requires
        conversation::owner(w.open, request_id) == Some(id),
    ensures
        !conversation::is_streaming(w.on_stream_complete(request_id, text).0.open, id),
        !conversation::is_streaming(w.on_stream_error(request_id, text).0.open, id),
{
}

// ---------------------------------------------------------------------------
// Streams of several conversations
// ---------------------------------------------------------------------------

/// A piece of a reply that is not in view renders nothing, is kept for its own
/// conversation, and leaves every other one alone.
pub proof fn a_chunk_out_of_view_is_kept_and_not_shown(
    w: WindowV,
    id: Seq<char>,
    request_id: Seq<char>,
    chunk: Seq<char>,
    other: Seq<char>,
)
    requires
        conversation::owner(w.open, request_id) == Some(id),
        !w.is_active(id),
        other != id,
    ensures
        ({
            let (after, out) = w.step(UiMessageV::StreamChunk { request_id, chunk });
            &&& out.len() == 0
            &&& after.current == w.current
            &&& after.open[id].stream->0.buffer == w.open[id].stream->0.buffer + chunk
            &&& after.open.contains_key(other) == w.open.contains_key(other)
            &&& after.model(other) == w.model(other)
        }),
{
}

/// The end of a turn that is not in view touches nothing in the chat: it is
/// reported, and a failure is told in the status bar.
pub proof fn an_end_out_of_view_is_only_reported(
    w: WindowV,
    id: Seq<char>,
    request_id: Seq<char>,
    text: Seq<char>,
)
    requires
        conversation::owner(w.open, request_id) == Some(id),
        !w.is_active(id),
    ensures
        ({
            let s = w.open[id].stream->0;
            let done = w.on_stream_complete(request_id, text);
            let failed = w.on_stream_error(request_id, text);
            &&& done.1 == seq![
                transition::finished(id, request_id, s, OutcomeV::Completed),
            ]
            &&& failed.1 == seq![
                EffectV::SetStatusText("Error: "@ + text),
                transition::finished(id, request_id, s, OutcomeV::Failed(text)),
            ]
            &&& done.0 == w.without_stream(id)
            &&& failed.0 == w.without_stream(id)
        }),
{
}

/// What is reported of a conversation out of view (its status, its context fill,
/// its scratchpad) is not shown.
pub proof fn only_the_view_is_painted(w: WindowV, msg: UiMessageV)
    requires
        match msg {
            UiMessageV::AssistantStatus { request_id, message } => conversation::owner(
                w.open,
                request_id,
            ) != w.current,
            UiMessageV::ContextUsage {
                conversation_id,
                used_tokens,
                budget_tokens,
                compaction_active,
            } => !w.is_active(conversation_id),
            UiMessageV::ConversationScratchpadLoaded { conversation_id, notes } => !w.is_active(
                conversation_id,
            ),
            UiMessageV::ScratchpadChanged { conversation_id } => !w.is_active(conversation_id),
            UiMessageV::ConversationReloaded(d) => !w.is_active(d.id),
            _ => false,
        },
    ensures
        w.step(msg) == (w, Seq::<EffectV>::empty()),
{
}

/// A conversation that comes into view, or is in view on a (re)connect, is the
/// one that the daemon is asked to report on.
pub proof fn the_conversation_in_view_is_followed(w: WindowV, d: DetailV, list: Seq<SummaryV>)
    ensures
        w.step(UiMessageV::ConversationLoaded(d)).0.current == Some(d.id),
        w.step(UiMessageV::ConversationLoaded(d)).1.contains(
            EffectV::SubscribeConversations(seq![d.id]),
        ),
        w.current is Some && transition::lists(list, w.current->0) ==> w.step(
            UiMessageV::ConversationsLoaded(list),
        ).1.contains(EffectV::SubscribeConversations(seq![w.current->0])),
{
    flush_effects(w.switched_to(d));
    let loaded = w.step(UiMessageV::ConversationLoaded(d)).1;
    assert(loaded[3] == EffectV::SubscribeConversations(seq![d.id]));
    let listed = w.step(UiMessageV::ConversationsLoaded(list)).1;
    if w.current is Some && transition::lists(list, w.current->0) {
        assert(listed[2] == EffectV::SubscribeConversations(seq![w.current->0]));
    }
}

/// Switching to a conversation whose reply is in flight shows the reply so far.
pub proof fn switching_back_shows_the_reply_so_far(w: WindowV, d: DetailV)
    requires
        conversation::is_streaming(w.open, d.id),
        w.open[d.id].stream->0.buffer.len() > 0,
    ensures
        w.step(UiMessageV::ConversationLoaded(d)).1[7] == EffectV::ReceiveChunk(
            w.open[d.id].stream->0.buffer,
        ),
{
    flush_effects(w.switched_to(d));
}

/// A stream event acts on at most one conversation: the one it belongs to.
pub proof fn a_stream_event_touches_its_own_conversation_only(
    w: WindowV,
    msg: UiMessageV,
    request_id: Seq<char>,
    other: Seq<char>,
)
    requires
        (msg matches UiMessageV::StreamChunk { request_id: r, chunk } && r == request_id) || (
        msg matches UiMessageV::StreamComplete { request_id: r, full_response } && r
            == request_id) || (msg matches UiMessageV::StreamError { request_id: r, error } && r
            == request_id),
        conversation::owner(w.open, request_id) != Some(other),
    ensures
        w.step(msg).0.open.contains_key(other) == w.open.contains_key(other),
        w.step(msg).0.model(other) == w.model(other),
{
    conversation::owner_is_streaming(w.open, request_id);
}

/// A switch keeps the small state of every conversation: voice settings, draft,
/// queue and reply in flight survive, and only the transcript left behind goes.
pub proof fn a_switch_keeps_the_small_state(w: WindowV, d: DetailV, id: Seq<char>)
    ensures
        ({
            let after = w.switched_to(d);
            &&& after.current == Some(d.id)
            &&& after.current_detail() == Some(d)
            &&& after.model(id).voice_in == w.model(id).voice_in
            &&& after.model(id).adele_output == w.model(id).adele_output
            &&& after.model(id).composer == w.model(id).composer
            &&& after.model(id).outbox == w.model(id).outbox
            &&& after.model(id).pending_flush == w.model(id).pending_flush
            &&& after.model(id).editing == w.model(id).editing
            &&& after.model(id).stream == w.model(id).stream
            &&& w.current != Some(id) && id != d.id ==> after.model(id) == w.model(id)
        }),
{
}

// ---------------------------------------------------------------------------
// Per-conversation settings and drafts
// ---------------------------------------------------------------------------

/// A voice setting is read back as it was set, and no other conversation's is
/// affected.
pub proof fn voice_settings_do_not_bleed(
    w: WindowV,
    id: Seq<char>,
    enabled: bool,
    level: AdeleOutput,
    other: Seq<char>,
)
    requires
        other != id,
    ensures
        ({
            let a = w.step(UiMessageV::SetVoiceIn { conversation_id: id, enabled }).0;
            let b = w.step(UiMessageV::SetAdeleOutput { conversation_id: id, level }).0;
            &&& a.model(id).voice_in == enabled
            &&& a.model(id).adele_output == w.model(id).adele_output
            &&& a.model(other) == w.model(other)
            &&& b.model(id).adele_output == level
            &&& b.model(id).voice_in == w.model(id).voice_in
            &&& b.model(other) == w.model(other)
        }),
{
}

/// A saved draft is read back, and no other conversation's is affected.
pub proof fn a_draft_is_kept(w: WindowV, id: Seq<char>, draft: Seq<char>, other: Seq<char>)
    requires
        other != id,
    ensures
        w.with_draft(id, draft).model(id).composer == draft,
        w.with_draft(id, draft).model(other) == w.model(other),
{
    assert(draft.len() == 0 ==> draft =~= Seq::empty());
}

/// A deleted conversation leaves nothing behind that a later conversation under
/// the same id could inherit.
pub proof fn a_deletion_leaves_nothing_behind(w: WindowV, id: Seq<char>, other: Seq<char>)
    requires
        other != id,
    ensures
        ({
            let after = w.step(UiMessageV::ConversationDeleted { id }).0;
            &&& after.model(id) == conversation::fresh()
            &&& !after.is_active(id)
            &&& !transition::lists(after.conversations, id)
            &&& after.model(other) == w.model(other)
        }),
{
    let kept = w.conversations.filter(|c: SummaryV| c.id != id);
    assert forall|i: int| 0 <= i < kept.len() implies (#[trigger] kept[i]).id != id by {
        w.conversations.lemma_filter_pred(|c: SummaryV| c.id != id, i);
    }
}

/// The deletion of a conversation whose turn is in flight ends the turn, and
/// reports it once, as failed.
pub proof fn a_deletion_reports_its_turn(w: WindowV, id: Seq<char>)
    requires
        conversation::is_streaming(w.open, id),
    ensures
        ({
            let (after, out) = w.step(UiMessageV::ConversationDeleted { id });
            let s = w.open[id].stream->0;
            &&& !conversation::is_streaming(after.open, id)
            &&& out.len() > 0
            &&& out.last() matches EffectV::TurnFinished {
                conversation_id,
                request_id,
                idempotency_key,
                outcome,
            } && conversation_id == id && request_id == transition::known_request_id(s)
                && idempotency_key == s.idempotency_key && outcome is Failed
            &&& forall|i: int| 0 <= i < out.len() - 1 ==> !(#[trigger] out[i] is TurnFinished)
        }),
{
}

/// A list that changed elsewhere changes the list and nothing else.
pub proof fn a_refetched_list_disturbs_nothing(w: WindowV, list: Seq<SummaryV>)
    ensures
        ({
            let (after, out) = w.step(UiMessageV::ConversationListRefetched(list));
            &&& after == WindowV { conversations: list, ..w }
            &&& out == seq![EffectV::SetConversations(list), EffectV::EnsureActiveConversation]
        }),
{
}

// ---------------------------------------------------------------------------
// Echoes and offers
// ---------------------------------------------------------------------------

/// A send under a key is recognized when it is echoed back: the echo draws
/// nothing and leaves the transcript alone, whatever its content says.
pub proof fn a_keyed_echo_is_not_drawn_twice(
    w: WindowV,
    prompt: Seq<char>,
    key: Seq<char>,
    request_id: Seq<char>,
    content: Seq<char>,
)
    requires
        w.current is Some,
        w.current_detail() is Some,
    ensures
        ({
            let sent = w.sent(prompt, Some(key)).0;
            let (after, out) = sent.step(
                UiMessageV::UserMessageAdded {
                    conversation_id: w.current->0,
                    request_id,
                    content,
                    idempotency_key: Some(key),
                },
            );
            &&& out.len() == 0
            &&& after.current_detail() == sent.current_detail()
        }),
{
    let id = w.current->0;
    let d = w.current_detail()->0;
    let sent = w.sent(prompt, Some(key)).0;
    let n = d.messages.len() as int;
    assert(sent.open[id].detail->0.messages[n].idempotency_key == Some(key));
    assert(sent.holds_key(id, Some(key)));
}

/// A send that is echoed back before it is acknowledged is not drawn a second
/// time, with a key or without one.
pub proof fn an_early_echo_is_not_drawn_twice(
    w: WindowV,
    prompt: Seq<char>,
    key: Option<Seq<char>>,
    request_id: Seq<char>,
    echoed_key: Option<Seq<char>>,
)
    requires
        w.current is Some,
        w.current_detail() is Some,
        w.current_stream() is None,
    ensures
        ({
            let sent = w.sent(prompt, key).0;
            sent.step(
                UiMessageV::UserMessageAdded {
                    conversation_id: w.current->0,
                    request_id,
                    content: prompt,
                    idempotency_key: echoed_key,
                },
            ) == (sent, Seq::<EffectV>::empty())
        }),
{
    let sent = w.sent(prompt, key).0;
    assert(sent.current_detail()->0.messages.last() == transition::local_message(
        "user"@,
        prompt,
        key,
    ));
    assert(sent.echoes_last(prompt));
}

/// Whether a message leaves the offer to retry as it was.
#[verifier::opaque]
spec fn keeps_offer(w: WindowV, msg: UiMessageV) -> bool {
    w.step(msg).0.pending_retry_prompt == w.pending_retry_prompt
}

proof fn stream_events_keep_offer(w: WindowV, msg: UiMessageV)
    requires
        msg is StreamChunk || msg is StreamComplete || msg is Disconnected || msg is SubmitPrompt
            || msg is ConversationLoaded || msg is SendFailed || msg is PromptSent
            || msg is UserMessageAdded || msg is ClientToolCall,
    ensures
        keeps_offer(w, msg),
{
    reveal(keeps_offer);
}

proof fn others_keep_offer(w: WindowV, msg: UiMessageV)
    requires
        !(msg is StreamError),
        !(msg is StreamChunk || msg is StreamComplete || msg is Disconnected || msg is SubmitPrompt
            || msg is ConversationLoaded || msg is SendFailed || msg is PromptSent
            || msg is UserMessageAdded || msg is ClientToolCall),
    ensures
        keeps_offer(w, msg),
{
    reveal(keeps_offer);
}

/// A failed prompt is offered again only when its turn fails in view with nothing
/// queued; the offer is then the last message by the user in view.
pub proof fn a_retry_is_offered_only_after_a_failure_in_view(w: WindowV, msg: UiMessageV)
    requires
        w.step(msg).0.pending_retry_prompt != w.pending_retry_prompt,
    ensures
        msg matches UiMessageV::StreamError { request_id, error } && ({
            let id = conversation::owner(w.open, request_id);
            &&& id is Some
            &&& w.current == id
            &&& transition::nothing_queued(w.open[id->0])
            &&& w.step(msg).0.pending_retry_prompt == w.last_user_prompt()
        }),
{
    match msg {
        UiMessageV::StreamError { request_id, error } => {
            conversation::owner_is_streaming(w.open, request_id);
            if conversation::owner(w.open, request_id) is Some {
                let id = conversation::owner(w.open, request_id)->0;
                flush_effects(w.without_stream(id));
                assert(w.is_active(id) ==> w.without_stream(id).current_detail()
                    == w.current_detail());
            }
        },
        UiMessageV::StreamChunk { .. }
        | UiMessageV::StreamComplete { .. }
        | UiMessageV::Disconnected { .. }
        | UiMessageV::SubmitPrompt { .. }
        | UiMessageV::ConversationLoaded(_)
        | UiMessageV::SendFailed { .. }
        | UiMessageV::PromptSent { .. }
        | UiMessageV::UserMessageAdded { .. }
        | UiMessageV::ClientToolCall { .. } => {
            stream_events_keep_offer(w, msg);
            reveal(keeps_offer);
        },
        _ => {
            others_keep_offer(w, msg);
            reveal(keeps_offer);
        },
    }
}

/// A turn that fails in view with nothing queued is offered again.
pub proof fn a_failure_in_view_is_offered_again(
    w: WindowV,
    id: Seq<char>,
    request_id: Seq<char>,
    error: Seq<char>,
)
    requires
        conversation::owner(w.open, request_id) == Some(id),
        w.is_active(id),
        transition::nothing_queued(w.open[id]),
    ensures
        w.on_stream_error(request_id, error).0.pending_retry_prompt == w.last_user_prompt(),
{
    conversation::owner_is_streaming(w.open, request_id);
    flush_effects(w.without_stream(id));
    assert(w.without_stream(id).current_detail() == w.current_detail());
}

/// A reconnect or a refresh leaves the model picker's selection alone: only a
/// switch, or a selection that no longer resolves, sets it.
pub proof fn a_refresh_keeps_the_model_selection(w: WindowV, msg: UiMessageV, i: int)
    requires
        msg is ConversationsLoaded || msg is ConversationListRefetched
            || msg is ConversationReloaded || msg is ModelsLoaded || msg is DefaultModelLoaded
            || msg is Connected,
        0 <= i < w.step(msg).1.len(),
    ensures
        !(w.step(msg).1[i] is SetModelSelection),
{
}

} // verus!
