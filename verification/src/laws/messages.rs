//! What each message does to the window, told in terms of what the window holds: the
//! conversation in view, and what is recorded for each conversation.

use serde_json::Value;
use vstd::prelude::*;

use crate::api::{ChatMessageV, DetailV, MessageKind, SelectionV, SummaryV, WarningV};
use crate::context_usage::ContextUsageView;
use crate::conversation;
use crate::conversation::{ConversationV, EditV, QueuedV, StreamV};
use crate::effect::{EffectV, OutcomeV};
use crate::json;
use crate::message::UiMessageV;
use crate::text;
use crate::transition;
use crate::transition::WindowV;
use crate::voice::AdeleOutput;

verus! {

// ---------------------------------------------------------------------------
// Words for what the window holds
// ---------------------------------------------------------------------------

/// What is recorded for a conversation: nothing at all until something is.
pub open spec fn record(w: WindowV, id: Seq<char>) -> ConversationV {
    if w.open.contains_key(id) {
        w.open[id]
    } else {
        ConversationV {
            detail: None,
            voice_in: false,
            adele_output: AdeleOutput::Disabled,
            composer: Seq::empty(),
            outbox: Seq::empty(),
            pending_flush: Seq::empty(),
            editing: None,
            stream: None,
        }
    }
}

/// The window with something else recorded for a conversation.
pub open spec fn recording(w: WindowV, id: Seq<char>, m: ConversationV) -> WindowV {
    WindowV { open: w.open.insert(id, m), ..w }
}

/// Whether a conversation has a reply in flight.
pub open spec fn replying(w: WindowV, id: Seq<char>) -> bool {
    w.open.contains_key(id) && w.open[id].stream is Some
}

/// Whether a conversation has a reply in flight under a request id.
pub open spec fn replying_to(w: WindowV, id: Seq<char>, request_id: Seq<char>) -> bool {
    replying(w, id) && w.open[id].stream->0.request_id == Some(request_id)
}

/// Whether a conversation has a reply in flight under no request id yet.
pub open spec fn replying_unclaimed(w: WindowV, id: Seq<char>) -> bool {
    replying(w, id) && w.open[id].stream->0.request_id is None
}

/// Whether what is told under a request id is told of a conversation: its reply is the
/// first under that id, or else it is the only one under none while none is under that
/// id.
pub open spec fn is_told_of(w: WindowV, request_id: Seq<char>, id: Seq<char>) -> bool {
    ||| {
        &&& replying_to(w, id, request_id)
        &&& forall|other: Seq<char>| #[trigger]
            replying_to(w, other, request_id) && other != id ==> text::precedes(id, other)
    }
    ||| {
        &&& replying_unclaimed(w, id)
        &&& forall|other: Seq<char>| !#[trigger] replying_to(w, other, request_id)
        &&& forall|other: Seq<char>| #[trigger] replying_unclaimed(w, other) ==> other == id
    }
}

/// A message that a client puts into a transcript.
pub open spec fn put_in(
    role: Seq<char>,
    content: Seq<char>,
    key: Option<Seq<char>>,
) -> ChatMessageV {
    ChatMessageV {
        id: Seq::empty(),
        role,
        content,
        kind: MessageKind::Normal,
        idempotency_key: key,
        created_at_ms: None,
    }
}

/// A transcript, where one is loaded, with a message at its end.
pub open spec fn with_last(detail: Option<DetailV>, m: ChatMessageV) -> Option<DetailV> {
    match detail {
        Some(d) => Some(DetailV { messages: d.messages.push(m), ..d }),
        None => None,
    }
}

/// The texts of a queue, in order.
pub open spec fn texts_of(queue: Seq<QueuedV>) -> Seq<Seq<char>> {
    Seq::new(queue.len(), |i: int| queue[i].text)
}

/// A queue as one prompt: its texts in order, with an empty line between them.
pub open spec fn as_one(queue: Seq<QueuedV>) -> Seq<char> {
    text::joined(texts_of(queue), "\n\n"@)
}

/// The queue of a conversation, as it is shown: its texts, and the slot of the message
/// under edit.
pub open spec fn queue_shown(m: ConversationV) -> EffectV {
    EffectV::SetQueuedMessages {
        messages: texts_of(m.outbox),
        editing: match m.editing {
            Some(e) => Some(e.index),
            None => None,
        },
    }
}

/// An empty queue, as it is shown.
pub open spec fn empty_queue_shown() -> EffectV {
    EffectV::SetQueuedMessages { messages: Seq::empty(), editing: None }
}

/// Whether the queue of a conversation waits for nothing but to be sent.
pub open spec fn is_due(m: ConversationV) -> bool {
    &&& m.outbox.len() > 0
    &&& m.stream is None
    &&& m.editing is None
    &&& m.pending_flush.len() == 0
}

/// A conversation once its queue is sent: the queue is held, and the prompt is the last
/// message of its transcript.
pub open spec fn once_sent(m: ConversationV) -> ConversationV {
    ConversationV {
        outbox: Seq::empty(),
        pending_flush: m.outbox,
        detail: with_last(
            m.detail,
            put_in("user"@, as_one(m.outbox), m.outbox[0].idempotency_key),
        ),
        ..m
    }
}

/// The send of a prompt into a conversation.
pub open spec fn send(
    id: Seq<char>,
    level: AdeleOutput,
    prompt: Seq<char>,
    key: Option<Seq<char>>,
) -> EffectV {
    EffectV::SendPrompt {
        conversation_id: id,
        prompt,
        system_refinement: level.refinement(),
        idempotency_key: key,
    }
}

/// The send of a queue into its conversation.
pub open spec fn send_of(id: Seq<char>, m: ConversationV) -> EffectV {
    send(id, m.adele_output, as_one(m.outbox), m.outbox[0].idempotency_key)
}

/// Whether a message is meant to be seen: every message where debugging is on, and
/// otherwise the user's and those of the assistant that say something.
pub open spec fn is_meant_to_be_seen(m: ChatMessageV, debug: bool) -> bool {
    ||| debug
    ||| m.role == "user"@
    ||| m.role == "assistant"@ && exists|i: int|
        0 <= i < m.content.len() && !text::is_white_space(#[trigger] m.content[i])
}

/// A conversation with the messages that are meant to be seen, in their order.
pub open spec fn as_seen(d: DetailV, debug: bool) -> DetailV {
    DetailV {
        id: d.id,
        title: d.title,
        messages: d.messages.filter(|m: ChatMessageV| is_meant_to_be_seen(m, debug)),
        model_selection: d.model_selection,
        conversation_personality: d.conversation_personality,
        tool_gate_disabled: d.tool_gate_disabled,
    }
}

// ---------------------------------------------------------------------------
// Reading the window
// ---------------------------------------------------------------------------

/// What the window is asked about a conversation is answered from what is recorded for
/// it, and what it is asked about the view from the conversation in view.
pub proof fn the_window_answers_from_its_records(w: WindowV, id: Seq<char>)
    ensures
        w.model(id) == record(w, id),
        w.is_active(id) <==> w.current == Some(id),
        w.current is None ==> {
            &&& w.current_model() is None
            &&& w.current_stream() is None
            &&& w.current_detail() is None
            &&& w.current_level() is Disabled
            &&& w.last_user_prompt() is None
            &&& w.queue_snapshot() == empty_queue_shown()
        },
        w.current == Some(id) ==> {
            &&& w.current_model() == if w.open.contains_key(id) {
                Some(w.open[id])
            } else {
                None
            }
            &&& w.current_stream() == record(w, id).stream
            &&& w.current_detail() == record(w, id).detail
            &&& w.current_level() == record(w, id).adele_output
            &&& w.queue_snapshot() == queue_shown(record(w, id))
        },
        w.any_streaming() <==> exists|other: Seq<char>| #[trigger] replying(w, other),
{
    if w.current == Some(id) {
        assert(conversation::texts(record(w, id).outbox) =~= texts_of(record(w, id).outbox));
    }
    if w.any_streaming() {
        let other = choose|other: Seq<char>| #[trigger] conversation::is_streaming(w.open, other);
        assert(replying(w, other));
    }
    if exists|other: Seq<char>| #[trigger] replying(w, other) {
        let other = choose|other: Seq<char>| #[trigger] replying(w, other);
        assert(conversation::is_streaming(w.open, other));
    }
}

/// The last message by the user is the one behind which no other is the user's.
pub proof fn the_last_prompt_is_the_users(s: Seq<ChatMessageV>, i: int)
    requires
        0 <= i < s.len(),
        forall|j: int| i < j < s.len() ==> (#[trigger] s[j]).role != "user"@,
    ensures
        s[i].role == "user"@ ==> transition::last_user_content(s) == Some(s[i].content),
        (forall|j: int| 0 <= j <= i ==> (#[trigger] s[j]).role != "user"@)
            ==> transition::last_user_content(s) is None,
    decreases s.len(),
{
    if i < s.len() - 1 {
        assert(s[s.len() - 1].role != "user"@);
        the_last_prompt_is_the_users(s.drop_last(), i);
    } else if i > 0 {
        if forall|j: int| 0 <= j <= i ==> (#[trigger] s[j]).role != "user"@ {
            the_last_prompt_is_the_users(s.drop_last(), i - 1);
        }
    } else {
        reveal_with_fuel(transition::last_user_content, 2);
    }
}

/// What is told under a request id is told of at most one conversation, and that is the
/// one to which it is routed.
pub proof fn what_is_told_is_routed(w: WindowV, request_id: Seq<char>, id: Seq<char>)
    requires
        w.wf(),
    ensures
        conversation::owner(w.open, request_id) == Some(id) <==> is_told_of(w, request_id, id),
{
    assert forall|x: Seq<char>| #[trigger] replying_to(w, x, request_id)
        <==> conversation::claims(w.open, x, request_id) by {}
    assert forall|x: Seq<char>| #[trigger] conversation::claims(w.open, x, request_id)
        <==> replying_to(w, x, request_id) by {}
    assert forall|x: Seq<char>| #[trigger] replying_unclaimed(w, x) <==> conversation::is_pending(
        w.open,
        x,
    ) by {}
    assert forall|x: Seq<char>| #[trigger] conversation::is_pending(w.open, x)
        <==> replying_unclaimed(w, x) by {}
    if exists|x: Seq<char>| #[trigger] replying_to(w, x, request_id) {
        let x = choose|x: Seq<char>| #[trigger] replying_to(w, x, request_id);
        conversation::claimant_owns(w.open, x, request_id);
        let first = conversation::owner(w.open, request_id)->0;
        assert(replying_to(w, first, request_id));
        if is_told_of(w, request_id, id) && id != first {
            text::precedes_transitive(first, id, first);
            text::precedes_irreflexive(first);
        }
    } else {
        assert forall|x: Seq<char>| !#[trigger] conversation::claims(w.open, x, request_id) by {
            assert(!replying_to(w, x, request_id));
        }
        if is_told_of(w, request_id, id) {
            assert(conversation::is_sole_pending(w.open, id));
        }
        conversation::an_unclaimed_event_is_routed_when_unambiguous(w.open, request_id, id, id);
    }
}

// ---------------------------------------------------------------------------
// Sending the queue
// ---------------------------------------------------------------------------

/// The queue in view is sent as soon as it is due, whatever becomes of other
/// conversations, and is left alone until then.
pub proof fn a_due_queue_is_sent(w: WindowV, id: Seq<char>)
    requires
        w.current == Some(id),
    ensures
        w.open.contains_key(id) && is_due(w.open[id]) ==> {
            &&& w.flushed().0 == recording(w, id, once_sent(w.open[id]))
            &&& w.flushed().1 == seq![send_of(id, w.open[id]), empty_queue_shown()]
        },
        !(w.open.contains_key(id) && is_due(w.open[id])) ==> w.flushed() == (
            w,
            Seq::<EffectV>::empty(),
        ),
{
    if w.open.contains_key(id) && is_due(w.open[id]) {
        let m = w.open[id];
        assert(conversation::texts(m.outbox) =~= texts_of(m.outbox));
        assert(conversation::texts(Seq::<QueuedV>::empty()) =~= Seq::empty());
        assert(w.flushed().0 =~~= recording(w, id, once_sent(m)));
        assert(w.flushed().1 =~~= seq![send_of(id, m), empty_queue_shown()]);
    }
}

/// With no conversation in view there is no queue to send.
pub proof fn without_a_view_nothing_is_sent(w: WindowV)
    requires
        w.current is None,
    ensures
        w.flushed() == (w, Seq::<EffectV>::empty()),
{
}

/// When a turn in view completes or fails while messages wait behind it, with none under
/// edit and none held for an acknowledgement, they are sent into that conversation as one
/// prompt, whatever replies are in flight elsewhere.
pub proof fn a_turn_that_ends_in_view_sends_its_queue(
    w: WindowV,
    id: Seq<char>,
    request_id: Seq<char>,
    told: Seq<char>,
)
    requires
        w.wf(),
        w.current == Some(id),
        is_told_of(w, request_id, id),
        w.open[id].outbox.len() > 0,
        w.open[id].editing is None,
        w.open[id].pending_flush.len() == 0,
    ensures
        ({
            let queue = w.open[id].outbox;
            let sent = EffectV::SendPrompt {
                conversation_id: id,
                prompt: as_one(queue),
                system_refinement: w.open[id].adele_output.refinement(),
                idempotency_key: queue[0].idempotency_key,
            };
            let completed = w.step(UiMessageV::StreamComplete { request_id, full_response: told });
            let failed = w.step(UiMessageV::StreamError { request_id, error: told });
            &&& completed.1.contains(sent)
            &&& failed.1.contains(sent)
            &&& completed.0.open[id].outbox.len() == 0
            &&& failed.0.open[id].outbox.len() == 0
            &&& completed.0.open[id].pending_flush == queue
            &&& failed.0.open[id].pending_flush == queue
        }),
{
    what_is_told_is_routed(w, request_id, id);
    a_turn_completes(w, id, request_id, told);
    a_turn_fails(w, id, request_id, told);
    let m = w.open[id];
    let sent = send_of(id, m);
    let completed = w.step(UiMessageV::StreamComplete { request_id, full_response: told }).1;
    let failed = w.step(UiMessageV::StreamError { request_id, error: told }).1;
    assert(completed[completed.len() - 2] == sent);
    assert(failed[failed.len() - 2] == sent);
}

/// A conversation with no reply in flight.
pub open spec fn quiet(m: ConversationV) -> ConversationV {
    ConversationV { stream: None, ..m }
}

/// The report of the end of a conversation's turn.
pub open spec fn end_of(
    id: Seq<char>,
    request_id: Seq<char>,
    m: ConversationV,
    outcome: OutcomeV,
) -> EffectV {
    EffectV::TurnFinished {
        conversation_id: id,
        request_id,
        idempotency_key: m.stream->0.idempotency_key,
        outcome,
    }
}

/// A turn completes: its reply is no longer in flight, and its end is reported. In view,
/// the reply joins the transcript and is shown, and spoken where the level narrates, the
/// turn was started here and nothing was said during it; then the queue is sent if it is
/// due.
pub proof fn a_turn_completes(
    w: WindowV,
    id: Seq<char>,
    request_id: Seq<char>,
    reply: Seq<char>,
)
    requires
        w.wf(),
        is_told_of(w, request_id, id),
    ensures
        ({
            let m = w.open[id];
            let s = m.stream->0;
            let (after, out) = w.step(
                UiMessageV::StreamComplete { request_id, full_response: reply },
            );
            let end = end_of(id, request_id, m, OutcomeV::Completed);
            if w.current != Some(id) {
                &&& after == recording(w, id, quiet(m))
                &&& out == seq![end]
            } else {
                let told = ConversationV {
                    detail: with_last(m.detail, put_in("assistant"@, reply, None)),
                    ..quiet(m)
                };
                let spoken = !s.say_this_spoken_this_turn && !s.external && m.adele_output is Always;
                let shown = (if spoken {
                    seq![EffectV::ClearChatStatus, EffectV::Speak(reply)]
                } else {
                    seq![EffectV::ClearChatStatus]
                }) + seq![EffectV::CompleteStreaming(reply), EffectV::FetchScratchpad(id), end];
                if is_due(told) {
                    &&& after == recording(w, id, once_sent(told))
                    &&& out == shown + seq![send_of(id, told), empty_queue_shown()]
                } else {
                    &&& after == recording(w, id, told)
                    &&& out == shown
                }
            }
        }),
{
    what_is_told_is_routed(w, request_id, id);
    if w.current == Some(id) {
        let m = w.open[id];
        let told = ConversationV {
            detail: with_last(m.detail, put_in("assistant"@, reply, None)),
            ..quiet(m)
        };
        let v = w.without_stream(id).with_message(
            transition::local_message("assistant"@, reply, None),
        );
        assert(v =~~= recording(w, id, told));
        a_due_queue_is_sent(v, id);
        let (after, out) = w.step(UiMessageV::StreamComplete { request_id, full_response: reply });
        if is_due(told) {
            assert(after =~~= recording(w, id, once_sent(told)));
        } else {
            assert(after =~~= recording(w, id, told));
        }
    }
}

/// A turn fails: its reply is no longer in flight, the failure is told in the status bar,
/// and the end is reported. In view, the queue is then sent if it is due, and where no
/// message was queued the last prompt is offered again.
pub proof fn a_turn_fails(w: WindowV, id: Seq<char>, request_id: Seq<char>, error: Seq<char>)
    requires
        w.wf(),
        is_told_of(w, request_id, id),
    ensures
        ({
            let m = w.open[id];
            let (after, out) = w.step(UiMessageV::StreamError { request_id, error });
            let told = seq![
                EffectV::SetStatusText("Error: "@ + error),
                end_of(id, request_id, m, OutcomeV::Failed(error)),
            ];
            if w.current != Some(id) {
                &&& after == recording(w, id, quiet(m))
                &&& out == told
            } else if is_due(quiet(m)) {
                &&& after == recording(w, id, once_sent(quiet(m)))
                &&& out == seq![EffectV::ClearChatStatus] + told + seq![
                    send_of(id, m),
                    empty_queue_shown(),
                ]
            } else {
                &&& after == WindowV {
                    pending_retry_prompt: if m.outbox.len() > 0 {
                        w.pending_retry_prompt
                    } else {
                        match m.detail {
                            Some(d) => transition::last_user_content(d.messages),
                            None => None,
                        }
                    },
                    ..recording(w, id, quiet(m))
                }
                &&& out == seq![EffectV::ClearChatStatus] + told
            }
        }),
{
    what_is_told_is_routed(w, request_id, id);
    if w.current == Some(id) {
        a_due_queue_is_sent(w.without_stream(id), id);
        let m = w.open[id];
        let (after, out) = w.step(UiMessageV::StreamError { request_id, error });
        if is_due(quiet(m)) {
            assert(after =~~= recording(w, id, once_sent(quiet(m))));
        }
    }
}

/// What is told under a request id that is told of no conversation does nothing.
pub proof fn what_is_told_of_nobody_does_nothing(
    w: WindowV,
    request_id: Seq<char>,
    told: Seq<char>,
)
    requires
        w.wf(),
        forall|id: Seq<char>| !#[trigger] is_told_of(w, request_id, id),
    ensures
        w.step(UiMessageV::StreamComplete { request_id, full_response: told }) == (
            w,
            Seq::<EffectV>::empty(),
        ),
        w.step(UiMessageV::StreamError { request_id, error: told }) == (w, Seq::<EffectV>::empty()),
        w.step(UiMessageV::StreamChunk { request_id, chunk: told }) == (w, Seq::<EffectV>::empty()),
{
    if conversation::owner(w.open, request_id) is Some {
        let id = conversation::owner(w.open, request_id)->0;
        what_is_told_is_routed(w, request_id, id);
        assert(is_told_of(w, request_id, id));
    }
}

// ---------------------------------------------------------------------------
// Loading conversations
// ---------------------------------------------------------------------------

/// What is put into the chat is what is meant to be seen, and nothing else.
pub proof fn the_chat_holds_what_is_meant_to_be_seen(d: DetailV, debug: bool)
    ensures
        transition::shown(d, debug) == as_seen(d, debug),
        transition::shown(d, true) == d,
{
    let told = |m: ChatMessageV| transition::is_shown(m, debug);
    let meant = |m: ChatMessageV| is_meant_to_be_seen(m, debug);
    assert forall|m: ChatMessageV| #[trigger] told(m) == meant(m) by {
        let said = exists|i: int|
            0 <= i < m.content.len() && !text::is_white_space(#[trigger] m.content[i]);
        if said {
            let i = choose|i: int|
                0 <= i < m.content.len() && !text::is_white_space(#[trigger] m.content[i]);
            assert(!text::is_white_space(m.content[i]));
            assert(!text::is_blank(m.content));
        } else {
            assert(text::is_blank(m.content));
        }
    }
    assert(told =~= meant);
    let every = |m: ChatMessageV| transition::is_shown(m, true);
    all_are_kept(d.messages, every);
}

proof fn all_are_kept(s: Seq<ChatMessageV>, keep: spec_fn(ChatMessageV) -> bool)
    requires
        forall|m: ChatMessageV| #[trigger] keep(m),
    ensures
        s.filter(keep) == s,
    decreases s.len(),
{
    reveal(Seq::filter);
    if s.len() > 0 {
        all_are_kept(s.drop_last(), keep);
        assert(s.drop_last().push(s.last()) =~= s);
    } else {
        assert(s.filter(keep) =~= s);
    }
}

/// With debugging off, every conversation that a load or a reload puts into the chat holds
/// the messages of the conversation, in their order, that are the user's or that are the
/// assistant's and say something; with debugging on, it holds all of them.
pub proof fn every_load_puts_in_what_is_meant_to_be_seen(w: WindowV, d: DetailV, i: int)
    ensures
        ({
            let loaded = w.step(UiMessageV::ConversationLoaded(d)).1;
            let reloaded = w.step(UiMessageV::ConversationReloaded(d)).1;
            let put = EffectV::LoadConversationIntoChat(
                DetailV {
                    messages: d.messages.filter(
                        |m: ChatMessageV| is_meant_to_be_seen(m, w.debug_enabled),
                    ),
                    ..d
                },
            );
            let all = EffectV::LoadConversationIntoChat(d);
            &&& 0 <= i < loaded.len() && loaded[i] is LoadConversationIntoChat ==> loaded[i] == put
            &&& 0 <= i < reloaded.len() && reloaded[i] is LoadConversationIntoChat ==> reloaded[i]
                == put
            &&& loaded.contains(put)
            &&& w.current == Some(d.id) ==> reloaded.contains(put)
            &&& w.debug_enabled ==> put == all
        }),
{
    the_chat_holds_what_is_meant_to_be_seen(d, w.debug_enabled);
    let v = w.switched_to(d);
    a_due_queue_is_sent(v, d.id);
    let loaded = w.step(UiMessageV::ConversationLoaded(d)).1;
    assert(loaded[1] is LoadConversationIntoChat);
    let reloaded = w.step(UiMessageV::ConversationReloaded(d)).1;
    if w.current == Some(d.id) {
        assert(reloaded[0] is LoadConversationIntoChat);
    }
}

/// What is recorded once a conversation comes into view: its transcript, whole, and of
/// the conversation that was in view before, everything but its transcript.
pub open spec fn brought_into_view(w: WindowV, d: DetailV) -> WindowV {
    let left = if w.current is Some && w.current->0 != d.id && w.open.contains_key(w.current->0) {
        w.open.insert(w.current->0, ConversationV { detail: None, ..w.open[w.current->0] })
    } else {
        w.open
    };
    WindowV {
        current: Some(d.id),
        open: left.insert(d.id, ConversationV { detail: Some(d), ..record(w, d.id) }),
        ..w
    }
}

/// A conversation is opened: it comes into view with its whole transcript.
pub proof fn a_conversation_comes_into_view(w: WindowV, d: DetailV)
    ensures
        w.switched_to(d) == brought_into_view(w, d),
        w.cached(d) == recording(w, d.id, ConversationV { detail: Some(d), ..record(w, d.id) }),
{
    assert(w.switched_to(d) =~~= brought_into_view(w, d));
}

/// A conversation is loaded: it comes into view, the chat and the panes beside it are
/// set to it, what its reply has said so far is shown, and its queue is sent if it is
/// due, and shown.
pub proof fn a_conversation_is_loaded(w: WindowV, d: DetailV)
    ensures
        ({
            let (after, out) = w.step(UiMessageV::ConversationLoaded(d));
            let v = brought_into_view(w, d);
            let m = ConversationV { detail: Some(d), ..record(w, d.id) };
            let head = seq![
                EffectV::SetModelSelection(d.model_selection),
                EffectV::LoadConversationIntoChat(as_seen(d, w.debug_enabled)),
                EffectV::SetContextUsage(None),
                EffectV::SubscribeConversations(seq![d.id]),
                EffectV::SidePaneSetScratchpad(Seq::empty()),
                EffectV::RefreshSidePaneTasks,
                EffectV::FetchScratchpad(d.id),
            ] + (if m.stream is Some && m.stream->0.buffer.len() > 0 {
                seq![EffectV::ReceiveChunk(m.stream->0.buffer)]
            } else if m.stream is None && exists|other: Seq<char>| #[trigger] replying(w, other) {
                seq![EffectV::ClearChatStatus]
            } else {
                Seq::empty()
            });
            if is_due(m) {
                &&& after == recording(v, d.id, once_sent(m))
                &&& out == head + seq![send_of(d.id, m), empty_queue_shown(), empty_queue_shown()]
            } else {
                &&& after == v
                &&& out == head + seq![queue_shown(m)]
            }
        }),
{
    the_chat_holds_what_is_meant_to_be_seen(d, w.debug_enabled);
    a_conversation_comes_into_view(w, d);
    let v = brought_into_view(w, d);
    let m = ConversationV { detail: Some(d), ..record(w, d.id) };
    assert(v.open[d.id] == m);
    a_due_queue_is_sent(v, d.id);
    the_window_answers_from_its_records(v, d.id);
    if is_due(m) {
        let after = recording(v, d.id, once_sent(m));
        the_window_answers_from_its_records(after, d.id);
        assert(texts_of(Seq::<QueuedV>::empty()) =~= Seq::empty());
    }
    let w_replies = exists|other: Seq<char>| #[trigger] replying(w, other);
    let v_replies = exists|other: Seq<char>| #[trigger] replying(v, other);
    assert(w_replies == v_replies) by {
        assert forall|other: Seq<char>| #[trigger] replying(w, other) == replying(v, other) by {}
        if w_replies {
            let other = choose|other: Seq<char>| #[trigger] replying(w, other);
            assert(replying(v, other));
        }
        if v_replies {
            let other = choose|other: Seq<char>| #[trigger] replying(v, other);
            assert(replying(w, other) == replying(v, other));
        }
    }
    let (after, out) = w.step(UiMessageV::ConversationLoaded(d));
    if is_due(m) {
        assert(out =~~= (seq![
            EffectV::SetModelSelection(d.model_selection),
            EffectV::LoadConversationIntoChat(as_seen(d, w.debug_enabled)),
            EffectV::SetContextUsage(None),
            EffectV::SubscribeConversations(seq![d.id]),
            EffectV::SidePaneSetScratchpad(Seq::empty()),
            EffectV::RefreshSidePaneTasks,
            EffectV::FetchScratchpad(d.id),
        ] + (if m.stream is Some && m.stream->0.buffer.len() > 0 {
            seq![EffectV::ReceiveChunk(m.stream->0.buffer)]
        } else if m.stream is None && w_replies {
            seq![EffectV::ClearChatStatus]
        } else {
            Seq::empty()
        })) + seq![send_of(d.id, m), empty_queue_shown(), empty_queue_shown()]);
    }
}

/// A conversation in view is loaded anew: its transcript is replaced, whole, and the chat
/// and the panes beside it are set to it. One that is not in view is left alone.
pub proof fn a_conversation_is_reloaded(w: WindowV, d: DetailV)
    ensures
        ({
            let (after, out) = w.step(UiMessageV::ConversationReloaded(d));
            if w.current == Some(d.id) {
                &&& after == recording(
                    w,
                    d.id,
                    ConversationV { detail: Some(d), ..record(w, d.id) },
                )
                &&& out == seq![
                    EffectV::LoadConversationIntoChat(as_seen(d, w.debug_enabled)),
                    EffectV::SidePaneSetScratchpad(Seq::empty()),
                    EffectV::RefreshSidePaneTasks,
                    EffectV::FetchScratchpad(d.id),
                ]
            } else {
                after == w && out.len() == 0
            }
        }),
{
    the_chat_holds_what_is_meant_to_be_seen(d, w.debug_enabled);
}

// ---------------------------------------------------------------------------
// The list of conversations
// ---------------------------------------------------------------------------

/// A list of conversations is loaded: it is shown, and where it holds the conversation in
/// view, that one is followed, and fetched anew or for the first time.
pub proof fn a_list_is_loaded(w: WindowV, list: Seq<SummaryV>)
    ensures
        ({
            let (after, out) = w.step(UiMessageV::ConversationsLoaded(list));
            let head = seq![EffectV::SetConversations(list), EffectV::EnsureActiveConversation];
            let listed = w.current is Some && exists|i: int|
                0 <= i < list.len() && (#[trigger] list[i]).id == w.current->0;
            let id = w.current->0;
            let loaded = record(w, id).detail is Some && record(w, id).detail->0.id == id;
            &&& after == WindowV { conversations: list, ..w }
            &&& out == if listed && loaded {
                head + seq![
                    EffectV::SubscribeConversations(seq![id]),
                    EffectV::ReloadConversation(id),
                ]
            } else if listed {
                head + seq![
                    EffectV::SubscribeConversations(seq![id]),
                    EffectV::LoadConversation(id),
                ]
            } else {
                head
            }
        }),
{
}

/// A list that was fetched again is shown; a list that changed is fetched again.
pub proof fn a_list_is_fetched_again(w: WindowV, list: Seq<SummaryV>, id: Seq<char>)
    ensures
        w.step(UiMessageV::ConversationListRefetched(list)) == (
            WindowV { conversations: list, ..w },
            seq![EffectV::SetConversations(list), EffectV::EnsureActiveConversation],
        ),
        w.step(UiMessageV::ConversationListChanged { conversation_id: id }) == (
            w,
            seq![EffectV::RefetchConversationList],
        ),
        w.step(UiMessageV::ConversationCreated { id }) == (
            WindowV { current: Some(id), ..w },
            Seq::<EffectV>::empty(),
        ),
{
}

/// A conversation is deleted: it is neither listed nor recorded any more. One that was in
/// view leaves the chat empty, and a turn of it that was in flight is reported as failed.
pub proof fn a_conversation_is_deleted(w: WindowV, id: Seq<char>)
    ensures
        ({
            let (after, out) = w.step(UiMessageV::ConversationDeleted { id });
            let rest = w.conversations.filter(|c: SummaryV| c.id != id);
            let in_view = w.current == Some(id);
            let first = if in_view {
                seq![
                    EffectV::SetConversations(rest),
                    EffectV::ClearChat,
                    EffectV::SidePaneSetScratchpad(Seq::empty()),
                    EffectV::RefreshSidePaneTasks,
                    EffectV::EnsureActiveConversation,
                ]
            } else {
                seq![EffectV::SetConversations(rest)]
            };
            &&& after == WindowV {
                conversations: rest,
                current: if in_view {
                    None
                } else {
                    w.current
                },
                open: w.open.remove(id),
                debug_enabled: w.debug_enabled,
                pending_retry_prompt: w.pending_retry_prompt,
            }
            &&& out == if replying(w, id) {
                let s = w.open[id].stream->0;
                first.push(
                    EffectV::TurnFinished {
                        conversation_id: id,
                        request_id: if s.request_id is Some {
                            s.request_id->0
                        } else {
                            Seq::empty()
                        },
                        idempotency_key: s.idempotency_key,
                        outcome: OutcomeV::Failed("Conversation deleted"@),
                    },
                )
            } else {
                first
            }
        }),
{
    let (after, out) = w.step(UiMessageV::ConversationDeleted { id });
    if replying(w, id) {
        assert(conversation::is_streaming(w.open, id));
    }
}

/// A conversation gets a title, in the list and there alone; all else about it, and every
/// other conversation, is listed as it was.
pub proof fn a_conversation_gets_a_title(w: WindowV, id: Seq<char>, title: Seq<char>)
    ensures
        ({
            let list = Seq::new(
                w.conversations.len(),
                |i: int|
                    SummaryV {
                        id: w.conversations[i].id,
                        title: if w.conversations[i].id == id {
                            title
                        } else {
                            w.conversations[i].title
                        },
                        message_count: w.conversations[i].message_count,
                        archived: w.conversations[i].archived,
                    },
            );
            let done = (
                WindowV { conversations: list, ..w },
                seq![EffectV::SetConversations(list)],
            );
            &&& w.step(UiMessageV::ConversationRenamed { id, title }) == done
            &&& w.step(UiMessageV::TitleChanged { conversation_id: id, title }) == done
        }),
{
    let list = Seq::new(
        w.conversations.len(),
        |i: int|
            SummaryV {
                id: w.conversations[i].id,
                title: if w.conversations[i].id == id {
                    title
                } else {
                    w.conversations[i].title
                },
                message_count: w.conversations[i].message_count,
                archived: w.conversations[i].archived,
            },
    );
    assert(transition::retitled(w.conversations, id, title) =~= list);
}

// ---------------------------------------------------------------------------
// Submitting prompts
// ---------------------------------------------------------------------------

/// Whether text holds anything but white space.
pub open spec fn says_something(t: Seq<char>) -> bool {
    exists|i: int| 0 <= i < t.len() && !text::is_white_space(#[trigger] t[i])
}

proof fn blank_says_nothing(t: Seq<char>)
    ensures
        text::is_blank(t) <==> !says_something(t),
{
    if says_something(t) {
        let i = choose|i: int| 0 <= i < t.len() && !text::is_white_space(#[trigger] t[i]);
        assert(!text::is_white_space(t[i]));
    }
}

/// A queue with a message in a slot, and what was in it and behind it moved up; at the
/// end of the queue where it has no such slot.
pub open spec fn in_slot(queue: Seq<QueuedV>, slot: nat, item: QueuedV) -> Seq<QueuedV> {
    if slot <= queue.len() {
        queue.take(slot as int) + seq![item] + queue.skip(slot as int)
    } else {
        queue.push(item)
    }
}

proof fn put_back_is_in_slot(queue: Seq<QueuedV>, slot: nat, item: QueuedV)
    ensures
        transition::put_back(queue, slot, item) == in_slot(queue, slot, item),
{
    assert(transition::put_back(queue, slot, item) =~= in_slot(queue, slot, item));
}

/// A prompt submitted with no conversation in view, or an empty one with nothing recorded
/// for the conversation in view, does nothing; another one is sent as it is where nothing
/// is recorded.
pub proof fn a_prompt_into_nothing(w: WindowV, prompt: Seq<char>, key: Option<Seq<char>>)
    requires
        w.current is None || !w.open.contains_key(w.current->0),
    ensures
        ({
            let (after, out) = w.step(UiMessageV::SubmitPrompt { prompt, idempotency_key: key });
            &&& after == w
            &&& out == if w.current is None || prompt.len() == 0 {
                Seq::empty()
            } else {
                seq![
                    EffectV::SendPrompt {
                        conversation_id: w.current->0,
                        prompt,
                        system_refinement: None,
                        idempotency_key: key,
                    },
                ]
            }
        }),
{
}

/// A prompt submitted while a queued message is under edit takes that message's place,
/// under its key, or takes it away where it says nothing. The queue is then sent if it
/// is due, and shown if not.
pub proof fn a_prompt_ends_an_edit(
    w: WindowV,
    id: Seq<char>,
    prompt: Seq<char>,
    key: Option<Seq<char>>,
)
    requires
        w.current == Some(id),
        w.open.contains_key(id),
        w.open[id].editing is Some,
    ensures
        ({
            let m = w.open[id];
            let (after, out) = w.step(UiMessageV::SubmitPrompt { prompt, idempotency_key: key });
            let ended = ConversationV {
                outbox: if says_something(prompt) {
                    in_slot(
                        m.outbox,
                        m.editing->0.index,
                        QueuedV { text: prompt, idempotency_key: m.editing->0.key },
                    )
                } else {
                    m.outbox
                },
                composer: Seq::empty(),
                editing: None,
                ..m
            };
            if is_due(ended) {
                &&& after == recording(w, id, once_sent(ended))
                &&& out == seq![
                    EffectV::SetComposerText(Seq::empty()),
                    send_of(id, ended),
                    empty_queue_shown(),
                ]
            } else {
                &&& after == recording(w, id, ended)
                &&& out == seq![EffectV::SetComposerText(Seq::empty()), queue_shown(ended)]
            }
        }),
{
    let m = w.open[id];
    let e = m.editing->0;
    let item = QueuedV { text: prompt, idempotency_key: e.key };
    blank_says_nothing(prompt);
    put_back_is_in_slot(m.outbox, e.index, item);
    let v = w.edit_ended(id, e, prompt);
    let ended = v.open[id];
    a_due_queue_is_sent(v, id);
    the_window_answers_from_its_records(v, id);
    let (after, out) = w.step(UiMessageV::SubmitPrompt { prompt, idempotency_key: key });
    if is_due(ended) {
        assert(after =~~= recording(w, id, once_sent(ended)));
    }
}

/// A prompt submitted while a reply streams in view joins the end of the queue, unless it
/// says nothing; the composer is cleared and the queue is shown.
pub proof fn a_prompt_waits_for_a_reply(
    w: WindowV,
    id: Seq<char>,
    prompt: Seq<char>,
    key: Option<Seq<char>>,
)
    requires
        w.current == Some(id),
        w.open.contains_key(id),
        w.open[id].editing is None,
        w.open[id].stream is Some,
    ensures
        ({
            let m = w.open[id];
            let (after, out) = w.step(UiMessageV::SubmitPrompt { prompt, idempotency_key: key });
            let queued = ConversationV {
                outbox: m.outbox.push(QueuedV { text: prompt, idempotency_key: key }),
                composer: Seq::empty(),
                ..m
            };
            let cleared = EffectV::SetComposerText(Seq::empty());
            if says_something(prompt) {
                &&& after == recording(w, id, queued)
                &&& out == seq![cleared, queue_shown(queued)]
            } else {
                &&& after == w
                &&& out == seq![cleared, queue_shown(m)]
            }
        }),
{
    blank_says_nothing(prompt);
    let (after, out) = w.step(UiMessageV::SubmitPrompt { prompt, idempotency_key: key });
    the_window_answers_from_its_records(after, id);
}

/// A prompt submitted while messages wait and no reply streams joins the end of the queue,
/// unless it says nothing, and the whole queue is sent; or, while an earlier one is held
/// for its acknowledgement, it is shown where a prompt joined it.
pub proof fn a_prompt_joins_a_queue(
    w: WindowV,
    id: Seq<char>,
    prompt: Seq<char>,
    key: Option<Seq<char>>,
)
    requires
        w.current == Some(id),
        w.open.contains_key(id),
        w.open[id].editing is None,
        w.open[id].stream is None,
        w.open[id].outbox.len() > 0,
    ensures
        ({
            let m = w.open[id];
            let (after, out) = w.step(UiMessageV::SubmitPrompt { prompt, idempotency_key: key });
            let queued = ConversationV {
                outbox: if says_something(prompt) {
                    m.outbox.push(QueuedV { text: prompt, idempotency_key: key })
                } else {
                    m.outbox
                },
                composer: Seq::empty(),
                ..m
            };
            if m.pending_flush.len() == 0 {
                &&& after == recording(w, id, once_sent(queued))
                &&& out == seq![send_of(id, queued), empty_queue_shown()]
            } else {
                &&& after == recording(w, id, queued)
                &&& out == if says_something(prompt) {
                    seq![EffectV::SetComposerText(Seq::empty()), queue_shown(queued)]
                } else {
                    Seq::empty()
                }
            }
        }),
{
    blank_says_nothing(prompt);
    let m = w.open[id];
    let v = w.with_model(id, WindowV::queued(m, prompt, key));
    a_due_queue_is_sent(v, id);
    the_window_answers_from_its_records(v, id);
    let queued = v.open[id];
    let (after, out) = w.step(UiMessageV::SubmitPrompt { prompt, idempotency_key: key });
    if m.pending_flush.len() == 0 {
        assert(after =~~= recording(w, id, once_sent(queued)));
    }
}

/// A prompt submitted with nothing in its way is sent at once, and is the last message of
/// the transcript; an empty one does nothing.
pub proof fn a_prompt_is_sent_at_once(
    w: WindowV,
    id: Seq<char>,
    prompt: Seq<char>,
    key: Option<Seq<char>>,
)
    requires
        w.current == Some(id),
        w.open.contains_key(id),
        w.open[id].editing is None,
        w.open[id].stream is None,
        w.open[id].outbox.len() == 0,
    ensures
        ({
            let m = w.open[id];
            let (after, out) = w.step(UiMessageV::SubmitPrompt { prompt, idempotency_key: key });
            if prompt.len() > 0 {
                &&& after == recording(
                    w,
                    id,
                    ConversationV {
                        composer: Seq::empty(),
                        detail: with_last(m.detail, put_in("user"@, prompt, key)),
                        ..m
                    },
                )
                &&& out == seq![send(id, m.adele_output, prompt, key)]
            } else {
                after == w && out.len() == 0
            }
        }),
{
    let m = w.open[id];
    let (after, out) = w.step(UiMessageV::SubmitPrompt { prompt, idempotency_key: key });
    if prompt.len() > 0 {
        assert(after =~~= recording(
            w,
            id,
            ConversationV {
                composer: Seq::empty(),
                detail: with_last(m.detail, put_in("user"@, prompt, key)),
                ..m
            },
        ));
    }
}

// ---------------------------------------------------------------------------
// Changing the queue
// ---------------------------------------------------------------------------

/// With nothing recorded for the conversation in view there is no queue to change.
pub proof fn without_a_record_there_is_no_queue(w: WindowV, index: nat)
    requires
        w.current is None || !w.open.contains_key(w.current->0),
    ensures
        w.step(UiMessageV::EditQueued { index }) == (w, Seq::<EffectV>::empty()),
        w.step(UiMessageV::RemoveQueued { index }) == (w, Seq::<EffectV>::empty()),
        w.step(UiMessageV::CancelQueuedEdit) == (w, Seq::<EffectV>::empty()),
{
}

/// The queue of a conversation with the message under edit, if there is one, back in its
/// slot as it was.
pub open spec fn whole_queue(m: ConversationV) -> Seq<QueuedV> {
    match m.editing {
        Some(e) => in_slot(
            m.outbox,
            e.index,
            QueuedV { text: e.original, idempotency_key: e.key },
        ),
        None => m.outbox,
    }
}

/// A queued message is taken up for an edit: it leaves the queue and is in the composer,
/// and one that was under edit is back in its slot as it was. A slot beyond the queue
/// only ends the edit.
pub proof fn a_queued_message_is_taken_up(w: WindowV, id: Seq<char>, index: nat)
    requires
        w.current == Some(id),
        w.open.contains_key(id),
    ensures
        ({
            let m = w.open[id];
            let all = whole_queue(m);
            let (after, out) = w.step(UiMessageV::EditQueued { index });
            let taken = if index < all.len() {
                ConversationV {
                    outbox: all.remove(index as int),
                    editing: Some(
                        EditV {
                            index,
                            original: all[index as int].text,
                            key: all[index as int].idempotency_key,
                        },
                    ),
                    composer: all[index as int].text,
                    ..m
                }
            } else {
                ConversationV { outbox: all, editing: None, ..m }
            };
            &&& after == recording(w, id, taken)
            &&& out == seq![
                EffectV::SetComposerText(
                    if index < all.len() {
                        all[index as int].text
                    } else {
                        Seq::empty()
                    },
                ),
                queue_shown(taken),
            ]
        }),
{
    let m = w.open[id];
    if m.editing is Some {
        let e = m.editing->0;
        put_back_is_in_slot(
            m.outbox,
            e.index,
            QueuedV { text: e.original, idempotency_key: e.key },
        );
    }
    assert(transition::outbox_with_edit(m) == whole_queue(m));
    let (after, out) = w.step(UiMessageV::EditQueued { index });
    the_window_answers_from_its_records(after, id);
}

/// An edit is abandoned: the message is back in its slot as it was, and the composer is
/// empty. With no message under edit nothing happens.
pub proof fn an_edit_is_abandoned(w: WindowV, id: Seq<char>)
    requires
        w.current == Some(id),
        w.open.contains_key(id),
    ensures
        ({
            let m = w.open[id];
            let (after, out) = w.step(UiMessageV::CancelQueuedEdit);
            let back = ConversationV {
                outbox: whole_queue(m),
                editing: None,
                composer: Seq::empty(),
                ..m
            };
            if m.editing is Some {
                &&& after == recording(w, id, back)
                &&& out == seq![EffectV::SetComposerText(Seq::empty()), queue_shown(back)]
            } else {
                after == w && out.len() == 0
            }
        }),
{
    let m = w.open[id];
    if m.editing is Some {
        let e = m.editing->0;
        put_back_is_in_slot(
            m.outbox,
            e.index,
            QueuedV { text: e.original, idempotency_key: e.key },
        );
        let (after, out) = w.step(UiMessageV::CancelQueuedEdit);
        the_window_answers_from_its_records(after, id);
    }
}

/// A queued message is removed: the rest of the queue stays, in order, and the slot of a
/// message under edit behind it moves down by one. A slot beyond the queue does nothing.
pub proof fn a_queued_message_is_removed(w: WindowV, id: Seq<char>, index: nat)
    requires
        w.current == Some(id),
        w.open.contains_key(id),
    ensures
        ({
            let m = w.open[id];
            let (after, out) = w.step(UiMessageV::RemoveQueued { index });
            let rest = ConversationV {
                outbox: m.outbox.take(index as int) + m.outbox.skip((index + 1) as int),
                editing: match m.editing {
                    Some(e) => Some(
                        EditV {
                            index: if index < e.index {
                                (e.index - 1) as nat
                            } else {
                                e.index
                            },
                            original: e.original,
                            key: e.key,
                        },
                    ),
                    None => None,
                },
                ..m
            };
            if index < m.outbox.len() {
                &&& after == recording(w, id, rest)
                &&& out == seq![queue_shown(rest)]
            } else {
                after == w && out.len() == 0
            }
        }),
{
    let m = w.open[id];
    if index < m.outbox.len() {
        assert(m.outbox.remove(index as int) =~= m.outbox.take(index as int) + m.outbox.skip(
            (index + 1) as int,
        ));
        let (after, out) = w.step(UiMessageV::RemoveQueued { index });
        the_window_answers_from_its_records(after, id);
    }
}

// ---------------------------------------------------------------------------
// Sends and their fate
// ---------------------------------------------------------------------------

/// A send fails: its message is taken out of the transcript in view where it is the last
/// one there, and the messages that were held for it are back at the front of their
/// queue, which is shown where it is in view.
pub proof fn a_send_fails(w: WindowV, id: Seq<char>, prompt: Seq<char>)
    ensures
        ({
            let (after, out) = w.step(UiMessageV::SendFailed { conversation_id: id, prompt });
            let d = w.open[w.current->0].detail->0;
            let shown = w.current is Some && w.open.contains_key(w.current->0)
                && w.open[w.current->0].detail is Some && d.id == id && d.messages.len() > 0
                && d.messages[d.messages.len() - 1].role == "user"@
                && d.messages[d.messages.len() - 1].content == prompt;
            let v = if shown {
                recording(
                    w,
                    w.current->0,
                    ConversationV {
                        detail: Some(
                            DetailV { messages: d.messages.take(d.messages.len() - 1), ..d },
                        ),
                        ..w.open[w.current->0]
                    },
                )
            } else {
                w
            };
            let m = record(v, id);
            let restored = ConversationV {
                outbox: m.pending_flush + m.outbox,
                pending_flush: Seq::empty(),
                ..m
            };
            if m.pending_flush.len() > 0 {
                &&& after == recording(v, id, restored)
                &&& out == if w.current == Some(id) {
                    seq![queue_shown(restored)]
                } else {
                    Seq::empty()
                }
            } else {
                after == v && out.len() == 0
            }
        }),
{
    let (after, out) = w.step(UiMessageV::SendFailed { conversation_id: id, prompt });
    the_window_answers_from_its_records(after, id);
    if w.current is Some && w.open.contains_key(w.current->0) && w.open[w.current->0].detail
        is Some {
        let d = w.open[w.current->0].detail->0;
        if d.messages.len() > 0 {
            assert(d.messages.drop_last() =~= d.messages.take(d.messages.len() - 1));
        }
    }
}

/// A send is acknowledged: what was held for it is let go, and its turn is in flight,
/// under no request id yet. A turn that was in flight before it is reported as failed.
pub proof fn a_send_is_acknowledged(
    w: WindowV,
    task_id: Seq<char>,
    id: Seq<char>,
    key: Option<Seq<char>>,
)
    ensures
        ({
            let (after, out) = w.step(
                UiMessageV::PromptSent { task_id, conversation_id: id, idempotency_key: key },
            );
            let m = record(w, id);
            &&& after == recording(
                w,
                id,
                ConversationV {
                    pending_flush: Seq::empty(),
                    stream: Some(
                        StreamV {
                            request_id: None,
                            buffer: Seq::empty(),
                            say_this_spoken_this_turn: false,
                            external: false,
                            task_id,
                            idempotency_key: key,
                        },
                    ),
                    ..m
                },
            )
            &&& out == match m.stream {
                Some(s) => seq![
                    EffectV::TurnFinished {
                        conversation_id: id,
                        request_id: if s.request_id is Some {
                            s.request_id->0
                        } else {
                            Seq::empty()
                        },
                        idempotency_key: s.idempotency_key,
                        outcome: OutcomeV::Failed("Replaced by a later send"@),
                    },
                ],
                None => Seq::empty(),
            }
        }),
{
}

/// Whether the transcript of a conversation holds a message under a key.
pub open spec fn knows_key(w: WindowV, id: Seq<char>, key: Option<Seq<char>>) -> bool {
    key is Some && record(w, id).detail is Some && exists|i: int|
        0 <= i < record(w, id).detail->0.messages.len() && (
        #[trigger] record(w, id).detail->0.messages[i]).idempotency_key == key
}

/// A message by the user is told of. It is one's own where it is known by its key, or
/// where a reply of its conversation waits to be claimed, which it then claims; then
/// nothing is shown. Otherwise, where its conversation is in view with no reply in flight
/// and does not end in the same message, it came from elsewhere: it is shown, and its
/// turn is in flight.
pub proof fn a_users_message_is_told_of(
    w: WindowV,
    id: Seq<char>,
    request_id: Seq<char>,
    content: Seq<char>,
    key: Option<Seq<char>>,
)
    ensures
        ({
            let (after, out) = w.step(
                UiMessageV::UserMessageAdded {
                    conversation_id: id,
                    request_id,
                    content,
                    idempotency_key: key,
                },
            );
            let m = record(w, id);
            let last = m.detail->0.messages[m.detail->0.messages.len() - 1];
            let echo = m.detail is Some && m.detail->0.messages.len() > 0 && last.id.len() == 0
                && last.role == "user"@ && last.content == content;
            if replying_unclaimed(w, id) {
                &&& after == recording(
                    w,
                    id,
                    ConversationV {
                        stream: Some(StreamV { request_id: Some(request_id), ..m.stream->0 }),
                        ..m
                    },
                )
                &&& out.len() == 0
            } else if !knows_key(w, id, key) && w.current == Some(id) && m.stream is None && !echo {
                &&& after == recording(
                    w,
                    id,
                    ConversationV {
                        stream: Some(
                            StreamV {
                                request_id: Some(request_id),
                                buffer: Seq::empty(),
                                say_this_spoken_this_turn: false,
                                external: true,
                                task_id: Seq::empty(),
                                idempotency_key: None,
                            },
                        ),
                        detail: with_last(m.detail, put_in("user"@, content, None)),
                        ..m
                    },
                )
                &&& out == seq![EffectV::AddUserMessage(content)]
            } else {
                after == w && out.len() == 0
            }
        }),
{
    let m = record(w, id);
    assert(w.holds_key(id, key) == knows_key(w, id, key));
    let (after, out) = w.step(
        UiMessageV::UserMessageAdded {
            conversation_id: id,
            request_id,
            content,
            idempotency_key: key,
        },
    );
    if !replying_unclaimed(w, id) && out.len() > 0 {
        assert(after =~~= recording(
            w,
            id,
            ConversationV {
                stream: Some(
                    StreamV {
                        request_id: Some(request_id),
                        buffer: Seq::empty(),
                        say_this_spoken_this_turn: false,
                        external: true,
                        task_id: Seq::empty(),
                        idempotency_key: None,
                    },
                ),
                detail: with_last(m.detail, put_in("user"@, content, None)),
                ..m
            },
        ));
    }
}

// ---------------------------------------------------------------------------
// Replies in flight
// ---------------------------------------------------------------------------

/// A piece of a reply is told: it is added to the reply, which is under its request id
/// from then on. In view the piece is shown, and the first one takes the status line away.
pub proof fn a_piece_of_a_reply_is_told(
    w: WindowV,
    id: Seq<char>,
    request_id: Seq<char>,
    chunk: Seq<char>,
)
    requires
        w.wf(),
        is_told_of(w, request_id, id),
    ensures
        ({
            let m = w.open[id];
            let s = m.stream->0;
            let (after, out) = w.step(UiMessageV::StreamChunk { request_id, chunk });
            &&& after == recording(
                w,
                id,
                ConversationV {
                    stream: Some(
                        StreamV {
                            request_id: Some(request_id),
                            buffer: s.buffer + chunk,
                            say_this_spoken_this_turn: s.say_this_spoken_this_turn,
                            external: s.external,
                            task_id: s.task_id,
                            idempotency_key: s.idempotency_key,
                        },
                    ),
                    ..m
                },
            )
            &&& out == if w.current != Some(id) {
                Seq::empty()
            } else if s.buffer.len() == 0 {
                seq![EffectV::ClearChatStatus, EffectV::ReceiveChunk(chunk)]
            } else {
                seq![EffectV::ReceiveChunk(chunk)]
            }
        }),
{
    what_is_told_is_routed(w, request_id, id);
}

/// A status line is shown exactly while the reply that it is told of is in view.
pub proof fn a_status_is_told(
    w: WindowV,
    id: Seq<char>,
    request_id: Seq<char>,
    message: Seq<char>,
)
    requires
        w.wf(),
        w.current == Some(id),
    ensures
        w.step(UiMessageV::AssistantStatus { request_id, message }) == (
            w,
            if is_told_of(w, request_id, id) {
                seq![EffectV::SetChatStatus(message)]
            } else {
                Seq::empty()
            },
        ),
{
    what_is_told_is_routed(w, request_id, id);
}

/// With no conversation in view no status line is shown.
pub proof fn without_a_view_no_status_is_shown(
    w: WindowV,
    request_id: Seq<char>,
    message: Seq<char>,
)
    requires
        w.current is None,
    ensures
        w.step(UiMessageV::AssistantStatus { request_id, message }) == (
            w,
            Seq::<EffectV>::empty(),
        ),
{
}

/// How many tokens a conversation takes is shown while it is in view, as it was told.
pub proof fn context_usage_is_told(
    w: WindowV,
    id: Seq<char>,
    used_tokens: u64,
    budget_tokens: u64,
    compaction_active: bool,
)
    ensures
        w.step(
            UiMessageV::ContextUsage {
                conversation_id: id,
                used_tokens,
                budget_tokens,
                compaction_active,
            },
        ) == (
            w,
            if w.current == Some(id) {
                seq![
                    EffectV::SetContextUsage(
                        Some(ContextUsageView { used_tokens, budget_tokens, compaction_active }),
                    ),
                ]
            } else {
                Seq::empty()
            },
        ),
{
}

/// A model selection no longer resolves: both models are named, and in view the selection
/// is taken back, on screen and in the transcript.
pub proof fn a_selection_is_lost(
    w: WindowV,
    id: Seq<char>,
    previous: SelectionV,
    fallback: SelectionV,
)
    ensures
        ({
            let (after, out) = w.step(
                UiMessageV::ConversationWarning {
                    conversation_id: id,
                    warning: WarningV::DanglingModelSelection {
                        previous_selection: previous,
                        fallback_to: fallback,
                    },
                },
            );
            let notice = EffectV::ShowToast(
                "The model \""@ + previous.model_id + "\" on connection \""@
                    + previous.connection_id + "\" is no longer available — falling back to \""@
                    + fallback.model_id + "\" on \""@ + fallback.connection_id + "\"."@,
            );
            if w.current == Some(id) {
                &&& after == if record(w, id).detail is Some {
                    recording(
                        w,
                        id,
                        ConversationV {
                            detail: Some(
                                DetailV { model_selection: None, ..record(w, id).detail->0 },
                            ),
                            ..w.open[id]
                        },
                    )
                } else {
                    w
                }
                &&& out == seq![EffectV::SetModelSelection(None), notice]
            } else {
                after == w && out == seq![notice]
            }
        }),
{
}

// ---------------------------------------------------------------------------
// The connection and the panes
// ---------------------------------------------------------------------------

/// What is told of the connection, of the models, of the tasks and of the scratchpad is
/// shown as it was told, changes no state, and of a scratchpad only while its
/// conversation is in view.
pub proof fn what_is_told_is_shown(w: WindowV, msg: UiMessageV)
    ensures
        msg matches UiMessageV::Connected { label } ==> w.step(msg) == (
            w,
            seq![EffectV::SetStatusText(label), EffectV::SetSendSensitive(true)],
        ),
        msg matches UiMessageV::StatusUpdate(t) ==> w.step(msg) == (
            w,
            seq![EffectV::SetStatusText(t)],
        ),
        msg matches UiMessageV::Error(t) ==> w.step(msg) == (
            w,
            seq![EffectV::SetStatusText("Error: "@ + t)],
        ),
        msg matches UiMessageV::ModelsLoaded(m) ==> w.step(msg) == (
            w,
            seq![EffectV::SetModels(m), EffectV::SetModelPickerVisible(m.len() > 0)],
        ),
        msg matches UiMessageV::DefaultModelLoaded(m) ==> w.step(msg) == (
            w,
            seq![EffectV::SetDefaultModel(m)],
        ),
        msg is KnowledgeChanged ==> w.step(msg) == (w, Seq::<EffectV>::empty()),
        msg matches UiMessageV::ConversationScratchpadLoaded { conversation_id, notes } ==> w.step(
            msg,
        ) == (
            w,
            if w.current == Some(conversation_id) {
                seq![EffectV::SidePaneSetScratchpad(notes)]
            } else {
                Seq::empty()
            },
        ),
        msg matches UiMessageV::ScratchpadChanged { conversation_id } ==> w.step(msg) == (
            w,
            if w.current == Some(conversation_id) {
                seq![EffectV::FetchScratchpad(conversation_id)]
            } else {
                Seq::empty()
            },
        ),
{
}

/// What is told of tasks is handed on as it was told, and all but a line of a log has the
/// tasks beside the chat drawn anew.
pub proof fn tasks_are_handed_on(w: WindowV, msg: UiMessageV)
    ensures
        msg matches UiMessageV::TasksLoaded(t) ==> w.step(msg) == (
            w,
            seq![EffectV::TasksReplaceAll(t), EffectV::RefreshSidePaneTasks],
        ),
        msg matches UiMessageV::TaskStarted(t) ==> w.step(msg) == (
            w,
            seq![EffectV::TaskStarted(t), EffectV::RefreshSidePaneTasks],
        ),
        msg matches UiMessageV::TaskProgress { id, progress_hint } ==> w.step(msg) == (
            w,
            seq![EffectV::TaskProgress { id, progress_hint }, EffectV::RefreshSidePaneTasks],
        ),
        msg matches UiMessageV::TaskLogAppended { id, entry } ==> w.step(msg) == (
            w,
            seq![EffectV::TaskLogAppended { id, entry }],
        ),
        msg matches UiMessageV::TaskCompleted { id } ==> w.step(msg) == (
            w,
            seq![EffectV::TaskCompleted { id }, EffectV::RefreshSidePaneTasks],
        ),
{
}

/// Whether reports tell of the end of every turn in flight, in ascending order of
/// conversation, each as failed for one reason.
pub open spec fn tell_of_every_end(
    w: WindowV,
    ids: Seq<Seq<char>>,
    reason: Seq<char>,
    reports: Seq<EffectV>,
) -> bool {
    &&& forall|i: int, j: int|
        0 <= i < j < ids.len() ==> text::precedes(#[trigger] ids[i], #[trigger] ids[j])
    &&& forall|id: Seq<char>| #[trigger] ids.contains(id) <==> replying(w, id)
    &&& reports == Seq::new(
        ids.len(),
        |i: int|
            EffectV::TurnFinished {
                conversation_id: ids[i],
                request_id: if w.open[ids[i]].stream->0.request_id is Some {
                    w.open[ids[i]].stream->0.request_id->0
                } else {
                    Seq::empty()
                },
                idempotency_key: w.open[ids[i]].stream->0.idempotency_key,
                outcome: OutcomeV::Failed(reason),
            },
    )
}

/// The window with no reply in flight, and all else recorded as it was.
pub open spec fn all_quiet(w: WindowV) -> WindowV {
    WindowV {
        open: Map::new(
            |id: Seq<char>| w.open.contains_key(id),
            |id: Seq<char>| ConversationV { stream: None, ..w.open[id] },
        ),
        ..w
    }
}

/// The end of every turn leaves no reply in flight and all else as it was, and each turn
/// that was in flight is reported once.
pub proof fn every_turn_is_ended(w: WindowV, reason: Seq<char>) -> (ids: Seq<Seq<char>>)
    requires
        w.wf(),
    ensures
        w.all_turns_ended(reason).0 == all_quiet(w),
        tell_of_every_end(w, ids, reason, w.all_turns_ended(reason).1),
{
    conversation::streaming_ids_listed(w.open);
    let ids = conversation::streaming_ids(w.open);
    let (after, reports) = w.all_turns_ended(reason);
    assert(after =~~= all_quiet(w));
    assert forall|id: Seq<char>| #[trigger] ids.contains(id) <==> replying(w, id) by {
        assert(ids.contains(id) <==> conversation::is_streaming(w.open, id));
    }
    assert(reports =~= Seq::new(
        ids.len(),
        |i: int|
            EffectV::TurnFinished {
                conversation_id: ids[i],
                request_id: if w.open[ids[i]].stream->0.request_id is Some {
                    w.open[ids[i]].stream->0.request_id->0
                } else {
                    Seq::empty()
                },
                idempotency_key: w.open[ids[i]].stream->0.idempotency_key,
                outcome: OutcomeV::Failed(reason),
            },
    ));
    ids
}

/// The connection is lost: nothing can be sent, the reason is told, and every turn in
/// flight is ended. What the reply in view has said so far is kept in its transcript and
/// shown, with a note that it was cut off.
pub proof fn the_connection_is_lost(w: WindowV, reason: Seq<char>) -> (ids: Seq<Seq<char>>)
    requires
        w.wf(),
    ensures
        ({
            let (after, out) = w.step(UiMessageV::Disconnected { reason });
            let why = "Disconnected: "@ + reason;
            let head = seq![
                EffectV::ClearClient,
                EffectV::SetSendSensitive(false),
                EffectV::SetStatusText(why),
            ];
            let id = w.current->0;
            let s = record(w, id).stream;
            let cut_off = s->0.buffer + "\n\n[Connection lost]"@;
            if w.current is Some && s is Some && s->0.buffer.len() > 0 {
                &&& after == recording(
                    all_quiet(w),
                    id,
                    ConversationV {
                        stream: None,
                        detail: with_last(
                            w.open[id].detail,
                            put_in("assistant"@, cut_off, None),
                        ),
                        ..w.open[id]
                    },
                )
                &&& out.len() == 4 + ids.len()
                &&& out.take(4) == head.push(EffectV::CompleteStreaming(cut_off))
                &&& tell_of_every_end(w, ids, why, out.skip(4))
            } else {
                &&& after == all_quiet(w)
                &&& out.len() == 3 + ids.len()
                &&& out.take(3) == head
                &&& tell_of_every_end(w, ids, why, out.skip(3))
            }
        }),
{
    let why = "Disconnected: "@ + reason;
    let ids = every_turn_is_ended(w, why);
    let reports = w.all_turns_ended(why).1;
    let head = seq![
        EffectV::ClearClient,
        EffectV::SetSendSensitive(false),
        EffectV::SetStatusText(why),
    ];
    let (after, out) = w.step(UiMessageV::Disconnected { reason });
    let id = w.current->0;
    let s = record(w, id).stream;
    if w.current is Some && s is Some && s->0.buffer.len() > 0 {
        let cut_off = s->0.buffer + "\n\n[Connection lost]"@;
        assert(out =~= head.push(EffectV::CompleteStreaming(cut_off)) + reports);
        assert(out.take(4) =~= head.push(EffectV::CompleteStreaming(cut_off)));
        assert(out.skip(4) =~= reports);
        assert(after =~~= recording(
            all_quiet(w),
            id,
            ConversationV {
                stream: None,
                detail: with_last(w.open[id].detail, put_in("assistant"@, cut_off, None)),
                ..w.open[id]
            },
        ));
    } else {
        assert(out =~= head + reports);
        assert(out.take(3) =~= head);
        assert(out.skip(3) =~= reports);
    }
    ids
}

// ---------------------------------------------------------------------------
// Settings of a conversation, and the calls of its tools
// ---------------------------------------------------------------------------

/// A setting of a conversation is recorded for it, and a draft too, unless it is empty
/// and nothing is recorded yet. All else stays as it was.
pub proof fn a_setting_is_recorded(
    w: WindowV,
    id: Seq<char>,
    enabled: bool,
    level: AdeleOutput,
    draft: Seq<char>,
)
    ensures
        w.step(UiMessageV::SetVoiceIn { conversation_id: id, enabled }) == (
            recording(w, id, ConversationV { voice_in: enabled, ..record(w, id) }),
            Seq::<EffectV>::empty(),
        ),
        w.step(UiMessageV::SetAdeleOutput { conversation_id: id, level }) == (
            recording(w, id, ConversationV { adele_output: level, ..record(w, id) }),
            Seq::<EffectV>::empty(),
        ),
        w.with_draft(id, draft) == if !w.open.contains_key(id) && draft.len() == 0 {
            w
        } else {
            recording(w, id, ConversationV { composer: draft, ..record(w, id) })
        },
{
}

/// The answer to a tool call.
pub open spec fn answer(
    task_id: Seq<char>,
    tool_call_id: Seq<char>,
    result: Result<Seq<char>, Seq<char>>,
) -> EffectV {
    EffectV::SubmitClientToolResult { task_id, tool_call_id, result }
}

/// Something is to be said: it is spoken, and shown as spoken, where its conversation is
/// in view at the level that speaks on demand, and the reply in flight is marked as one
/// during which something was said. Elsewhere it is shown as not spoken.
pub proof fn something_is_to_be_said(
    w: WindowV,
    task_id: Seq<char>,
    id: Seq<char>,
    tool_call_id: Seq<char>,
    said: Option<Seq<char>>,
)
    ensures
        ({
            let (after, out) = w.on_client_tool_call(
                task_id,
                id,
                tool_call_id,
                "say_this"@,
                said,
            );
            let m = record(w, id);
            if said is None {
                &&& after == w
                &&& out == seq![
                    answer(
                        task_id,
                        tool_call_id,
                        Err("say_this requires a string `text` argument"@),
                    ),
                ]
            } else if w.current == Some(id) && m.adele_output is OnDemand {
                &&& after == if m.stream is Some {
                    recording(
                        w,
                        id,
                        ConversationV {
                            stream: Some(
                                StreamV { say_this_spoken_this_turn: true, ..m.stream->0 },
                            ),
                            ..m
                        },
                    )
                } else {
                    w
                }
                &&& out == seq![
                    EffectV::Speak(said->0),
                    EffectV::AddLocalMessage { content: said->0, kind: MessageKind::Spoken },
                    answer(task_id, tool_call_id, Ok("spoken"@)),
                ]
            } else {
                &&& after == w
                &&& out == seq![
                    EffectV::AddLocalMessage {
                        content: said->0,
                        kind: MessageKind::SpeechDisabled,
                    },
                    answer(
                        task_id,
                        tool_call_id,
                        Ok("speech mode disabled; shown to the user as text instead of spoken"@),
                    ),
                ]
            }
        }),
{
}

/// The two tools on offer set the level of the conversation that calls them, and show it
/// where that is in view; a tool of any other name cannot be run.
pub proof fn a_tool_is_called(
    w: WindowV,
    task_id: Seq<char>,
    id: Seq<char>,
    tool_call_id: Seq<char>,
    tool_name: Seq<char>,
    said: Option<Seq<char>>,
)
    requires
        tool_name != "say_this"@,
    ensures
        ({
            let (after, out) = w.on_client_tool_call(task_id, id, tool_call_id, tool_name, said);
            let on = tool_name == "request_voice"@;
            let off = tool_name == "stop_voice"@;
            let level = if on {
                AdeleOutput::OnDemand
            } else {
                AdeleOutput::Disabled
            };
            let last = answer(
                task_id,
                tool_call_id,
                if on {
                    Ok(
                        "voice mode on (on-demand): your written reply is shown as text and not read aloud; speak by calling say_this, kept brief and conversational"@,
                    )
                } else if off {
                    Ok("voice mode off; back to text-only"@)
                } else {
                    Err("this client cannot run the tool \""@ + tool_name + "\""@)
                },
            );
            if on || off {
                &&& after == recording(
                    w,
                    id,
                    ConversationV { adele_output: level, ..record(w, id) },
                )
                &&& out == if w.current == Some(id) {
                    seq![EffectV::SetAdeleOutputDropdown(level), last]
                } else {
                    seq![last]
                }
            } else {
                after == w && out == seq![last]
            }
        }),
{
    reveal_strlit("say_this");
    reveal_strlit("request_voice");
    reveal_strlit("stop_voice");
    assert("request_voice"@.len() == 13);
    assert("stop_voice"@.len() == 10);
    let (after, out) = w.on_client_tool_call(task_id, id, tool_call_id, tool_name, said);
    if w.current == Some(id) && tool_name == "request_voice"@ {
        assert(out =~= seq![EffectV::SetAdeleOutputDropdown(AdeleOutput::OnDemand), out[1]]);
    }
    if w.current == Some(id) && tool_name == "stop_voice"@ {
        assert(out =~= seq![EffectV::SetAdeleOutputDropdown(AdeleOutput::Disabled), out[1]]);
    }
}

/// A tool call is a message like any other: what it asks to say is the string under
/// `text` in its arguments, where they have one.
pub proof fn a_call_says_its_text(
    w: WindowV,
    task_id: Seq<char>,
    id: Seq<char>,
    tool_call_id: Seq<char>,
    tool_name: Seq<char>,
    arguments: Value,
)
    ensures
        w.step(
            UiMessageV::ClientToolCall {
                task_id,
                conversation_id: id,
                tool_call_id,
                tool_name,
                arguments,
            },
        ) == w.on_client_tool_call(
            task_id,
            id,
            tool_call_id,
            tool_name,
            if json::text_members(arguments).contains_key("text"@) {
                Some(json::text_members(arguments)["text"@])
            } else {
                None
            },
        ),
{
}

/// The two tools on offer turn voice mode on and off, and take no arguments.
pub proof fn two_tools_are_on_offer()
    ensures
        transition::voice_tools().len() == 2,
        transition::voice_tools()[0].name == "request_voice"@,
        transition::voice_tools()[1].name == "stop_voice"@,
        transition::voice_tools()[0].description
            == "Switch this conversation into spoken voice mode (the user asked to talk by voice); replies will be read aloud and kept conversational."@,
        transition::voice_tools()[1].description == "Leave voice mode; go back to text-only."@,
        transition::voice_tools()[0].input_schema is NoArguments,
        transition::voice_tools()[1].input_schema is NoArguments,
{
}

/// A transcript in view that is changed in place is recorded for the conversation in view,
/// and nothing else changes.
pub proof fn a_transcript_is_changed_in_place(w: WindowV, id: Seq<char>, d: DetailV)
    requires
        w.current == Some(id),
    ensures
        w.with_current_detail(d) == recording(
            w,
            id,
            ConversationV { detail: Some(d), ..record(w, id) },
        ),
{
}

} // verus!
