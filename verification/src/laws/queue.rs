//! What holds of the queue of a conversation.

use vstd::multiset::Multiset;
use vstd::prelude::*;

use crate::api::DetailV;
use crate::conversation;
use crate::conversation::{ConversationV, QueuedV};
use crate::effect::EffectV;
use crate::laws;
use crate::message::UiMessageV;
use crate::text;
use crate::transition;
use crate::transition::{WindowV, QUEUE_JOIN};

verus! {


/// A prompt submitted while a reply streams in view is queued and not sent.
pub proof fn a_prompt_is_queued_while_a_reply_streams(
    w: WindowV,
    prompt: Seq<char>,
    key: Option<Seq<char>>,
    i: int,
)
    requires
        w.current_model() is Some,
        w.current_stream() is Some,
        w.current_model()->0.editing is None,
        !text::is_blank(prompt),
    ensures
        ({
            let (after, out) = w.step(
                UiMessageV::SubmitPrompt { prompt, idempotency_key: key },
            );
            &&& after.current_model()->0.outbox == w.current_model()->0.outbox.push(
                QueuedV { text: prompt, idempotency_key: key },
            )
            &&& after.current_detail() == w.current_detail()
            &&& 0 <= i < out.len() ==> !(out[i] is SendPrompt)
        }),
{
}

/// A prompt that stays in the queue, unsent, is cleared from the composer on
/// screen.
pub proof fn a_prompt_left_in_the_queue_clears_the_composer(
    w: WindowV,
    prompt: Seq<char>,
    key: Option<Seq<char>>,
)
    requires
        w.current_model() is Some,
        !text::is_blank(prompt),
        w.on_submit_prompt(prompt, key).0.current_model()->0.outbox.len() > 0,
    ensures
        w.on_submit_prompt(prompt, key).1.len() > 0,
        w.on_submit_prompt(prompt, key).1[0] == EffectV::SetComposerText(Seq::empty()),
{
    let id = w.current->0;
    let m = w.open[id];
    if m.editing is Some {
        laws::flush_effects(w.edit_ended(id, m.editing->0, prompt));
    } else {
        laws::flush_effects(w.with_model(id, WindowV::queued(m, prompt, key)));
    }
}

/// The whole queue goes out as one send, in submit order, under the key of its
/// first message, and is held until the send is acknowledged.
pub proof fn a_flush_sends_the_queue_as_one(w: WindowV)
    requires
        w.can_flush(),
    ensures
        ({
            let m = w.current_model()->0;
            let (after, out) = w.flushed();
            &&& out.len() == 2
            &&& out[0] == EffectV::SendPrompt {
                conversation_id: w.current->0,
                prompt: text::joined(conversation::texts(m.outbox), QUEUE_JOIN@),
                system_refinement: w.current_level().refinement(),
                idempotency_key: m.outbox[0].idempotency_key,
            }
            &&& out[1] == EffectV::SetQueuedMessages { messages: Seq::empty(), editing: None }
            &&& after.current_model()->0.outbox.len() == 0
            &&& after.current_model()->0.pending_flush == m.outbox
            &&& after.current_model()->0.composer == m.composer
        }),
{
    assert(conversation::texts(Seq::<QueuedV>::empty()) =~= Seq::empty());
}

/// A queue is left alone while a reply streams, while a queued message is being
/// edited, and while an earlier flush awaits its acknowledgement.
pub proof fn a_flush_waits_its_turn(w: WindowV)
    requires
        w.current_model() is Some,
        w.current_stream() is Some || w.current_model()->0.editing is Some
            || w.current_model()->0.pending_flush.len() > 0,
    ensures
        w.flushed() == (w, Seq::<EffectV>::empty()),
{
}

/// A flush whose send fails puts the queue back as it was, and takes its message
/// out of the transcript again.
pub proof fn a_failed_flush_restores_the_queue(w: WindowV)
    requires
        w.can_flush(),
    ensures
        ({
            let id = w.current->0;
            let m = w.open[id];
            let prompt = text::joined(conversation::texts(m.outbox), QUEUE_JOIN@);
            let after = w.flushed().0.step(
                UiMessageV::SendFailed { conversation_id: id, prompt },
            ).0;
            &&& after.open[id].outbox == m.outbox
            &&& after.open[id].pending_flush.len() == 0
            &&& (m.detail is Some && m.detail->0.id == id) ==> after.open[id].detail == m.detail
        }),
{
    let id = w.current->0;
    let m = w.open[id];
    let prompt = text::joined(conversation::texts(m.outbox), QUEUE_JOIN@);
    let flushed = w.flushed().0;
    let rolled = flushed.rolled_back(id, prompt);
    assert(m.outbox + Seq::<QueuedV>::empty() =~= m.outbox);
    if m.detail is Some {
        let d = m.detail->0;
        let bubble = transition::local_message("user"@, prompt, m.outbox[0].idempotency_key);
        assert(d.messages.push(bubble).drop_last() =~= d.messages);
        assert(flushed.open[id].detail == Some(DetailV { messages: d.messages.push(bubble), ..d }));
    }
}

/// An acknowledged flush leaves no copy of the queue that could be sent again.
pub proof fn an_acknowledged_flush_leaves_no_copy(
    w: WindowV,
    task_id: Seq<char>,
    key: Option<Seq<char>>,
)
    requires
        w.can_flush(),
    ensures
        ({
            let id = w.current->0;
            let after = w.flushed().0.step(
                UiMessageV::PromptSent { task_id, conversation_id: id, idempotency_key: key },
            ).0;
            &&& after.open[id].outbox.len() == 0
            &&& after.open[id].pending_flush.len() == 0
            &&& conversation::is_pending(after.open, id)
        }),
{
}

/// Pulling a queued message into the composer and abandoning the edit leaves the
/// queue as it was.
pub proof fn an_abandoned_edit_restores_the_queue(w: WindowV, index: nat)
    requires
        w.current_model() is Some,
        w.current_model()->0.editing is None,
        index < w.current_model()->0.outbox.len(),
    ensures
        ({
            let m = w.current_model()->0;
            let edited = w.step(UiMessageV::EditQueued { index }).0;
            let after = edited.step(UiMessageV::CancelQueuedEdit).0;
            &&& edited.current_model()->0.editing is Some
            &&& edited.current_model()->0.composer == m.outbox[index as int].text
            &&& after.current_model()->0.outbox == m.outbox
            &&& after.current_model()->0.editing is None
        }),
{
    let q = w.current_model()->0.outbox;
    assert(q.remove(index as int).insert(index as int, q[index as int]) =~= q);
}

/// Submitting an edit while a reply streams puts the edited text back into the
/// slot that the message came from, under the key that it had.
pub proof fn an_edit_keeps_its_slot_and_key(
    w: WindowV,
    index: nat,
    prompt: Seq<char>,
    key: Option<Seq<char>>,
)
    requires
        w.current_model() is Some,
        w.current_stream() is Some,
        w.current_model()->0.editing is None,
        index < w.current_model()->0.outbox.len(),
        !text::is_blank(prompt),
    ensures
        ({
            let m = w.current_model()->0;
            let edited = w.step(UiMessageV::EditQueued { index }).0;
            let after = edited.step(
                UiMessageV::SubmitPrompt { prompt, idempotency_key: key },
            ).0;
            after.current_model()->0.outbox == m.outbox.update(
                index as int,
                QueuedV {
                    text: prompt,
                    idempotency_key: m.outbox[index as int].idempotency_key,
                },
            )
        }),
{
    let q = w.current_model()->0.outbox;
    let item = QueuedV { text: prompt, idempotency_key: q[index as int].idempotency_key };
    assert(q.remove(index as int).insert(index as int, item) =~= q.update(index as int, item));
}

/// Whether the slot of every queued message under edit is a slot of its queue.
pub open spec fn slots_in_range(w: WindowV) -> bool {
    forall|id: Seq<char>|
        #![trigger w.open[id]]
        w.open.contains_key(id) && w.open[id].editing is Some ==> w.open[id].editing->0.index
            <= w.open[id].outbox.len()
}

#[verifier::opaque]
spec fn step_keeps_slots(w: WindowV, msg: UiMessageV) -> bool {
    slots_in_range(w.step(msg).0)
}

proof fn flush_keeps_slots(w: WindowV)
    requires
        slots_in_range(w),
    ensures
        slots_in_range(w.flushed().0),
{
}

proof fn submit_keeps_slots(w: WindowV, prompt: Seq<char>, key: Option<Seq<char>>)
    requires
        slots_in_range(w),
    ensures
        slots_in_range(w.on_submit_prompt(prompt, key).0),
{
    if w.current is Some && w.current_model() is Some {
        let id = w.current->0;
        let m = w.open[id];
        if m.editing is Some {
            let edited = w.edit_ended(id, m.editing->0, prompt);
            assert(slots_in_range(edited));
            flush_keeps_slots(edited);
        } else {
            let queued = w.with_model(id, WindowV::queued(m, prompt, key));
            assert(slots_in_range(queued));
            flush_keeps_slots(queued);
        }
    }
}

proof fn stream_events_keep_slots(w: WindowV, msg: UiMessageV)
    requires
        slots_in_range(w),
        msg is StreamChunk || msg is StreamComplete || msg is StreamError || msg is Disconnected,
    ensures
        step_keeps_slots(w, msg),
{
    reveal(step_keeps_slots);
    match msg {
        UiMessageV::StreamComplete { request_id, full_response } => {
            conversation::owner_is_streaming(w.open, request_id);
            if conversation::owner(w.open, request_id) is Some {
                let id = conversation::owner(w.open, request_id)->0;
                let mid = w.without_stream(id).with_message(
                    transition::local_message("assistant"@, full_response, None),
                );
                assert(slots_in_range(mid));
                flush_keeps_slots(mid);
            }
        },
        UiMessageV::StreamError { request_id, error } => {
            conversation::owner_is_streaming(w.open, request_id);
            if conversation::owner(w.open, request_id) is Some {
                let id = conversation::owner(w.open, request_id)->0;
                assert(slots_in_range(w.without_stream(id)));
                flush_keeps_slots(w.without_stream(id));
            }
        },
        UiMessageV::StreamChunk { request_id, chunk } => {
            conversation::owner_is_streaming(w.open, request_id);
        },
        _ => {},
    }
}

proof fn sends_keep_slots(w: WindowV, msg: UiMessageV)
    requires
        slots_in_range(w),
        msg is ConversationLoaded || msg is SubmitPrompt || msg is SendFailed || msg is PromptSent,
    ensures
        step_keeps_slots(w, msg),
{
    reveal(step_keeps_slots);
    match msg {
        UiMessageV::ConversationLoaded(d) => {
            assert(slots_in_range(w.switched_to(d)));
            flush_keeps_slots(w.switched_to(d));
        },
        UiMessageV::SubmitPrompt { prompt, idempotency_key } => {
            submit_keeps_slots(w, prompt, idempotency_key);
        },
        UiMessageV::SendFailed { conversation_id, prompt } => {
            assert(slots_in_range(w.rolled_back(conversation_id, prompt)));
        },
        _ => {},
    }
}

proof fn queue_edits_keep_slots(w: WindowV, msg: UiMessageV)
    requires
        slots_in_range(w),
        msg is EditQueued || msg is RemoveQueued || msg is CancelQueuedEdit,
    ensures
        step_keeps_slots(w, msg),
{
    reveal(step_keeps_slots);
}

proof fn calls_keep_slots(w: WindowV, msg: UiMessageV)
    requires
        slots_in_range(w),
        msg is UserMessageAdded || msg is ClientToolCall,
    ensures
        step_keeps_slots(w, msg),
{
    reveal(step_keeps_slots);
}

proof fn list_changes_keep_slots(w: WindowV, msg: UiMessageV)
    requires
        slots_in_range(w),
        msg is ConversationsLoaded || msg is ConversationListRefetched
            || msg is ConversationReloaded || msg is ConversationCreated
            || msg is ConversationDeleted || msg is ConversationRenamed || msg is TitleChanged
            || msg is ConversationListChanged || msg is ConversationWarning,
    ensures
        step_keeps_slots(w, msg),
{
    reveal(step_keeps_slots);
}

proof fn others_keep_slots(w: WindowV, msg: UiMessageV)
    requires
        slots_in_range(w),
        msg is AssistantStatus || msg is ContextUsage || msg is ModelsLoaded
            || msg is DefaultModelLoaded || msg is Connected || msg is StatusUpdate || msg is Error
            || msg is TasksLoaded || msg is TaskStarted || msg is TaskProgress
            || msg is TaskLogAppended || msg is TaskCompleted || msg is ConversationScratchpadLoaded
            || msg is ScratchpadChanged || msg is KnowledgeChanged || msg is SetVoiceIn
            || msg is SetAdeleOutput,
    ensures
        step_keeps_slots(w, msg),
{
    reveal(step_keeps_slots);
}

/// Every message keeps the slot of a message under edit within its queue, so
/// that putting it back never has to settle for another place.
pub proof fn edit_slots_stay_in_range(w: WindowV, msg: UiMessageV)
    requires
        slots_in_range(w),
    ensures
        slots_in_range(w.step(msg).0),
{
    assert(step_keeps_slots(w, msg)) by {
        match msg {
            UiMessageV::StreamChunk { .. }
            | UiMessageV::StreamComplete { .. }
            | UiMessageV::StreamError { .. }
            | UiMessageV::Disconnected { .. } => stream_events_keep_slots(w, msg),
            UiMessageV::ConversationLoaded(_)
            | UiMessageV::SubmitPrompt { .. }
            | UiMessageV::SendFailed { .. }
            | UiMessageV::PromptSent { .. } => sends_keep_slots(w, msg),
            UiMessageV::UserMessageAdded { .. } | UiMessageV::ClientToolCall { .. } =>
                calls_keep_slots(w, msg),
            UiMessageV::EditQueued { .. }
            | UiMessageV::RemoveQueued { .. }
            | UiMessageV::CancelQueuedEdit => queue_edits_keep_slots(w, msg),
            UiMessageV::ConversationsLoaded(_)
            | UiMessageV::ConversationListRefetched(_)
            | UiMessageV::ConversationReloaded(_)
            | UiMessageV::ConversationCreated { .. }
            | UiMessageV::ConversationDeleted { .. }
            | UiMessageV::ConversationRenamed { .. }
            | UiMessageV::TitleChanged { .. }
            | UiMessageV::ConversationListChanged { .. }
            | UiMessageV::ConversationWarning { .. } => list_changes_keep_slots(w, msg),
            _ => others_keep_slots(w, msg),
        }
    }
    reveal(step_keeps_slots);
}

/// The queue in view is shown as it is: whenever a submit, an edit, a removal or
/// a cancellation shows a queue, it is the queue of the state it leaves.
pub proof fn the_queue_shown_is_the_queue_kept(w: WindowV, msg: UiMessageV, i: int)
    requires
        msg is SubmitPrompt || msg is EditQueued || msg is RemoveQueued || msg is CancelQueuedEdit,
        0 <= i < w.step(msg).1.len(),
        w.step(msg).1[i] is SetQueuedMessages,
    ensures
        w.step(msg).1[i] == w.step(msg).0.queue_snapshot(),
{
    match msg {
        UiMessageV::SubmitPrompt { prompt, idempotency_key } => {
            if w.current is Some && w.current_model() is Some {
                let id = w.current->0;
                let m = w.open[id];
                if m.editing is Some {
                    let edited = w.edit_ended(id, m.editing->0, prompt);
                    laws::flush_effects(edited);
                } else {
                    laws::flush_effects(w.with_model(id, WindowV::queued(m, prompt, idempotency_key)));
                }
            }
        },
        _ => {},
    }
}

// ---------------------------------------------------------------------------
// What is queued is kept
// ---------------------------------------------------------------------------

/// The messages that a conversation holds for sending: those queued, the one
/// under edit, and those of a flush that awaits its acknowledgement.
pub open spec fn held(m: ConversationV) -> Multiset<QueuedV> {
    m.pending_flush.to_multiset().add(m.outbox.to_multiset()).add(
        match m.editing {
            Some(e) => Multiset::singleton(
                QueuedV { text: e.original, idempotency_key: e.key },
            ),
            None => Multiset::empty(),
        },
    )
}

/// Whether a message takes something that `id` holds off the queue on purpose: a
/// removal, an acknowledged send, a deletion, or an edit submitted in place of
/// what it edits.
pub open spec fn consumes(w: WindowV, msg: UiMessageV, id: Seq<char>) -> bool {
    match msg {
        UiMessageV::RemoveQueued { index } => w.is_active(id),
        UiMessageV::PromptSent { task_id, conversation_id, idempotency_key } => conversation_id
            == id,
        UiMessageV::ConversationDeleted { id: deleted } => deleted == id,
        UiMessageV::SubmitPrompt { prompt, idempotency_key } => w.is_active(id) && w.model(
            id,
        ).editing is Some,
        _ => false,
    }
}

/// Whether what `id` holds is held in another state too.
spec fn still_held(before: WindowV, after: WindowV, id: Seq<char>) -> bool {
    held(before.model(id)).subset_of(held(after.model(id)))
}

#[verifier::opaque]
spec fn step_keeps_held(w: WindowV, msg: UiMessageV, id: Seq<char>) -> bool {
    still_held(w, w.step(msg).0, id)
}

/// Whether the queues of `id` are the same in two states.
spec fn same_queues(before: WindowV, after: WindowV, id: Seq<char>) -> bool {
    &&& after.model(id).outbox == before.model(id).outbox
    &&& after.model(id).pending_flush == before.model(id).pending_flush
    &&& after.model(id).editing == before.model(id).editing
}

proof fn flush_keeps_held(w: WindowV, id: Seq<char>)
    ensures
        held(w.flushed().0.model(id)) == held(w.model(id)),
{
    if w.can_flush() && w.is_active(id) {
        let m = w.open[id];
        let after = w.flushed().0.model(id);
        assert(m.pending_flush =~= Seq::<QueuedV>::empty());
        assert(after.outbox =~= Seq::<QueuedV>::empty());
        assert(after.pending_flush == m.outbox);
        assert(held(after) =~= held(m));
    }
}

proof fn put_back_adds(queue: Seq<QueuedV>, slot: nat, item: QueuedV)
    ensures
        transition::put_back(queue, slot, item).to_multiset() == queue.to_multiset().insert(item),
{
    broadcast use vstd::seq_lib::to_multiset_insert;

}

proof fn submit_keeps_held(w: WindowV, prompt: Seq<char>, key: Option<Seq<char>>, id: Seq<char>)
    requires
        !(w.is_active(id) && w.model(id).editing is Some),
    ensures
        still_held(w, w.on_submit_prompt(prompt, key).0, id),
{
    broadcast use vstd::seq_lib::group_to_multiset_ensures;

    if w.current is Some && w.current_model() is Some {
        let cur = w.current->0;
        let m = w.open[cur];
        if m.editing is Some {
            let edited = w.edit_ended(cur, m.editing->0, prompt);
            assert(same_queues(w, edited, id));
            flush_keeps_held(edited, id);
        } else {
            let queued = w.with_model(cur, WindowV::queued(m, prompt, key));
            flush_keeps_held(queued, id);
            if cur == id {
                assert(held(m).subset_of(held(queued.model(id))));
            } else {
                assert(same_queues(w, queued, id));
            }
        }
    }
}

proof fn stream_events_keep_held(w: WindowV, msg: UiMessageV, id: Seq<char>)
    requires
        msg is StreamChunk || msg is StreamComplete || msg is StreamError || msg is Disconnected,
    ensures
        step_keeps_held(w, msg, id),
{
    reveal(step_keeps_held);
    match msg {
        UiMessageV::StreamComplete { request_id, full_response } => {
            conversation::owner_is_streaming(w.open, request_id);
            if conversation::owner(w.open, request_id) is Some {
                let mid = w.without_stream(
                    conversation::owner(w.open, request_id)->0,
                ).with_message(transition::local_message("assistant"@, full_response, None));
                assert(same_queues(w, mid, id));
                flush_keeps_held(mid, id);
            }
        },
        UiMessageV::StreamError { request_id, error } => {
            conversation::owner_is_streaming(w.open, request_id);
            if conversation::owner(w.open, request_id) is Some {
                let mid = w.without_stream(conversation::owner(w.open, request_id)->0);
                assert(same_queues(w, mid, id));
                flush_keeps_held(mid, id);
            }
        },
        UiMessageV::StreamChunk { request_id, chunk } => {
            conversation::owner_is_streaming(w.open, request_id);
            assert(same_queues(w, w.step(msg).0, id));
        },
        _ => {
            assert(same_queues(w, w.step(msg).0, id));
        },
    }
}

proof fn failure_keeps_held(w: WindowV, conversation_id: Seq<char>, prompt: Seq<char>, id: Seq<char>)
    ensures
        still_held(w, w.on_send_failed(conversation_id, prompt).0, id),
{
    let rolled = w.rolled_back(conversation_id, prompt);
    assert(same_queues(w, rolled, id));
    if conversation_id == id && rolled.open.contains_key(id)
        && rolled.open[id].pending_flush.len() > 0 {
        let m = rolled.open[id];
        let after = w.on_send_failed(conversation_id, prompt).0.model(id);
        vstd::seq_lib::lemma_multiset_commutative(m.pending_flush, m.outbox);
        assert(Seq::<QueuedV>::empty().to_multiset() =~= Multiset::empty()) by {
            broadcast use vstd::seq_lib::to_multiset_contains;

        }
        assert(after.outbox == m.pending_flush + m.outbox);
        assert(held(after) =~= held(m));
    } else {
        assert(same_queues(w, w.on_send_failed(conversation_id, prompt).0, id));
    }
}

proof fn sends_keep_held(w: WindowV, msg: UiMessageV, id: Seq<char>)
    requires
        !consumes(w, msg, id),
        msg is ConversationLoaded || msg is SubmitPrompt || msg is SendFailed || msg is PromptSent,
    ensures
        step_keeps_held(w, msg, id),
{
    reveal(step_keeps_held);
    match msg {
        UiMessageV::ConversationLoaded(d) => {
            assert(same_queues(w, w.switched_to(d), id));
            flush_keeps_held(w.switched_to(d), id);
        },
        UiMessageV::SubmitPrompt { prompt, idempotency_key } => {
            submit_keeps_held(w, prompt, idempotency_key, id);
        },
        UiMessageV::SendFailed { conversation_id, prompt } => {
            failure_keeps_held(w, conversation_id, prompt, id);
        },
        _ => {
            assert(same_queues(w, w.step(msg).0, id));
        },
    }
}

proof fn queue_edits_keep_held(w: WindowV, msg: UiMessageV, id: Seq<char>)
    requires
        !consumes(w, msg, id),
        msg is EditQueued || msg is RemoveQueued || msg is CancelQueuedEdit,
    ensures
        step_keeps_held(w, msg, id),
{
    broadcast use vstd::seq_lib::to_multiset_remove;

    reveal(step_keeps_held);
    let after = w.step(msg).0;
    if w.current_model() is Some && w.is_active(id) {
        let m = w.open[id];
        let all = transition::outbox_with_edit(m);
        if m.editing is Some {
            let e = m.editing->0;
            put_back_adds(m.outbox, e.index, QueuedV { text: e.original, idempotency_key: e.key });
        }
        assert(held(m) =~= m.pending_flush.to_multiset().add(all.to_multiset()));
        match msg {
            UiMessageV::EditQueued { index } => {
                if index < all.len() {
                    let item = all[index as int];
                    assert(item == (QueuedV {
                        text: item.text,
                        idempotency_key: item.idempotency_key,
                    }));
                    assert(all.contains(item));
                    assert(all.to_multiset().count(item) > 0) by {
                        broadcast use vstd::seq_lib::to_multiset_contains;

                    }
                    assert(held(after.model(id)) =~= held(m));
                } else {
                    assert(held(after.model(id)) =~= held(m));
                }
            },
            _ => {
                assert(held(after.model(id)) =~= held(m));
            },
        }
    } else {
        assert(same_queues(w, after, id));
    }
}

proof fn calls_keep_held(w: WindowV, msg: UiMessageV, id: Seq<char>)
    requires
        msg is UserMessageAdded || msg is ClientToolCall,
    ensures
        step_keeps_held(w, msg, id),
{
    reveal(step_keeps_held);
    assert(same_queues(w, w.step(msg).0, id));
}

proof fn list_changes_keep_held(w: WindowV, msg: UiMessageV, id: Seq<char>)
    requires
        !consumes(w, msg, id),
        msg is ConversationsLoaded || msg is ConversationListRefetched
            || msg is ConversationReloaded || msg is ConversationCreated
            || msg is ConversationDeleted || msg is ConversationRenamed || msg is TitleChanged
            || msg is ConversationListChanged || msg is ConversationWarning,
    ensures
        step_keeps_held(w, msg, id),
{
    reveal(step_keeps_held);
    assert(same_queues(w, w.step(msg).0, id));
}

proof fn others_keep_held(w: WindowV, msg: UiMessageV, id: Seq<char>)
    requires
        msg is AssistantStatus || msg is ContextUsage || msg is ModelsLoaded
            || msg is DefaultModelLoaded || msg is Connected || msg is StatusUpdate || msg is Error
            || msg is TasksLoaded || msg is TaskStarted || msg is TaskProgress
            || msg is TaskLogAppended || msg is TaskCompleted || msg is ConversationScratchpadLoaded
            || msg is ScratchpadChanged || msg is KnowledgeChanged || msg is SetVoiceIn
            || msg is SetAdeleOutput,
    ensures
        step_keeps_held(w, msg, id),
{
    reveal(step_keeps_held);
    assert(same_queues(w, w.step(msg).0, id));
}

/// No message that waits to be sent is lost: whatever happens to the window, a
/// conversation goes on holding all that it held, unless it is taken off the
/// queue on purpose.
pub proof fn a_queued_message_is_not_lost(w: WindowV, msg: UiMessageV, id: Seq<char>)
    requires
        !consumes(w, msg, id),
    ensures
        held(w.model(id)).subset_of(held(w.step(msg).0.model(id))),
{
    assert(step_keeps_held(w, msg, id)) by {
        match msg {
            UiMessageV::StreamChunk { .. }
            | UiMessageV::StreamComplete { .. }
            | UiMessageV::StreamError { .. }
            | UiMessageV::Disconnected { .. } => stream_events_keep_held(w, msg, id),
            UiMessageV::ConversationLoaded(_)
            | UiMessageV::SubmitPrompt { .. }
            | UiMessageV::SendFailed { .. }
            | UiMessageV::PromptSent { .. } => sends_keep_held(w, msg, id),
            UiMessageV::EditQueued { .. }
            | UiMessageV::RemoveQueued { .. }
            | UiMessageV::CancelQueuedEdit => queue_edits_keep_held(w, msg, id),
            UiMessageV::UserMessageAdded { .. } | UiMessageV::ClientToolCall { .. } =>
                calls_keep_held(w, msg, id),
            UiMessageV::ConversationsLoaded(_)
            | UiMessageV::ConversationListRefetched(_)
            | UiMessageV::ConversationReloaded(_)
            | UiMessageV::ConversationCreated { .. }
            | UiMessageV::ConversationDeleted { .. }
            | UiMessageV::ConversationRenamed { .. }
            | UiMessageV::TitleChanged { .. }
            | UiMessageV::ConversationListChanged { .. }
            | UiMessageV::ConversationWarning { .. } => list_changes_keep_held(w, msg, id),
            _ => others_keep_held(w, msg, id),
        }
    }
    reveal(step_keeps_held);
}

/// Whether a message, if `id` comes to hold messages of a flush by it, sends them.
#[verifier::opaque]
spec fn holds_only_by_sending(w: WindowV, msg: UiMessageV, id: Seq<char>) -> bool {
    w.model(id).pending_flush.len() == 0 && w.step(msg).0.model(id).pending_flush.len() > 0
        ==> sends_into(w.step(msg).1, id)
}

/// Whether effects hold a send into `id`.
pub open spec fn sends_into(out: Seq<EffectV>, id: Seq<char>) -> bool {
    exists|i: int|
        0 <= i < out.len() && (#[trigger] out[i] matches EffectV::SendPrompt {
            conversation_id,
            prompt,
            system_refinement,
            idempotency_key,
        } && conversation_id == id)
}

proof fn flush_holds_by_sending(w: WindowV, id: Seq<char>)
    requires
        w.model(id).pending_flush.len() == 0,
        w.flushed().0.model(id).pending_flush.len() > 0,
    ensures
        w.can_flush(),
        w.is_active(id),
        w.flushed().1.len() == 2,
        w.flushed().1[0] matches EffectV::SendPrompt {
            conversation_id,
            prompt,
            system_refinement,
            idempotency_key,
        } && conversation_id == id,
{
}

proof fn turns_hold_by_sending(w: WindowV, msg: UiMessageV, id: Seq<char>)
    requires
        msg is StreamComplete || msg is StreamError || msg is ConversationLoaded,
    ensures
        holds_only_by_sending(w, msg, id),
{
    reveal(holds_only_by_sending);
    let (after, out) = w.step(msg);
    if w.model(id).pending_flush.len() == 0 && after.model(id).pending_flush.len() > 0 {
        let mid = match msg {
            UiMessageV::StreamComplete { request_id, full_response } => {
                conversation::owner_is_streaming(w.open, request_id);
                w.without_stream(conversation::owner(w.open, request_id)->0).with_message(
                    transition::local_message("assistant"@, full_response, None),
                )
            },
            UiMessageV::StreamError { request_id, error } => {
                conversation::owner_is_streaming(w.open, request_id);
                w.without_stream(conversation::owner(w.open, request_id)->0)
            },
            UiMessageV::ConversationLoaded(d) => w.switched_to(d),
            _ => w,
        };
        assert(same_queues(w, mid, id));
        flush_holds_by_sending(mid, id);
        let back = if msg is ConversationLoaded {
            3int
        } else {
            2int
        };
        assert(out[out.len() - back] == mid.flushed().1[0]);
    }
}

proof fn submits_hold_by_sending(w: WindowV, msg: UiMessageV, id: Seq<char>)
    requires
        msg is SubmitPrompt,
    ensures
        holds_only_by_sending(w, msg, id),
{
    reveal(holds_only_by_sending);
    let (after, out) = w.step(msg);
    match msg {
        UiMessageV::SubmitPrompt { prompt, idempotency_key } => {
            if w.model(id).pending_flush.len() == 0 && after.model(id).pending_flush.len() > 0 {
                let cur = w.current->0;
                let m = w.open[cur];
                if m.editing is Some {
                    let edited = w.edit_ended(cur, m.editing->0, prompt);
                    flush_holds_by_sending(edited, id);
                    assert(out[1] == edited.flushed().1[0]);
                } else {
                    let queued = w.with_model(cur, WindowV::queued(m, prompt, idempotency_key));
                    flush_holds_by_sending(queued, id);
                    assert(out[0] == queued.flushed().1[0]);
                }
            }
        },
        _ => {},
    }
}

proof fn calls_hold_nothing(w: WindowV, msg: UiMessageV, id: Seq<char>)
    requires
        msg is StreamChunk || msg is Disconnected || msg is SendFailed || msg is PromptSent
            || msg is EditQueued || msg is RemoveQueued || msg is CancelQueuedEdit
            || msg is UserMessageAdded || msg is ClientToolCall,
    ensures
        holds_only_by_sending(w, msg, id),
{
    reveal(holds_only_by_sending);
    match msg {
        UiMessageV::StreamChunk { request_id, chunk } => {
            conversation::owner_is_streaming(w.open, request_id);
        },
        _ => {},
    }
}

proof fn others_hold_nothing(w: WindowV, msg: UiMessageV, id: Seq<char>)
    requires
        !(msg is StreamComplete || msg is StreamError || msg is ConversationLoaded
            || msg is SubmitPrompt || msg is StreamChunk || msg is Disconnected || msg is SendFailed
            || msg is PromptSent || msg is EditQueued || msg is RemoveQueued
            || msg is CancelQueuedEdit || msg is UserMessageAdded || msg is ClientToolCall),
    ensures
        holds_only_by_sending(w, msg, id),
{
    reveal(holds_only_by_sending);
}

/// Messages are held for an acknowledgement only by a flush that sends them.
pub proof fn only_a_flush_holds_messages(w: WindowV, msg: UiMessageV, id: Seq<char>)
    requires
        w.model(id).pending_flush.len() == 0,
        w.step(msg).0.model(id).pending_flush.len() > 0,
    ensures
        sends_into(w.step(msg).1, id),
{
    assert(holds_only_by_sending(w, msg, id)) by {
        match msg {
            UiMessageV::StreamComplete { .. }
            | UiMessageV::StreamError { .. }
            | UiMessageV::ConversationLoaded(_) => turns_hold_by_sending(w, msg, id),
            UiMessageV::SubmitPrompt { .. } => submits_hold_by_sending(w, msg, id),
            UiMessageV::StreamChunk { .. }
            | UiMessageV::Disconnected { .. }
            | UiMessageV::SendFailed { .. }
            | UiMessageV::PromptSent { .. }
            | UiMessageV::EditQueued { .. }
            | UiMessageV::RemoveQueued { .. }
            | UiMessageV::CancelQueuedEdit
            | UiMessageV::UserMessageAdded { .. }
            | UiMessageV::ClientToolCall { .. } => calls_hold_nothing(w, msg, id),
            _ => others_hold_nothing(w, msg, id),
        }
    }
    reveal(holds_only_by_sending);
}

/// A queued message that is removed while another one is under edit leaves the
/// edit in place: once it ends, the queue is what it was without the message.
pub proof fn a_removal_leaves_an_edit_in_place(w: WindowV, index: nat)
    requires
        w.current_model() is Some,
        index < w.current_model()->0.outbox.len(),
        w.current_model()->0.editing is Some,
        w.current_model()->0.editing->0.index <= w.current_model()->0.outbox.len(),
    ensures
        ({
            let m = w.current_model()->0;
            let after = w.step(UiMessageV::RemoveQueued { index }).0.current_model()->0;
            transition::outbox_with_edit(after) == transition::outbox_with_edit(m).remove(
                if index < m.editing->0.index {
                    index as int
                } else {
                    (index + 1) as int
                },
            )
        }),
{
    let m = w.current_model()->0;
    let after = w.step(UiMessageV::RemoveQueued { index }).0.current_model()->0;
    let at = if index < m.editing->0.index {
        index as int
    } else {
        (index + 1) as int
    };
    assert(transition::outbox_with_edit(after) =~= transition::outbox_with_edit(m).remove(at));
}

// ---------------------------------------------------------------------------
// What is queued is shown
// ---------------------------------------------------------------------------

#[verifier::opaque]
spec fn step_shows_queue(w: WindowV, msg: UiMessageV) -> bool {
    w.step(msg).0.current == w.current && w.step(msg).0.queue_snapshot() != w.queue_snapshot()
        ==> w.step(msg).1.contains(w.step(msg).0.queue_snapshot())
}

proof fn flush_shows_queue(w: WindowV)
    ensures
        w.flushed().0.current == w.current,
        w.can_flush() ==> w.flushed().1.len() == 2 && w.flushed().1[1]
            == w.flushed().0.queue_snapshot(),
        !w.can_flush() ==> w.flushed() == (w, Seq::<EffectV>::empty()),
{
}

proof fn stream_events_show_queue(w: WindowV, msg: UiMessageV)
    requires
        msg is StreamChunk || msg is StreamComplete || msg is StreamError || msg is Disconnected,
    ensures
        step_shows_queue(w, msg),
{
    reveal(step_shows_queue);
    let (after, out) = w.step(msg);
    match msg {
        UiMessageV::StreamComplete { request_id, full_response } => {
            conversation::owner_is_streaming(w.open, request_id);
            if conversation::owner(w.open, request_id) is Some {
                let mid = w.without_stream(
                    conversation::owner(w.open, request_id)->0,
                ).with_message(transition::local_message("assistant"@, full_response, None));
                assert(mid.queue_snapshot() == w.queue_snapshot());
                flush_shows_queue(mid);
                if mid.can_flush() && out.len() > 1 {
                    assert(out[out.len() - 1] == after.queue_snapshot());
                }
            }
        },
        UiMessageV::StreamError { request_id, error } => {
            conversation::owner_is_streaming(w.open, request_id);
            if conversation::owner(w.open, request_id) is Some {
                let mid = w.without_stream(conversation::owner(w.open, request_id)->0);
                assert(mid.queue_snapshot() == w.queue_snapshot());
                flush_shows_queue(mid);
                if mid.can_flush() && out.len() > 2 {
                    assert(out[out.len() - 1] == mid.flushed().0.queue_snapshot());
                }
            }
        },
        UiMessageV::StreamChunk { request_id, chunk } => {
            conversation::owner_is_streaming(w.open, request_id);
        },
        _ => {},
    }
}

proof fn submit_shows_queue(w: WindowV, msg: UiMessageV)
    requires
        msg is SubmitPrompt,
    ensures
        step_shows_queue(w, msg),
{
    reveal(step_shows_queue);
    let (after, out) = w.step(msg);
    match msg {
        UiMessageV::SubmitPrompt { prompt, idempotency_key } => {
            if w.current_model() is Some {
                let id = w.current->0;
                let m = w.open[id];
                if m.editing is Some {
                    let edited = w.edit_ended(id, m.editing->0, prompt);
                    flush_shows_queue(edited);
                    assert(out[out.len() - 1] == after.queue_snapshot());
                } else if m.stream is Some {
                    assert(out[1] == after.queue_snapshot());
                } else if m.outbox.len() > 0 {
                    flush_shows_queue(w.with_model(id, WindowV::queued(m, prompt, idempotency_key)));
                    if out.len() > 0 {
                        assert(out[1] == after.queue_snapshot());
                    } else {
                        assert(after.queue_snapshot() == w.queue_snapshot());
                    }
                }
            }
        },
        _ => {},
    }
}

proof fn sends_show_queue(w: WindowV, msg: UiMessageV)
    requires
        msg is ConversationLoaded || msg is SendFailed || msg is PromptSent,
    ensures
        step_shows_queue(w, msg),
{
    reveal(step_shows_queue);
    let (after, out) = w.step(msg);
    match msg {
        UiMessageV::ConversationLoaded(d) => {
            assert(out[out.len() - 1] == after.queue_snapshot());
        },
        UiMessageV::SendFailed { conversation_id, prompt } => {
            let rolled = w.rolled_back(conversation_id, prompt);
            assert(rolled.queue_snapshot() == w.queue_snapshot());
            if out.len() > 0 {
                assert(out[0] == after.queue_snapshot());
            }
        },
        _ => {
            assert(conversation::texts(Seq::<QueuedV>::empty()) =~= Seq::empty());
        },
    }
}

proof fn queue_edits_show_queue(w: WindowV, msg: UiMessageV)
    requires
        msg is EditQueued || msg is RemoveQueued || msg is CancelQueuedEdit,
    ensures
        step_shows_queue(w, msg),
{
    reveal(step_shows_queue);
    let (after, out) = w.step(msg);
    if out.len() > 0 {
        assert(out[out.len() - 1] == after.queue_snapshot());
    }
}

proof fn calls_show_queue(w: WindowV, msg: UiMessageV)
    requires
        msg is UserMessageAdded || msg is ClientToolCall || msg is SetVoiceIn
            || msg is SetAdeleOutput,
    ensures
        step_shows_queue(w, msg),
{
    reveal(step_shows_queue);
    assert(conversation::texts(Seq::<QueuedV>::empty()) =~= Seq::empty());
    assert(w.step(msg).0.queue_snapshot() == w.queue_snapshot());
}

proof fn list_changes_show_queue(w: WindowV, msg: UiMessageV)
    requires
        msg is ConversationsLoaded || msg is ConversationListRefetched
            || msg is ConversationReloaded || msg is ConversationCreated
            || msg is ConversationDeleted || msg is ConversationRenamed || msg is TitleChanged
            || msg is ConversationListChanged || msg is ConversationWarning,
    ensures
        step_shows_queue(w, msg),
{
    reveal(step_shows_queue);
    assert(conversation::texts(Seq::<QueuedV>::empty()) =~= Seq::empty());
}

proof fn others_show_queue(w: WindowV, msg: UiMessageV)
    requires
        msg is AssistantStatus || msg is ContextUsage || msg is ModelsLoaded
            || msg is DefaultModelLoaded || msg is Connected || msg is StatusUpdate || msg is Error
            || msg is TasksLoaded || msg is TaskStarted || msg is TaskProgress
            || msg is TaskLogAppended || msg is TaskCompleted || msg is ConversationScratchpadLoaded
            || msg is ScratchpadChanged || msg is KnowledgeChanged,
    ensures
        step_shows_queue(w, msg),
{
    reveal(step_shows_queue);
}

/// A change of the queue in view, or of the edit in it, is shown: while the same
/// conversation stays in view, every message that changes what is to be shown of
/// its queue gives out the queue that it leaves.
pub proof fn a_changed_queue_is_shown(w: WindowV, msg: UiMessageV)
    requires
        w.step(msg).0.current == w.current,
        w.step(msg).0.queue_snapshot() != w.queue_snapshot(),
    ensures
        w.step(msg).1.contains(w.step(msg).0.queue_snapshot()),
{
    assert(step_shows_queue(w, msg)) by {
        match msg {
            UiMessageV::StreamChunk { .. }
            | UiMessageV::StreamComplete { .. }
            | UiMessageV::StreamError { .. }
            | UiMessageV::Disconnected { .. } => stream_events_show_queue(w, msg),
            UiMessageV::SubmitPrompt { .. } => submit_shows_queue(w, msg),
            UiMessageV::ConversationLoaded(_)
            | UiMessageV::SendFailed { .. }
            | UiMessageV::PromptSent { .. } => sends_show_queue(w, msg),
            UiMessageV::EditQueued { .. }
            | UiMessageV::RemoveQueued { .. }
            | UiMessageV::CancelQueuedEdit => queue_edits_show_queue(w, msg),
            UiMessageV::UserMessageAdded { .. }
            | UiMessageV::ClientToolCall { .. }
            | UiMessageV::SetVoiceIn { .. }
            | UiMessageV::SetAdeleOutput { .. } => calls_show_queue(w, msg),
            UiMessageV::ConversationsLoaded(_)
            | UiMessageV::ConversationListRefetched(_)
            | UiMessageV::ConversationReloaded(_)
            | UiMessageV::ConversationCreated { .. }
            | UiMessageV::ConversationDeleted { .. }
            | UiMessageV::ConversationRenamed { .. }
            | UiMessageV::TitleChanged { .. }
            | UiMessageV::ConversationListChanged { .. }
            | UiMessageV::ConversationWarning { .. } => list_changes_show_queue(w, msg),
            _ => others_show_queue(w, msg),
        }
    }
    reveal(step_shows_queue);
}

} // verus!
