//! The window's state and the reducer over it.
//!
//! [`WindowState::apply`] decides: it changes the state and returns the effects
//! to perform, and performs none itself. What it does is the function
//! [`WindowV::step`](crate::transition::WindowV::step).

use serde_json::Value;
use vstd::prelude::*;

use crate::api;
use crate::api::{
    ChatMessage, ChatMessageV, ClientToolRegistration, ConversationDetail,
    ConversationModelSelectionView, ConversationSummary, ConversationWarning, DetailV,
    InputSchema, MessageKind, SummaryV,
};
use crate::context_usage::ContextUsageView;
use crate::conversation;
use crate::conversation::{
    ConversationModel, ConversationV, OpenConversations, QueuedEdit, QueuedMessage, QueuedV,
    StreamState,
};
use crate::effect;
use crate::effect::{Effect, EffectV, TurnOutcome};
use crate::json;
use crate::message::UiMessage;
use crate::text;
use crate::transition;
use crate::transition::{WindowV, QUEUE_JOIN};
use crate::voice::{AdeleOutput, SendRefinement};

verus! {

/// The window's state.
pub struct WindowState {
    /// The conversation list.
    pub conversations: Vec<ConversationSummary>,
    /// The conversation in view.
    pub current_conversation_id: Option<String>,
    /// The models of the conversations touched so far. The transcript is kept
    /// for the conversation in view only; the rest of a model survives a switch.
    pub open: OpenConversations,
    /// Whether the chat shows every message.
    pub debug_enabled: bool,
    /// A one-shot offer to send a failed prompt again.
    pub pending_retry_prompt: Option<String>,
}

impl View for WindowState {
    type V = WindowV;

    open spec fn view(&self) -> WindowV {
        WindowV {
            conversations: api::summaries(self.conversations@),
            current: text::opt_view(self.current_conversation_id),
            open: self.open@,
            debug_enabled: self.debug_enabled,
            pending_retry_prompt: text::opt_view(self.pending_retry_prompt),
        }
    }
}

impl Default for WindowState {
    fn default() -> (r: Self)
        ensures
            r@ == (WindowV {
                conversations: Seq::empty(),
                current: None,
                open: Map::empty(),
                debug_enabled: false,
                pending_retry_prompt: None,
            }),
            r@.wf(),
    {
        let r = WindowState {
            conversations: Vec::new(),
            current_conversation_id: None,
            open: OpenConversations::new(),
            debug_enabled: false,
            pending_retry_prompt: None,
        };
        assert(r@.conversations =~= Seq::<SummaryV>::empty());
        r
    }
}

/// A transcript message that the daemon has not keyed.
fn local_message(role: &str, content: String, key: Option<String>) -> (r: ChatMessage)
    ensures
        r@ == transition::local_message(role@, content@, text::opt_view(key)),
{
    ChatMessage {
        id: String::new(),
        role: role.to_owned(),
        content,
        kind: MessageKind::Normal,
        idempotency_key: key,
        created_at_ms: None,
    }
}

// ---------------------------------------------------------------------------
// Reading the state
// ---------------------------------------------------------------------------

impl WindowState {
    /// Whether voice input is enabled for `conversation`; not when it was never
    /// set.
    pub fn voice_in_for(&self, conversation: &str) -> (r: bool)
        ensures
            r == self@.model(conversation@).voice_in,
    {
        match self.open.get(conversation) {
            Some(m) => m.voice_in,
            None => false,
        }
    }

    /// Whether voice input is enabled in view.
    pub fn voice_in_for_current(&self) -> (r: bool)
        ensures
            r == (self@.current is Some && self@.model(self@.current->0).voice_in),
    {
        match &self.current_conversation_id {
            Some(id) => self.voice_in_for(id.as_str()),
            None => false,
        }
    }

    /// The level of spoken output of `conversation`; disabled when it was never
    /// set.
    pub fn adele_output_for(&self, conversation: &str) -> (r: AdeleOutput)
        ensures
            r == self@.model(conversation@).adele_output,
    {
        match self.open.get(conversation) {
            Some(m) => m.adele_output,
            None => AdeleOutput::Disabled,
        }
    }

    /// The level of spoken output in view.
    pub fn adele_output_for_current(&self) -> (r: AdeleOutput)
        ensures
            r == self@.current_level(),
    {
        match &self.current_conversation_id {
            Some(id) => self.adele_output_for(id.as_str()),
            None => AdeleOutput::Disabled,
        }
    }

    /// Whether replies of `conversation` are narrated in full.
    pub fn narrate_for(&self, conversation: &str) -> (r: bool)
        ensures
            r == self@.model(conversation@).adele_output.narrates(),
    {
        self.adele_output_for(conversation).narrates_reply()
    }

    /// Whether replies in view are narrated in full.
    pub fn narrate_for_current(&self) -> (r: bool)
        ensures
            r == self@.current_level().narrates(),
    {
        self.adele_output_for_current().narrates_reply()
    }

    /// Whether an aside in `conversation` is spoken.
    pub fn say_this_spoken_for(&self, conversation: &str) -> (r: bool)
        ensures
            r == self@.model(conversation@).adele_output.speaks(),
    {
        self.adele_output_for(conversation).speaks_aside()
    }

    /// Whether an aside in view is spoken.
    pub fn say_this_spoken_for_current(&self) -> (r: bool)
        ensures
            r == self@.current_level().speaks(),
    {
        self.adele_output_for_current().speaks_aside()
    }

    /// Whether `conversation` is the one in view.
    pub fn is_active_conversation(&self, conversation: &str) -> (r: bool)
        ensures
            r == self@.is_active(conversation@),
    {
        text::is_some_text(&self.current_conversation_id, conversation)
    }

    /// The model of the conversation in view, if there is one.
    fn current_model(&self) -> (r: Option<&ConversationModel>)
        ensures
            match r {
                Some(m) => self@.current_model() == Some(m@),
                None => self@.current_model() is None,
            },
    {
        match &self.current_conversation_id {
            Some(id) => self.open.get(id.as_str()),
            None => None,
        }
    }

    /// The reply streaming into the conversation in view, if any.
    pub fn current_stream(&self) -> (r: Option<&StreamState>)
        ensures
            match r {
                Some(s) => self@.current_stream() == Some(s@),
                None => self@.current_stream() is None,
            },
    {
        match self.current_model() {
            Some(m) => m.stream.as_ref(),
            None => None,
        }
    }

    /// The conversation that a stream event carrying `request_id` belongs to.
    pub fn route_stream(&self, request_id: &str) -> (r: Option<String>)
        ensures
            text::opt_view(r) == conversation::owner(self@.open, request_id@),
    {
        self.open.owner_of(request_id)
    }

    /// The reply in view so far; empty when there is none.
    pub fn streaming_buffer(&self) -> (r: &str)
        ensures
            r@ == (match self@.current_stream() {
                Some(s) => s.buffer,
                None => Seq::empty(),
            }),
    {
        match self.current_stream() {
            Some(s) => s.buffer.as_str(),
            None => {
                proof {
                    reveal_strlit("");
                    assert(""@ =~= Seq::<char>::empty());
                }
                ""
            },
        }
    }

    /// Whether any conversation has a reply in flight.
    pub fn is_streaming(&self) -> (r: bool)
        ensures
            r == self@.any_streaming(),
    {
        self.open.any_streaming()
    }

    /// Whether the conversation in view has a reply in flight.
    pub fn streaming_is_active_for_view(&self) -> (r: bool)
        ensures
            r == (self@.current_stream() is Some),
    {
        self.current_stream().is_some()
    }

    /// The task id of the turn in view, for a cancel; `None` when there is no
    /// turn or its task id is unknown.
    pub fn active_task_id_for_view(&self) -> (r: Option<String>)
        ensures
            text::opt_view(r) == (match self@.current_stream() {
                Some(s) => if s.task_id.len() > 0 {
                    Some(s.task_id)
                } else {
                    None
                },
                None => None,
            }),
    {
        match self.current_stream() {
            Some(s) => if s.task_id.as_str().is_empty() {
                None
            } else {
                Some(s.task_id.clone())
            },
            None => None,
        }
    }

    /// The transcript in view, if it is loaded.
    pub fn current_conversation(&self) -> (r: Option<&ConversationDetail>)
        ensures
            match r {
                Some(d) => self@.current_detail() == Some(d@),
                None => self@.current_detail() is None,
            },
    {
        match self.current_model() {
            Some(m) => m.detail.as_ref(),
            None => None,
        }
    }

    /// The last message by the user in view, if there is one.
    fn last_user_prompt_in_view(&self) -> (r: Option<String>)
        ensures
            text::opt_view(r) == self@.last_user_prompt(),
    {
        match self.current_conversation() {
            Some(d) => last_user_content(&d.messages),
            None => None,
        }
    }

    /// The saved draft of a conversation; empty when there is none.
    pub fn composer_draft(&self, conversation_id: &str) -> (r: &str)
        ensures
            r@ == self@.model(conversation_id@).composer,
    {
        match self.open.get(conversation_id) {
            Some(m) => m.composer.as_str(),
            None => {
                proof {
                    reveal_strlit("");
                    assert(""@ =~= Seq::<char>::empty());
                }
                ""
            },
        }
    }

    /// The messages awaiting flush in a conversation, in submit order.
    pub fn queued_messages(&self, conversation_id: &str) -> (r: Vec<String>)
        ensures
            text::views(r@) == conversation::texts(self@.model(conversation_id@).outbox),
    {
        match self.open.get(conversation_id) {
            Some(m) => m.queued_texts(),
            None => Vec::new(),
        }
    }

    /// The messages awaiting flush in view, in submit order.
    pub fn queued_messages_for_view(&self) -> (r: Vec<String>)
        ensures
            text::views(r@) == (match self@.current {
                Some(id) => conversation::texts(self@.model(id).outbox),
                None => Seq::empty(),
            }),
    {
        match &self.current_conversation_id {
            Some(id) => self.queued_messages(id.as_str()),
            None => Vec::new(),
        }
    }

    /// The slot of the queued message being edited in view, if one is.
    pub fn editing_queued_index(&self) -> (r: Option<usize>)
        ensures
            effect::opt_slot(r) == (match self@.current_model() {
                Some(m) => match m.editing {
                    Some(e) => Some(e.index),
                    None => None,
                },
                None => None,
            }),
    {
        match self.current_model() {
            Some(m) => match &m.editing {
                Some(e) => Some(e.index),
                None => None,
            },
            None => None,
        }
    }

    /// The queue in view, as the client shows it.
    fn queued_snapshot_effect(&self) -> (r: Effect)
        ensures
            r@ == self@.queue_snapshot(),
    {
        match self.current_model() {
            Some(m) => Effect::SetQueuedMessages {
                messages: m.queued_texts(),
                editing: match &m.editing {
                    Some(e) => Some(e.index),
                    None => None,
                },
            },
            None => {
                let messages: Vec<String> = Vec::new();
                assert(text::views(messages@) =~= Seq::empty());
                Effect::SetQueuedMessages { messages, editing: None }
            },
        }
    }

    /// Whether the conversation list holds `id`.
    fn lists(&self, id: &str) -> (r: bool)
        ensures
            r == transition::lists(self@.conversations, id@),
    {
        let mut i: usize = 0;
        while i < self.conversations.len()
            invariant
                i <= self.conversations@.len(),
                forall|j: int| 0 <= j < i ==> (#[trigger] self@.conversations[j]).id != id@,
            decreases self.conversations@.len() - i,
        {
            assert(self@.conversations[i as int] == self.conversations@[i as int]@);
            if text::same(self.conversations[i].id.as_str(), id) {
                return true;
            }
            i += 1;
        }
        false
    }

    /// Whether the queue in view can be sent now.
    fn can_flush(&self) -> (r: bool)
        ensures
            r == self@.can_flush(),
    {
        match self.current_model() {
            Some(m) => m.stream.is_none() && m.pending_flush.len() == 0 && m.editing.is_none()
                && m.outbox.len() > 0,
            None => false,
        }
    }
}

/// The content of the last message by the user, if there is one.
fn last_user_content(messages: &Vec<ChatMessage>) -> (r: Option<String>)
    ensures
        text::opt_view(r) == transition::last_user_content(api::messages(messages@)),
{
    let mut i: usize = messages.len();
    let ghost all = api::messages(messages@);
    assert(all.take(all.len() as int) == all);
    while i > 0
        invariant
            i <= messages@.len(),
            all == api::messages(messages@),
            transition::last_user_content(all) == transition::last_user_content(
                all.take(i as int),
            ),
        decreases i,
    {
        i -= 1;
        assert(all.take(i + 1).last() == messages@[i as int]@);
        assert(all.take(i + 1).drop_last() == all.take(i as int));
        if text::same(messages[i].role.as_str(), "user") {
            return Some(messages[i].content.clone());
        }
    }
    None
}

/// Whether a message is shown (see [`transition::is_shown`]).
fn is_shown(m: &ChatMessage, debug: bool) -> (r: bool)
    ensures
        r == transition::is_shown(m@, debug),
{
    debug || text::same(m.role.as_str(), "user") || (text::same(m.role.as_str(), "assistant")
        && !text::blank(m.content.as_str()))
}

/// A conversation with the messages that are shown: all of them in debug mode,
/// otherwise the user's, and the assistant's that are not blank.
pub fn filter_messages(detail: &ConversationDetail, debug: bool) -> (r: ConversationDetail)
    ensures
        r@ == transition::shown(detail@, debug),
{
    let mut messages: Vec<ChatMessage> = Vec::new();
    let mut i: usize = 0;
    let ghost all = detail@.messages;
    let ghost keep = |m: ChatMessageV| transition::is_shown(m, debug);
    assert(all.take(0).filter(keep) =~= Seq::<ChatMessageV>::empty()) by {
        reveal_with_fuel(Seq::filter, 1);
    }
    while i < detail.messages.len()
        invariant
            i <= detail.messages@.len(),
            all == api::messages(detail.messages@),
            keep == (|m: ChatMessageV| transition::is_shown(m, debug)),
            api::messages(messages@) == all.take(i as int).filter(keep),
        decreases detail.messages@.len() - i,
    {
        proof {
            reveal_with_fuel(Seq::filter, 1);
            assert(all.take(i + 1).drop_last() == all.take(i as int));
            assert(all.take(i + 1).last() == detail.messages@[i as int]@);
        }
        if is_shown(&detail.messages[i], debug) {
            let ghost done = api::messages(messages@);
            messages.push(detail.messages[i].clone());
            assert(api::messages(messages@) == done.push(detail.messages@[i as int]@));
        }
        i += 1;
    }
    assert(all.take(all.len() as int) == all);
    ConversationDetail {
        id: detail.id.clone(),
        title: detail.title.clone(),
        messages,
        model_selection: detail.model_selection.clone(),
        conversation_personality: detail.conversation_personality,
        tool_gate_disabled: detail.tool_gate_disabled,
    }
}

/// The refinement that goes with the next send, by the level of spoken output
/// in view.
pub fn refinement_for_send(state: &WindowState) -> (r: Option<SendRefinement>)
    ensures
        r == state@.current_level().refinement(),
{
    state.adele_output_for_current().send_refinement()
}

/// The client tools on offer, so that the model can enter and leave voice mode.
/// The list is complete: registering it replaces any earlier one. A `say_this`
/// call is handled without being on offer.
pub fn voice_mode_client_tools() -> (r: Vec<ClientToolRegistration>)
    ensures
        r@.map_values(|t: ClientToolRegistration| t@) == transition::voice_tools(),
{
    let r = vec![
        ClientToolRegistration {
            name: "request_voice".to_owned(),
            description:
                "Switch this conversation into spoken voice mode (the user asked to talk by voice); replies will be read aloud and kept conversational.".to_owned(),
            input_schema: InputSchema::NoArguments,
        },
        ClientToolRegistration {
            name: "stop_voice".to_owned(),
            description: "Leave voice mode; go back to text-only.".to_owned(),
            input_schema: InputSchema::NoArguments,
        },
    ];
    assert(r@.map_values(|t: ClientToolRegistration| t@) =~= transition::voice_tools());
    r
}

/// The text that the arguments of a `say_this` call ask to say. `None` when the
/// arguments are not an object or have no string member `text`.
pub fn say_this_text(arguments: &Value) -> (r: Option<String>)
    ensures
        text::opt_view(r) == transition::said_text(*arguments),
{
    json::text_member(arguments, "text")
}

// ---------------------------------------------------------------------------
// Changing the state
// ---------------------------------------------------------------------------

impl WindowState {
    /// Take the offer to send a failed prompt again, if there is one. Taking it
    /// withdraws it.
    pub fn take_pending_retry_prompt(&mut self) -> (r: Option<String>)
        ensures
            text::opt_view(r) == old(self)@.pending_retry_prompt,
            final(self)@ == (WindowV { pending_retry_prompt: None, ..old(self)@ }),
            final(self)@.wf(),
    {
        self.open.note_finite();
        self.pending_retry_prompt.take()
    }

    /// The transcript in view for modification, if it is loaded.
    pub fn current_conversation_mut(&mut self) -> (r: Option<&mut ConversationDetail>)
        ensures
            match r {
                Some(d) => {
                    &&& old(self)@.current_detail() == Some((*d)@)
                    &&& final(self)@ == old(self)@.with_current_detail((*final(d))@)
                },
                None => old(self)@.current_detail() is None && final(self)@ == old(self)@,
            },
    {
        let id = match &self.current_conversation_id {
            Some(id) => id.clone(),
            None => {
                return None;
            },
        };
        proof {
            let before = self@;
            assert(before.open.contains_key(id@) ==> before.open.insert(id@, before.open[id@])
                =~= before.open);
        }
        match self.open.get_mut(id.as_str()) {
            Some(m) => m.detail.as_mut(),
            None => None,
        }
    }

    /// Append a message to the transcript in view, if one is loaded.
    fn push_message(&mut self, message: ChatMessage)
        ensures
            final(self)@ == old(self)@.with_message(message@),
    {
        if let Some(d) = self.current_conversation_mut() {
            let ghost before = d@;
            d.messages.push(message);
            assert(d@ =~= (DetailV { messages: before.messages.push(message@), ..before }));
        }
    }

    /// The reply in flight of `conversation` for modification, if there is one.
    fn stream_of_mut(&mut self, conversation: &str) -> (r: Option<&mut StreamState>)
        ensures
            match r {
                Some(s) => {
                    &&& conversation::is_streaming(old(self)@.open, conversation@)
                    &&& old(self)@.open[conversation@].stream == Some((*s)@)
                    &&& final(self)@ == old(self)@.with_model(
                        conversation@,
                        ConversationV {
                            stream: Some((*final(s))@),
                            ..old(self)@.open[conversation@]
                        },
                    )
                },
                None => {
                    &&& !conversation::is_streaming(old(self)@.open, conversation@)
                    &&& final(self)@ == old(self)@
                },
            },
    {
        proof {
            let before = self@;
            let id = conversation@;
            assert(before.open.contains_key(id) ==> before.open.insert(id, before.open[id])
                =~= before.open);
        }
        match self.open.get_mut(conversation) {
            Some(m) => m.stream.as_mut(),
            None => None,
        }
    }

    /// Take the reply in flight of `conversation`, which has one.
    fn take_stream(&mut self, conversation: &str) -> (r: StreamState)
        requires
            conversation::is_streaming(old(self)@.open, conversation@),
        ensures
            Some(r@) == old(self)@.open[conversation@].stream,
            final(self)@ == old(self)@.without_stream(conversation@),
    {
        let model = self.open.get_mut(conversation).unwrap();
        model.stream.take().unwrap()
    }

    /// Make `detail`'s conversation the one in view. The outgoing conversation
    /// loses its transcript and keeps the rest of its model.
    fn switch_to(&mut self, detail: ConversationDetail)
        ensures
            final(self)@ == old(self)@.switched_to(detail@),
    {
        let incoming = detail.id.clone();
        let outgoing = self.current_conversation_id.clone();
        if let Some(out) = outgoing {
            if !text::same(out.as_str(), incoming.as_str()) {
                if let Some(m) = self.open.get_mut(out.as_str()) {
                    m.detail = None;
                }
            }
        }
        self.current_conversation_id = Some(incoming.clone());
        let model = self.open.entry_or_default(incoming.as_str());
        model.detail = Some(detail);
        assert(self@ =~= old(self)@.switched_to(detail@));
    }

    /// Replace a transcript, whichever conversation is in view.
    pub fn cache_detail(&mut self, detail: ConversationDetail)
        ensures
            final(self)@ == old(self)@.cached(detail@),
            final(self)@.wf(),
    {
        let id = detail.id.clone();
        let model = self.open.entry_or_default(id.as_str());
        model.detail = Some(detail);
        self.open.note_finite();
    }

    /// Make `detail`'s conversation the one in view, for a client that loads
    /// conversations outside of [`WindowState::apply`].
    pub fn open_conversation(&mut self, detail: ConversationDetail)
        ensures
            final(self)@ == old(self)@.switched_to(detail@),
            final(self)@.wf(),
    {
        self.switch_to(detail);
        self.open.note_finite();
    }

    /// Save a conversation's draft. An empty draft is not recorded for a
    /// conversation without a model.
    pub fn set_composer_draft(&mut self, conversation_id: &str, text: String)
        ensures
            final(self)@ == old(self)@.with_draft(conversation_id@, text@),
            final(self)@.wf(),
    {
        if self.open.contains_key(conversation_id) || !text.as_str().is_empty() {
            let model = self.open.entry_or_default(conversation_id);
            model.composer = text;
        }
        self.open.note_finite();
    }

    /// Drop every reply in flight and report each as a failed turn, ascending by
    /// conversation.
    fn end_every_turn(&mut self, reason: &str) -> (r: Vec<Effect>)
        ensures
            final(self)@ == old(self)@.all_turns_ended(reason@).0,
            effect::effects(r@) == old(self)@.all_turns_ended(reason@).1,
    {
        let mut streams = self.open.take_streams();
        let mut out: Vec<Effect> = Vec::new();
        let ghost all = streams@;
        let ghost reports = old(self)@.all_turns_ended(reason@).1;
        let ghost mut done: int = 0;
        assert(reports.take(0) =~= Seq::empty());
        while streams.len() > 0
            invariant
                0 <= done <= all.len(),
                streams@ == all.skip(done),
                conversation::owned_streams(all) == conversation::streams(old(self)@.open),
                reports == old(self)@.all_turns_ended(reason@).1,
                effect::effects(out@) == reports.take(done),
            decreases streams@.len(),
        {
            let (conversation_id, stream) = streams.remove(0);
            let ghost so_far = effect::effects(out@);
            let ghost owned = (conversation_id@, stream@);
            let finished = Effect::TurnFinished {
                conversation_id,
                request_id: match stream.request_id {
                    Some(id) => id,
                    None => String::new(),
                },
                idempotency_key: stream.idempotency_key,
                outcome: TurnOutcome::Failed(reason.to_owned()),
            };
            let ghost report = finished@;
            out.push(finished);
            proof {
                assert(owned == conversation::owned_streams(all)[done]);
                assert(reports[done] == report);
                assert(effect::effects(out@) =~= so_far.push(report));
                assert(reports.take(done + 1) =~= reports.take(done).push(report));
                done = done + 1;
                assert(streams@ =~= all.skip(done));
            }
        }
        assert(reports.take(done) =~= reports);
        out
    }

    /// Drop every reply in flight without finalizing it, and report each as a
    /// failed turn. For a client that tears its connection down outside of
    /// [`WindowState::apply`].
    pub fn reset_streaming_state(&mut self) -> (r: Vec<Effect>)
        ensures
            final(self)@ == old(self)@.all_turns_ended("Streaming state reset"@).0,
            effect::effects(r@) == old(self)@.all_turns_ended("Streaming state reset"@).1,
            final(self)@.wf(),
    {
        let out = self.end_every_turn("Streaming state reset");
        self.open.note_finite();
        out
    }

    /// Send `prompt` into the conversation in view: its message joins the
    /// transcript, and the send goes out. The composer is the caller's.
    fn commit_send(&mut self, prompt: String, idempotency_key: Option<String>) -> (r: Vec<Effect>)
        requires
            old(self)@.current is Some,
        ensures
            final(self)@ == old(self)@.sent(prompt@, text::opt_view(idempotency_key)).0,
            effect::effects(r@) == old(self)@.sent(prompt@, text::opt_view(idempotency_key)).1,
    {
        let conversation_id = match &self.current_conversation_id {
            Some(id) => id.clone(),
            None => String::new(),
        };
        let system_refinement = refinement_for_send(self);
        self.push_message(local_message("user", prompt.clone(), idempotency_key.clone()));
        vec![Effect::SendPrompt { conversation_id, prompt, system_refinement, idempotency_key }]
    }

    /// Send the queue in view as one prompt, if it can be sent now. The queued
    /// messages are held until the send is acknowledged.
    pub fn flush_outbox(&mut self) -> (r: Vec<Effect>)
        ensures
            final(self)@ == old(self)@.flushed().0,
            effect::effects(r@) == old(self)@.flushed().1,
            final(self)@.wf(),
    {
        self.open.note_finite();
        if !self.can_flush() {
            return nothing();
        }
        let id = match &self.current_conversation_id {
            Some(id) => id.clone(),
            None => String::new(),
        };
        let model = self.open.get_mut(id.as_str()).unwrap();
        let ghost m = model@;
        let combined = text::join(&model.queued_texts(), QUEUE_JOIN);
        let combined_key = model.outbox[0].idempotency_key.clone();
        let mut queued: Vec<QueuedMessage> = Vec::new();
        queued.append(&mut model.outbox);
        model.pending_flush = queued;
        proof {
            assert(m.outbox[0] == model.pending_flush@[0]@);
            assert(model@ =~= (ConversationV {
                outbox: Seq::empty(),
                pending_flush: m.outbox,
                ..m
            }));
        }
        let mut out = self.commit_send(combined, combined_key);
        let ghost sent = effect::effects(out@);
        let snapshot = self.queued_snapshot_effect();
        out.push(snapshot);
        assert(effect::effects(out@) =~= sent.push(snapshot@));
        out
    }

    /// Send the queue in view as one prompt, if it can be sent now. For a client
    /// that switches conversations with [`WindowState::open_conversation`].
    pub fn flush_pending_queue(&mut self) -> (r: Vec<Effect>)
        ensures
            final(self)@ == old(self)@.flushed().0,
            effect::effects(r@) == old(self)@.flushed().1,
            final(self)@.wf(),
    {
        self.flush_outbox()
    }
}

// ---------------------------------------------------------------------------
// Messages
// ---------------------------------------------------------------------------

/// No effects.
fn nothing() -> (r: Vec<Effect>)
    ensures
        effect::effects(r@) == Seq::<EffectV>::empty(),
{
    let r: Vec<Effect> = Vec::new();
    assert(effect::effects(r@) =~= Seq::empty());
    r
}

/// One effect.
fn just(e: Effect) -> (r: Vec<Effect>)
    ensures
        effect::effects(r@) == seq![e@],
{
    let r = vec![e];
    assert(effect::effects(r@) =~= seq![e@]);
    r
}

/// Two effects.
fn both(a: Effect, b: Effect) -> (r: Vec<Effect>)
    ensures
        effect::effects(r@) == seq![a@, b@],
{
    let r = vec![a, b];
    assert(effect::effects(r@) =~= seq![a@, b@]);
    r
}

/// `out` followed by `more`.
fn extended(out: Vec<Effect>, more: Vec<Effect>) -> (r: Vec<Effect>)
    ensures
        effect::effects(r@) == effect::effects(out@) + effect::effects(more@),
{
    let mut r = out;
    let mut rest = more;
    r.append(&mut rest);
    assert(effect::effects(r@) =~= effect::effects(out@) + effect::effects(more@));
    r
}

/// A copy of a conversation list.
fn copied(list: &Vec<ConversationSummary>) -> (r: Vec<ConversationSummary>)
    ensures
        api::summaries(r@) == api::summaries(list@),
{
    let r = list.clone();
    assert(api::summaries(r@) =~= api::summaries(list@));
    r
}

/// The same conversation list with the title of `id` replaced.
fn retitle(list: &mut Vec<ConversationSummary>, id: &str, title: &str)
    ensures
        api::summaries(final(list)@) == transition::retitled(
            api::summaries(old(list)@),
            id@,
            title@,
        ),
{
    let ghost before = api::summaries(list@);
    let ghost after = transition::retitled(before, id@, title@);
    let mut i: usize = 0;
    while i < list.len()
        invariant
            i <= list@.len(),
            list@.len() == before.len(),
            after == transition::retitled(before, id@, title@),
            forall|j: int| 0 <= j < i ==> (#[trigger] list@[j])@ == after[j],
            forall|j: int| i <= j < list@.len() ==> (#[trigger] list@[j])@ == before[j],
        decreases list@.len() - i,
    {
        if text::same(list[i].id.as_str(), id) {
            list[i].title = title.to_owned();
        }
        i += 1;
    }
    assert(api::summaries(list@) =~= after);
}

/// The same conversation list without `id`.
fn drop_summary(list: &mut Vec<ConversationSummary>, id: &str)
    ensures
        api::summaries(final(list)@) == api::summaries(old(list)@).filter(
            |c: SummaryV| c.id != id@,
        ),
{
    let ghost all = api::summaries(list@);
    let ghost keep = |c: SummaryV| c.id != id@;
    let mut kept: Vec<ConversationSummary> = Vec::new();
    let mut i: usize = 0;
    assert(all.take(0).filter(keep) =~= Seq::<SummaryV>::empty()) by {
        reveal_with_fuel(Seq::filter, 1);
    }
    while i < list.len()
        invariant
            i <= list@.len(),
            all == api::summaries(list@),
            keep == (|c: SummaryV| c.id != id@),
            api::summaries(kept@) == all.take(i as int).filter(keep),
        decreases list@.len() - i,
    {
        proof {
            reveal_with_fuel(Seq::filter, 1);
            assert(all.take(i + 1).drop_last() == all.take(i as int));
            assert(all.take(i + 1).last() == list@[i as int]@);
        }
        if !text::same(list[i].id.as_str(), id) {
            let ghost done = api::summaries(kept@);
            kept.push(list[i].clone());
            assert(api::summaries(kept@) == done.push(list@[i as int]@));
        }
        i += 1;
    }
    assert(all.take(all.len() as int) == all);
    *list = kept;
}

/// The text that tells of a fallback from a dangling model selection.
fn fallback_notice(
    previous: &ConversationModelSelectionView,
    fallback: &ConversationModelSelectionView,
) -> (r: String)
    ensures
        r@ == WindowV::fallback_notice(previous@, fallback@),
{
    let mut s = "The model \"".to_owned();
    s.append(previous.model_id.as_str());
    s.append("\" on connection \"");
    s.append(previous.connection_id.as_str());
    s.append("\" is no longer available — falling back to \"");
    s.append(fallback.model_id.as_str());
    s.append("\" on \"");
    s.append(fallback.connection_id.as_str());
    s.append("\".");
    s
}

/// Put `item` back into `slot` of a queue, or at the end when the queue is
/// shorter than that.
fn put_back(queue: &mut Vec<QueuedMessage>, slot: usize, item: QueuedMessage)
    ensures
        conversation::queue(final(queue)@) == transition::put_back(
            conversation::queue(old(queue)@),
            slot as nat,
            item@,
        ),
{
    let at: usize = if slot <= queue.len() {
        slot
    } else {
        queue.len()
    };
    queue.insert(at, item);
    assert(conversation::queue(queue@) =~= transition::put_back(
        conversation::queue(old(queue)@),
        slot as nat,
        item@,
    ));
}

/// Return a message under edit to its slot, unchanged.
fn return_edit(model: &mut ConversationModel)
    ensures
        final(model)@ == (ConversationV {
            outbox: transition::outbox_with_edit(old(model)@),
            editing: None,
            ..old(model)@
        }),
{
    if let Some(edit) = model.editing.take() {
        put_back(
            &mut model.outbox,
            edit.index,
            QueuedMessage { text: edit.original, idempotency_key: edit.key },
        );
    }
}

/// Queue a submitted prompt, unless it is blank, and clear the composer.
fn enqueue(model: &mut ConversationModel, prompt: String, idempotency_key: Option<String>)
    ensures
        final(model)@ == WindowV::queued(old(model)@, prompt@, text::opt_view(idempotency_key)),
{
    if !text::blank(prompt.as_str()) {
        let ghost item = QueuedV { text: prompt@, idempotency_key: text::opt_view(idempotency_key) };
        model.outbox.push(QueuedMessage { text: prompt, idempotency_key });
        assert(conversation::queue(model.outbox@) =~= old(model)@.outbox.push(item));
    }
    model.composer = String::new();
}

impl WindowState {
    fn on_conversations_loaded(&mut self, list: Vec<ConversationSummary>) -> (r: Vec<Effect>)
        ensures
            final(self)@ == old(self)@.on_conversations_loaded(api::summaries(list@)).0,
            effect::effects(r@) == old(self)@.on_conversations_loaded(api::summaries(list@)).1,
    {
        let head = both(Effect::SetConversations(copied(&list)), Effect::EnsureActiveConversation);
        self.conversations = list;
        match self.current_conversation_id.clone() {
            Some(id) => if self.lists(id.as_str()) {
                let cached = match self.current_conversation() {
                    Some(d) => text::same(d.id.as_str(), id.as_str()),
                    None => false,
                };
                let subscribe = Effect::SubscribeConversations(text::single(id.as_str()));
                let fetch = if cached {
                    Effect::ReloadConversation(id)
                } else {
                    Effect::LoadConversation(id)
                };
                extended(head, both(subscribe, fetch))
            } else {
                head
            },
            None => head,
        }
    }

    fn on_list_refetched(&mut self, list: Vec<ConversationSummary>) -> (r: Vec<Effect>)
        ensures
            final(self)@ == old(self)@.on_list_refetched(api::summaries(list@)).0,
            effect::effects(r@) == old(self)@.on_list_refetched(api::summaries(list@)).1,
    {
        let shown = copied(&list);
        self.conversations = list;
        both(Effect::SetConversations(shown), Effect::EnsureActiveConversation)
    }

    /// What the chat shows of replies in flight right after a switch.
    fn switch_reconciliation(&self) -> (r: Vec<Effect>)
        ensures
            effect::effects(r@) == self@.switch_reconciliation(),
    {
        match self.current_stream() {
            Some(s) => if s.buffer.as_str().is_empty() {
                nothing()
            } else {
                just(Effect::ReceiveChunk(s.buffer.clone()))
            },
            None => if self.is_streaming() {
                just(Effect::ClearChatStatus)
            } else {
                nothing()
            },
        }
    }

    fn on_conversation_loaded(&mut self, detail: ConversationDetail) -> (r: Vec<Effect>)
        ensures
            final(self)@ == old(self)@.on_conversation_loaded(detail@).0,
            effect::effects(r@) == old(self)@.on_conversation_loaded(detail@).1,
    {
        let head = vec![
            Effect::SetModelSelection(detail.model_selection.clone()),
            Effect::LoadConversationIntoChat(filter_messages(&detail, self.debug_enabled)),
            Effect::SetContextUsage(None),
            Effect::SubscribeConversations(text::single(detail.id.as_str())),
            Effect::SidePaneSetScratchpad(Vec::new()),
            Effect::RefreshSidePaneTasks,
            Effect::FetchScratchpad(detail.id.clone()),
        ];
        proof {
            let d = detail@;
            assert(effect::effects(head@) =~= seq![
                EffectV::SetModelSelection(d.model_selection),
                EffectV::LoadConversationIntoChat(transition::shown(d, self@.debug_enabled)),
                EffectV::SetContextUsage(None),
                EffectV::SubscribeConversations(seq![d.id]),
                EffectV::SidePaneSetScratchpad(Seq::empty()),
                EffectV::RefreshSidePaneTasks,
                EffectV::FetchScratchpad(d.id),
            ]);
        }
        self.switch_to(detail);
        let reconciliation = self.switch_reconciliation();
        let flush = self.flush_outbox();
        let snapshot = self.queued_snapshot_effect();
        extended(extended(extended(head, reconciliation), flush), just(snapshot))
    }

    fn on_conversation_reloaded(&mut self, detail: ConversationDetail) -> (r: Vec<Effect>)
        ensures
            final(self)@ == old(self)@.on_conversation_reloaded(detail@).0,
            effect::effects(r@) == old(self)@.on_conversation_reloaded(detail@).1,
    {
        if !self.is_active_conversation(detail.id.as_str()) {
            return nothing();
        }
        let out = vec![
            Effect::LoadConversationIntoChat(filter_messages(&detail, self.debug_enabled)),
            Effect::SidePaneSetScratchpad(Vec::new()),
            Effect::RefreshSidePaneTasks,
            Effect::FetchScratchpad(detail.id.clone()),
        ];
        assert(effect::effects(out@) =~= self@.on_conversation_reloaded(detail@).1);
        self.cache_detail(detail);
        out
    }

    /// The report of the turn of `id`, if one is in flight, when its conversation
    /// is deleted.
    fn deletion_reports(&self, id: &str) -> (r: Vec<Effect>)
        ensures
            effect::effects(r@) == self@.deletion_reports(id@),
    {
        match self.open.get(id) {
            Some(m) => match &m.stream {
                Some(stream) => just(
                    Effect::TurnFinished {
                        conversation_id: id.to_owned(),
                        request_id: match &stream.request_id {
                            Some(request_id) => request_id.clone(),
                            None => String::new(),
                        },
                        idempotency_key: stream.idempotency_key.clone(),
                        outcome: TurnOutcome::Failed("Conversation deleted".to_owned()),
                    },
                ),
                None => nothing(),
            },
            None => nothing(),
        }
    }

    fn on_conversation_deleted(&mut self, id: String) -> (r: Vec<Effect>)
        ensures
            final(self)@ == old(self)@.on_conversation_deleted(id@).0,
            effect::effects(r@) == old(self)@.on_conversation_deleted(id@).1,
    {
        let is_active = self.is_active_conversation(id.as_str());
        let reports = self.deletion_reports(id.as_str());
        drop_summary(&mut self.conversations, id.as_str());
        self.open.remove(id.as_str());
        if is_active {
            self.current_conversation_id = None;
        }
        let head = just(Effect::SetConversations(copied(&self.conversations)));
        let tail = if is_active {
            let tail = vec![
                Effect::ClearChat,
                Effect::SidePaneSetScratchpad(Vec::new()),
                Effect::RefreshSidePaneTasks,
                Effect::EnsureActiveConversation,
            ];
            assert(effect::effects(tail@) =~= seq![
                EffectV::ClearChat,
                EffectV::SidePaneSetScratchpad(Seq::empty()),
                EffectV::RefreshSidePaneTasks,
                EffectV::EnsureActiveConversation,
            ]);
            tail
        } else {
            nothing()
        };
        extended(extended(head, tail), reports)
    }

    fn on_retitled(&mut self, id: String, title: String) -> (r: Vec<Effect>)
        ensures
            final(self)@ == old(self)@.on_retitled(id@, title@).0,
            effect::effects(r@) == old(self)@.on_retitled(id@, title@).1,
    {
        retitle(&mut self.conversations, id.as_str(), title.as_str());
        just(Effect::SetConversations(copied(&self.conversations)))
    }

    /// The end of an edit of a queued message of the conversation in view.
    fn on_edit_submitted(&mut self, id: &str, prompt: String) -> (r: Vec<Effect>)
        requires
            old(self)@.current == Some(id@),
            old(self)@.open.contains_key(id@),
            old(self)@.open[id@].editing is Some,
        ensures
            final(self)@ == old(self)@.on_edit_submitted(
                id@,
                old(self)@.open[id@].editing->0,
                prompt@,
            ).0,
            effect::effects(r@) == old(self)@.on_edit_submitted(
                id@,
                old(self)@.open[id@].editing->0,
                prompt@,
            ).1,
    {
        let model = self.open.get_mut(id).unwrap();
        let edit = model.editing.take().unwrap();
        if !text::blank(prompt.as_str()) {
            put_back(
                &mut model.outbox,
                edit.index,
                QueuedMessage { text: prompt, idempotency_key: edit.key },
            );
        }
        model.composer = String::new();
        let cleared = Effect::SetComposerText(String::new());
        if self.can_flush() {
            let flush = self.flush_outbox();
            extended(just(cleared), flush)
        } else {
            let snapshot = self.queued_snapshot_effect();
            both(cleared, snapshot)
        }
    }

    fn on_submit_prompt(&mut self, prompt: String, idempotency_key: Option<String>) -> (r: Vec<
        Effect,
    >)
        ensures
            final(self)@ == old(self)@.on_submit_prompt(prompt@, text::opt_view(idempotency_key)).0,
            effect::effects(r@) == old(self)@.on_submit_prompt(
                prompt@,
                text::opt_view(idempotency_key),
            ).1,
    {
        let id = match &self.current_conversation_id {
            Some(id) => id.clone(),
            None => {
                return nothing();
            },
        };
        let (editing, streaming, queueing) = match self.open.get(id.as_str()) {
            Some(m) => (m.editing.is_some(), m.stream.is_some(), m.outbox.len() > 0),
            None => (false, false, false),
        };
        if editing {
            return self.on_edit_submitted(id.as_str(), prompt);
        }
        if streaming {
            if !text::blank(prompt.as_str()) {
                let model = self.open.get_mut(id.as_str()).unwrap();
                enqueue(model, prompt, idempotency_key);
            }
            let snapshot = self.queued_snapshot_effect();
            return both(Effect::SetComposerText(String::new()), snapshot);
        }
        if queueing {
            let is_blank = text::blank(prompt.as_str());
            let model = self.open.get_mut(id.as_str()).unwrap();
            enqueue(model, prompt, idempotency_key);
            if self.can_flush() {
                return self.flush_outbox();
            }
            if is_blank {
                return nothing();
            }
            let snapshot = self.queued_snapshot_effect();
            return both(Effect::SetComposerText(String::new()), snapshot);
        }
        if prompt.as_str().is_empty() {
            return nothing();
        }
        if let Some(model) = self.open.get_mut(id.as_str()) {
            model.composer = String::new();
        }
        self.commit_send(prompt, idempotency_key)
    }

    fn on_edit_queued(&mut self, index: usize) -> (r: Vec<Effect>)
        ensures
            final(self)@ == old(self)@.on_edit_queued(index as nat).0,
            effect::effects(r@) == old(self)@.on_edit_queued(index as nat).1,
    {
        if self.current_model().is_none() {
            return nothing();
        }
        let id = match &self.current_conversation_id {
            Some(id) => id.clone(),
            None => String::new(),
        };
        let model = self.open.get_mut(id.as_str()).unwrap();
        return_edit(model);
        let ghost all = model@.outbox;
        let shown = if index < model.outbox.len() {
            let item = model.outbox.remove(index);
            proof {
                assert(item@ == all[index as int]);
                assert(conversation::queue(model.outbox@) =~= all.remove(index as int));
            }
            let shown = item.text.clone();
            model.composer = item.text.clone();
            model.editing =
            Some(QueuedEdit { index, original: item.text, key: item.idempotency_key });
            shown
        } else {
            String::new()
        };
        let snapshot = self.queued_snapshot_effect();
        both(Effect::SetComposerText(shown), snapshot)
    }

    fn on_remove_queued(&mut self, index: usize) -> (r: Vec<Effect>)
        ensures
            final(self)@ == old(self)@.on_remove_queued(index as nat).0,
            effect::effects(r@) == old(self)@.on_remove_queued(index as nat).1,
    {
        let in_range = match self.current_model() {
            Some(m) => index < m.outbox.len(),
            None => false,
        };
        if !in_range {
            return nothing();
        }
        let id = match &self.current_conversation_id {
            Some(id) => id.clone(),
            None => String::new(),
        };
        let model = self.open.get_mut(id.as_str()).unwrap();
        let ghost m = model@;
        model.outbox.remove(index);
        assert(conversation::queue(model.outbox@) =~= m.outbox.remove(index as int));
        if let Some(edit) = &mut model.editing {
            if index < edit.index {
                edit.index = edit.index - 1;
            }
        }
        let snapshot = self.queued_snapshot_effect();
        just(snapshot)
    }

    fn on_cancel_queued_edit(&mut self) -> (r: Vec<Effect>)
        ensures
            final(self)@ == old(self)@.on_cancel_queued_edit().0,
            effect::effects(r@) == old(self)@.on_cancel_queued_edit().1,
    {
        let editing = match self.current_model() {
            Some(m) => m.editing.is_some(),
            None => false,
        };
        if !editing {
            return nothing();
        }
        let id = match &self.current_conversation_id {
            Some(id) => id.clone(),
            None => String::new(),
        };
        let model = self.open.get_mut(id.as_str()).unwrap();
        return_edit(model);
        model.composer = String::new();
        let snapshot = self.queued_snapshot_effect();
        both(Effect::SetComposerText(String::new()), snapshot)
    }
}

impl WindowState {
    /// Take back the message of a failed send, if it is still the last one of
    /// the conversation it was sent into and that is in view.
    fn roll_back(&mut self, id: &str, prompt: &str)
        ensures
            final(self)@ == old(self)@.rolled_back(id@, prompt@),
    {
        let is_last = match self.current_conversation() {
            Some(d) => {
                let n: usize = d.messages.len();
                assert(n > 0 ==> d@.messages.last() == d.messages@[n - 1]@);
                n > 0 && text::same(d.id.as_str(), id) && text::same(
                    d.messages[n - 1].role.as_str(),
                    "user",
                ) && text::same(d.messages[n - 1].content.as_str(), prompt)
            },
            None => false,
        };
        if is_last {
            let d = self.current_conversation_mut().unwrap();
            let ghost before = d@;
            d.messages.pop();
            assert(d@ =~= (DetailV { messages: before.messages.drop_last(), ..before }));
        }
    }

    fn on_send_failed(&mut self, id: String, prompt: String) -> (r: Vec<Effect>)
        ensures
            final(self)@ == old(self)@.on_send_failed(id@, prompt@).0,
            effect::effects(r@) == old(self)@.on_send_failed(id@, prompt@).1,
    {
        self.roll_back(id.as_str(), prompt.as_str());
        let parked = match self.open.get(id.as_str()) {
            Some(m) => m.pending_flush.len() > 0,
            None => false,
        };
        if !parked {
            return nothing();
        }
        let model = self.open.get_mut(id.as_str()).unwrap();
        let ghost m = model@;
        let mut restored: Vec<QueuedMessage> = Vec::new();
        restored.append(&mut model.pending_flush);
        restored.append(&mut model.outbox);
        model.outbox = restored;
        assert(model@ =~= (ConversationV {
            outbox: m.pending_flush + m.outbox,
            pending_flush: Seq::empty(),
            ..m
        }));
        if self.is_active_conversation(id.as_str()) {
            let snapshot = self.queued_snapshot_effect();
            just(snapshot)
        } else {
            nothing()
        }
    }

    fn on_prompt_sent(
        &mut self,
        task_id: String,
        conversation_id: String,
        idempotency_key: Option<String>,
    ) -> (r: Vec<Effect>)
        ensures
            final(self)@ == old(self)@.on_prompt_sent(
                task_id@,
                conversation_id@,
                text::opt_view(idempotency_key),
            ).0,
            effect::effects(r@) == old(self)@.on_prompt_sent(
                task_id@,
                conversation_id@,
                text::opt_view(idempotency_key),
            ).1,
    {
        let model = self.open.entry_or_default(conversation_id.as_str());
        model.pending_flush.clear();
        assert(conversation::queue(model.pending_flush@) =~= Seq::empty());
        let replaced = model.stream.take();
        model.stream =
        Some(
            StreamState {
                request_id: None,
                buffer: String::new(),
                say_this_spoken_this_turn: false,
                external: false,
                task_id,
                idempotency_key,
            },
        );
        match replaced {
            Some(stream) => just(
                Effect::TurnFinished {
                    conversation_id,
                    request_id: match stream.request_id {
                        Some(id) => id,
                        None => String::new(),
                    },
                    idempotency_key: stream.idempotency_key,
                    outcome: TurnOutcome::Failed("Replaced by a later send".to_owned()),
                },
            ),
            None => nothing(),
        }
    }

    /// Whether the loaded transcript of `id` holds a message sent under `key`.
    fn holds_key(&self, id: &str, key: &Option<String>) -> (r: bool)
        ensures
            r == self@.holds_key(id@, text::opt_view(*key)),
    {
        if key.is_none() {
            return false;
        }
        match self.open.get(id) {
            Some(m) => match &m.detail {
                Some(d) => {
                    let mut i: usize = 0;
                    while i < d.messages.len()
                        invariant
                            i <= d.messages@.len(),
                            self@.open.contains_key(id@),
                            self@.open[id@].detail == Some(d@),
                            *key is Some,
                            forall|j: int|
                                0 <= j < i ==> (
                                #[trigger] self@.open[id@].detail->0.messages[j]).idempotency_key
                                    != text::opt_view(*key),
                        decreases d.messages@.len() - i,
                    {
                        assert(self@.open[id@].detail->0.messages[i as int]
                            == d.messages@[i as int]@);
                        if text::same_opt(&d.messages[i].idempotency_key, key) {
                            return true;
                        }
                        i += 1;
                    }
                    false
                },
                None => false,
            },
            None => false,
        }
    }

    /// Claim an unclaimed reply of `id`; the answer is whether there was one.
    fn claim(&mut self, id: &str, request_id: &str) -> (r: bool)
        ensures
            final(self)@ == old(self)@.claimed(id@, request_id@),
            r == conversation::is_pending(old(self)@.open, id@),
    {
        let pending = match self.open.get(id) {
            Some(m) => match &m.stream {
                Some(s) => s.request_id.is_none(),
                None => false,
            },
            None => false,
        };
        if pending {
            let stream = self.stream_of_mut(id).unwrap();
            stream.request_id = Some(request_id.to_owned());
        }
        pending
    }

    /// Whether the last message in view is an unkeyed one by the user with the
    /// given content.
    fn echoes_last(&self, content: &str) -> (r: bool)
        ensures
            r == self@.echoes_last(content@),
    {
        match self.current_conversation() {
            Some(d) => {
                let n: usize = d.messages.len();
                assert(n > 0 ==> d@.messages.last() == d.messages@[n - 1]@);
                n > 0 && d.messages[n - 1].id.as_str().is_empty() && text::same(
                    d.messages[n - 1].role.as_str(),
                    "user",
                ) && text::same(d.messages[n - 1].content.as_str(), content)
            },
            None => false,
        }
    }

    fn on_user_message_added(
        &mut self,
        conversation_id: String,
        request_id: String,
        content: String,
        idempotency_key: Option<String>,
    ) -> (r: Vec<Effect>)
        ensures
            final(self)@ == old(self)@.on_user_message_added(
                conversation_id@,
                request_id@,
                content@,
                text::opt_view(idempotency_key),
            ).0,
            effect::effects(r@) == old(self)@.on_user_message_added(
                conversation_id@,
                request_id@,
                content@,
                text::opt_view(idempotency_key),
            ).1,
    {
        let own = self.holds_key(conversation_id.as_str(), &idempotency_key);
        let claimed = self.claim(conversation_id.as_str(), request_id.as_str());
        if own || claimed {
            return nothing();
        }
        if self.current_stream().is_some() || !self.is_active_conversation(
            conversation_id.as_str(),
        ) || self.echoes_last(content.as_str()) {
            return nothing();
        }
        let model = self.open.entry_or_default(conversation_id.as_str());
        model.stream =
        Some(
            StreamState {
                request_id: Some(request_id),
                buffer: String::new(),
                say_this_spoken_this_turn: false,
                external: true,
                task_id: String::new(),
                idempotency_key: None,
            },
        );
        self.push_message(local_message("user", content.clone(), None));
        just(Effect::AddUserMessage(content))
    }

    fn on_assistant_status(&self, request_id: String, message: String) -> (r: Vec<Effect>)
        ensures
            effect::effects(r@) == self@.on_assistant_status(request_id@, message@).1,
    {
        let owner = self.route_stream(request_id.as_str());
        if text::same_opt(&owner, &self.current_conversation_id) && self.current_stream().is_some() {
            just(Effect::SetChatStatus(message))
        } else {
            nothing()
        }
    }

    fn on_stream_chunk(&mut self, request_id: String, chunk: String) -> (r: Vec<Effect>)
        ensures
            final(self)@ == old(self)@.on_stream_chunk(request_id@, chunk@).0,
            effect::effects(r@) == old(self)@.on_stream_chunk(request_id@, chunk@).1,
    {
        let origin = match self.route_stream(request_id.as_str()) {
            Some(id) => id,
            None => {
                return nothing();
            },
        };
        proof {
            conversation::owner_is_streaming(self@.open, request_id@);
        }
        let stream = self.stream_of_mut(origin.as_str()).unwrap();
        if stream.request_id.is_none() {
            stream.request_id = Some(request_id);
        }
        let first_chunk = stream.buffer.as_str().is_empty();
        stream.buffer.append(chunk.as_str());
        if !self.is_active_conversation(origin.as_str()) {
            nothing()
        } else if first_chunk {
            both(Effect::ClearChatStatus, Effect::ReceiveChunk(chunk))
        } else {
            just(Effect::ReceiveChunk(chunk))
        }
    }

    fn on_stream_complete(&mut self, request_id: String, reply: String) -> (r: Vec<Effect>)
        ensures
            final(self)@ == old(self)@.on_stream_complete(request_id@, reply@).0,
            effect::effects(r@) == old(self)@.on_stream_complete(request_id@, reply@).1,
    {
        let origin = match self.route_stream(request_id.as_str()) {
            Some(id) => id,
            None => {
                return nothing();
            },
        };
        proof {
            conversation::owner_is_streaming(self@.open, request_id@);
        }
        let narrates = self.narrate_for(origin.as_str());
        let stream = self.take_stream(origin.as_str());
        let narrate = !stream.say_this_spoken_this_turn && !stream.external && narrates;
        let is_active = self.is_active_conversation(origin.as_str());
        let report = Effect::TurnFinished {
            conversation_id: origin.clone(),
            request_id,
            idempotency_key: stream.idempotency_key,
            outcome: TurnOutcome::Completed,
        };
        if !is_active {
            return just(report);
        }
        self.push_message(local_message("assistant", reply.clone(), None));
        let spoken = if narrate {
            just(Effect::Speak(reply.clone()))
        } else {
            nothing()
        };
        let ghost told = seq![
            EffectV::CompleteStreaming(reply@),
            EffectV::FetchScratchpad(origin@),
            report@,
        ];
        let shown = vec![
            Effect::CompleteStreaming(reply),
            Effect::FetchScratchpad(origin),
            report,
        ];
        assert(effect::effects(shown@) =~= told);
        let flush = self.flush_outbox();
        extended(extended(extended(just(Effect::ClearChatStatus), spoken), shown), flush)
    }

    /// Whether `id`, which has a model, has no message queued.
    fn has_nothing_queued(&self, id: &str) -> (r: bool)
        requires
            self@.open.contains_key(id@),
        ensures
            r == transition::nothing_queued(self@.open[id@]),
    {
        self.open.get(id).unwrap().outbox.len() == 0
    }

    fn on_stream_error(&mut self, request_id: String, error: String) -> (r: Vec<Effect>)
        ensures
            final(self)@ == old(self)@.on_stream_error(request_id@, error@).0,
            effect::effects(r@) == old(self)@.on_stream_error(request_id@, error@).1,
    {
        let origin = match self.route_stream(request_id.as_str()) {
            Some(id) => id,
            None => {
                return nothing();
            },
        };
        proof {
            conversation::owner_is_streaming(self@.open, request_id@);
        }
        let offered = self.has_nothing_queued(origin.as_str());
        let stream = self.take_stream(origin.as_str());
        let is_active = self.is_active_conversation(origin.as_str());
        let status = Effect::SetStatusText(text::concat("Error: ", error.as_str()));
        let report = Effect::TurnFinished {
            conversation_id: origin,
            request_id,
            idempotency_key: stream.idempotency_key,
            outcome: TurnOutcome::Failed(error),
        };
        let told = both(status, report);
        if !is_active {
            return told;
        }
        let flush = self.flush_outbox();
        if offered {
            self.pending_retry_prompt = self.last_user_prompt_in_view();
        }
        extended(extended(just(Effect::ClearChatStatus), told), flush)
    }

    fn on_conversation_warning(
        &mut self,
        conversation_id: String,
        warning: ConversationWarning,
    ) -> (r: Vec<Effect>)
        ensures
            final(self)@ == old(self)@.on_conversation_warning(conversation_id@, warning@).0,
            effect::effects(r@) == old(self)@.on_conversation_warning(
                conversation_id@,
                warning@,
            ).1,
    {
        match &warning {
            ConversationWarning::DanglingModelSelection { previous_selection, fallback_to } => {
                let toast = Effect::ShowToast(fallback_notice(previous_selection, fallback_to));
                if self.is_active_conversation(conversation_id.as_str()) {
                    if let Some(d) = self.current_conversation_mut() {
                        d.model_selection = None;
                    }
                    both(Effect::SetModelSelection(None), toast)
                } else {
                    just(toast)
                }
            },
        }
    }

    /// Handle a call of `say_this`, given the text it was asked to say (`None`
    /// when its arguments are malformed).
    pub fn say_this(
        &mut self,
        task_id: String,
        conversation_id: String,
        tool_call_id: String,
        said: Option<String>,
    ) -> (r: Vec<Effect>)
        ensures
            final(self)@ == old(self)@.on_say_this(
                task_id@,
                conversation_id@,
                tool_call_id@,
                text::opt_view(said),
            ).0,
            effect::effects(r@) == old(self)@.on_say_this(
                task_id@,
                conversation_id@,
                tool_call_id@,
                text::opt_view(said),
            ).1,
            final(self)@.wf(),
    {
        self.open.note_finite();
        let said = match said {
            Some(said) => said,
            None => {
                return just(
                    Effect::SubmitClientToolResult {
                        task_id,
                        tool_call_id,
                        result: Err("say_this requires a string `text` argument".to_owned()),
                    },
                );
            },
        };
        if self.is_active_conversation(conversation_id.as_str()) && self.say_this_spoken_for(
            conversation_id.as_str(),
        ) {
            if let Some(stream) = self.stream_of_mut(conversation_id.as_str()) {
                stream.say_this_spoken_this_turn = true;
            }
            let speak = Effect::Speak(said.clone());
            let out = extended(
                both(
                    speak,
                    Effect::AddLocalMessage { content: said, kind: MessageKind::Spoken },
                ),
                just(
                    Effect::SubmitClientToolResult {
                        task_id,
                        tool_call_id,
                        result: Ok("spoken".to_owned()),
                    },
                ),
            );
            assert(effect::effects(out@) =~= old(self)@.on_say_this(
                task_id@,
                conversation_id@,
                tool_call_id@,
                Some(said@),
            ).1);
            out
        } else {
            both(
                Effect::AddLocalMessage { content: said, kind: MessageKind::SpeechDisabled },
                Effect::SubmitClientToolResult {
                    task_id,
                    tool_call_id,
                    result: Ok(
                        "speech mode disabled; shown to the user as text instead of spoken".to_owned(),
                    ),
                },
            )
        }
    }

    /// Handle a call that sets the level of its conversation.
    fn on_level_call(
        &mut self,
        task_id: String,
        conversation_id: String,
        tool_call_id: String,
        level: AdeleOutput,
        reply: &str,
    ) -> (r: Vec<Effect>)
        ensures
            final(self)@ == old(self)@.on_level_call(
                task_id@,
                conversation_id@,
                tool_call_id@,
                level,
                reply@,
            ).0,
            effect::effects(r@) == old(self)@.on_level_call(
                task_id@,
                conversation_id@,
                tool_call_id@,
                level,
                reply@,
            ).1,
    {
        let model = self.open.entry_or_default(conversation_id.as_str());
        model.adele_output = level;
        let shown = if self.is_active_conversation(conversation_id.as_str()) {
            just(Effect::SetAdeleOutputDropdown(level))
        } else {
            nothing()
        };
        let out = extended(
            shown,
            just(
                Effect::SubmitClientToolResult {
                    task_id,
                    tool_call_id,
                    result: Ok(reply.to_owned()),
                },
            ),
        );
        assert(effect::effects(out@) =~= old(self)@.on_level_call(
            task_id@,
            conversation_id@,
            tool_call_id@,
            level,
            reply@,
        ).1);
        out
    }

    /// Handle a client-tool call, given the text that its arguments ask to say.
    /// Every call is resolved, so that the suspended turn goes on.
    pub fn client_tool_call(
        &mut self,
        task_id: String,
        conversation_id: String,
        tool_call_id: String,
        tool_name: String,
        said: Option<String>,
    ) -> (r: Vec<Effect>)
        ensures
            final(self)@ == old(self)@.on_client_tool_call(
                task_id@,
                conversation_id@,
                tool_call_id@,
                tool_name@,
                text::opt_view(said),
            ).0,
            effect::effects(r@) == old(self)@.on_client_tool_call(
                task_id@,
                conversation_id@,
                tool_call_id@,
                tool_name@,
                text::opt_view(said),
            ).1,
            final(self)@.wf(),
    {
        self.open.note_finite();
        if text::same(tool_name.as_str(), "say_this") {
            self.say_this(task_id, conversation_id, tool_call_id, said)
        } else if text::same(tool_name.as_str(), "request_voice") {
            self.on_level_call(
                task_id,
                conversation_id,
                tool_call_id,
                AdeleOutput::OnDemand,
                "voice mode on (on-demand): your written reply is shown as text and not read aloud; speak by calling say_this, kept brief and conversational",
            )
        } else if text::same(tool_name.as_str(), "stop_voice") {
            self.on_level_call(
                task_id,
                conversation_id,
                tool_call_id,
                AdeleOutput::Disabled,
                "voice mode off; back to text-only",
            )
        } else {
            let mut reason = text::concat(
                "this client cannot run the tool \"",
                tool_name.as_str(),
            );
            reason.append("\"");
            just(Effect::SubmitClientToolResult { task_id, tool_call_id, result: Err(reason) })
        }
    }

    fn on_disconnected(&mut self, reason: String) -> (r: Vec<Effect>)
        ensures
            final(self)@ == old(self)@.on_disconnected(reason@).0,
            effect::effects(r@) == old(self)@.on_disconnected(reason@).1,
    {
        let told = text::concat("Disconnected: ", reason.as_str());
        let partial = match self.current_stream() {
            Some(s) => if s.buffer.as_str().is_empty() {
                None
            } else {
                Some(text::concat(s.buffer.as_str(), "\n\n[Connection lost]"))
            },
            None => None,
        };
        let ended = self.end_every_turn(told.as_str());
        let mut out = vec![
            Effect::ClearClient,
            Effect::SetSendSensitive(false),
            Effect::SetStatusText(told),
        ];
        let ghost head = seq![
            EffectV::ClearClient,
            EffectV::SetSendSensitive(false),
            EffectV::SetStatusText(told@),
        ];
        assert(effect::effects(out@) =~= head);
        if let Some(full) = partial {
            self.push_message(local_message("assistant", full.clone(), None));
            out.push(Effect::CompleteStreaming(full));
            assert(effect::effects(out@) =~= head.push(EffectV::CompleteStreaming(full@)));
        }
        extended(out, ended)
    }

    /// Apply a message: change the state, and return the effects to perform.
    pub fn apply(&mut self, msg: UiMessage) -> (r: Vec<Effect>)
        ensures
            final(self)@ == old(self)@.step(msg@).0,
            effect::effects(r@) == old(self)@.step(msg@).1,
            final(self)@.wf(),
    {
        let out = match msg {
            UiMessage::ConversationsLoaded(list) => self.on_conversations_loaded(list),
            UiMessage::ConversationListRefetched(list) => self.on_list_refetched(list),
            UiMessage::ConversationLoaded(detail) => self.on_conversation_loaded(detail),
            UiMessage::ConversationReloaded(detail) => self.on_conversation_reloaded(detail),
            UiMessage::ConversationCreated { id } => {
                self.current_conversation_id = Some(id);
                nothing()
            },
            UiMessage::ConversationDeleted { id } => self.on_conversation_deleted(id),
            UiMessage::ConversationRenamed { id, title } => self.on_retitled(id, title),
            UiMessage::SubmitPrompt { prompt, idempotency_key } => self.on_submit_prompt(
                prompt,
                idempotency_key,
            ),
            UiMessage::EditQueued { index } => self.on_edit_queued(index),
            UiMessage::RemoveQueued { index } => self.on_remove_queued(index),
            UiMessage::CancelQueuedEdit => self.on_cancel_queued_edit(),
            UiMessage::SendFailed { conversation_id, prompt } => self.on_send_failed(
                conversation_id,
                prompt,
            ),
            UiMessage::StreamChunk { request_id, chunk } => self.on_stream_chunk(request_id, chunk),
            UiMessage::StreamComplete { request_id, full_response } => self.on_stream_complete(
                request_id,
                full_response,
            ),
            UiMessage::StreamError { request_id, error } => self.on_stream_error(request_id, error),
            UiMessage::AssistantStatus { request_id, message } => self.on_assistant_status(
                request_id,
                message,
            ),
            UiMessage::UserMessageAdded {
                conversation_id,
                request_id,
                content,
                idempotency_key,
            } => self.on_user_message_added(conversation_id, request_id, content, idempotency_key),
            UiMessage::ContextUsage {
                conversation_id,
                used_tokens,
                budget_tokens,
                compaction_active,
            } => if self.is_active_conversation(conversation_id.as_str()) {
                just(
                    Effect::SetContextUsage(
                        Some(ContextUsageView { used_tokens, budget_tokens, compaction_active }),
                    ),
                )
            } else {
                nothing()
            },
            UiMessage::TitleChanged { conversation_id, title } => self.on_retitled(
                conversation_id,
                title,
            ),
            UiMessage::ConversationListChanged { conversation_id: _ } => just(
                Effect::RefetchConversationList,
            ),
            UiMessage::ConversationWarning { conversation_id, warning } =>
                self.on_conversation_warning(conversation_id, warning),
            UiMessage::PromptSent { task_id, conversation_id, idempotency_key } =>
                self.on_prompt_sent(task_id, conversation_id, idempotency_key),
            UiMessage::ModelsLoaded(listings) => {
                let visible = listings.len() > 0;
                both(Effect::SetModels(listings), Effect::SetModelPickerVisible(visible))
            },
            UiMessage::DefaultModelLoaded(default) => just(Effect::SetDefaultModel(default)),
            UiMessage::Connected { label } => both(
                Effect::SetStatusText(label),
                Effect::SetSendSensitive(true),
            ),
            UiMessage::Disconnected { reason } => self.on_disconnected(reason),
            UiMessage::StatusUpdate(status) => just(Effect::SetStatusText(status)),
            UiMessage::Error(error) => just(
                Effect::SetStatusText(text::concat("Error: ", error.as_str())),
            ),
            UiMessage::TasksLoaded(tasks) => both(
                Effect::TasksReplaceAll(tasks),
                Effect::RefreshSidePaneTasks,
            ),
            UiMessage::TaskStarted(task) => both(
                Effect::TaskStarted(task),
                Effect::RefreshSidePaneTasks,
            ),
            UiMessage::TaskProgress { id, progress_hint } => both(
                Effect::TaskProgress { id, progress_hint },
                Effect::RefreshSidePaneTasks,
            ),
            UiMessage::TaskLogAppended { id, entry } => just(
                Effect::TaskLogAppended { id, entry },
            ),
            UiMessage::TaskCompleted { id } => both(
                Effect::TaskCompleted { id },
                Effect::RefreshSidePaneTasks,
            ),
            UiMessage::ConversationScratchpadLoaded { conversation_id, notes } =>
                if self.is_active_conversation(conversation_id.as_str()) {
                    just(Effect::SidePaneSetScratchpad(notes))
                } else {
                    nothing()
                },
            UiMessage::ScratchpadChanged { conversation_id } => if self.is_active_conversation(
                conversation_id.as_str(),
            ) {
                just(Effect::FetchScratchpad(conversation_id))
            } else {
                nothing()
            },
            UiMessage::KnowledgeChanged => nothing(),
            UiMessage::SetVoiceIn { conversation_id, enabled } => {
                let model = self.open.entry_or_default(conversation_id.as_str());
                model.voice_in = enabled;
                nothing()
            },
            UiMessage::SetAdeleOutput { conversation_id, level } => {
                let model = self.open.entry_or_default(conversation_id.as_str());
                model.adele_output = level;
                nothing()
            },
            UiMessage::ClientToolCall {
                task_id,
                conversation_id,
                tool_call_id,
                tool_name,
                arguments,
            } => {
                let said = say_this_text(&arguments);
                self.client_tool_call(task_id, conversation_id, tool_call_id, tool_name, said)
            },
        };
        self.open.note_finite();
        out
    }
}

} // verus!
