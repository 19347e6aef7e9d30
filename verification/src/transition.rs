//! The window's state machine, as a mathematical function: what each message
//! does to the state, and which effects it gives out.

use serde_json::Value;
use vstd::prelude::*;

use crate::api::{
    ChatMessageV, DetailV, InputSchema, MessageKind, SelectionV, SummaryV, ToolV, WarningV,
};
use crate::context_usage::ContextUsageView;
use crate::conversation;
use crate::conversation::{ConversationV, EditV, QueuedV, StreamV};
use crate::effect::{EffectV, OutcomeV};
use crate::json;
use crate::message::UiMessageV;
use crate::text;
use crate::voice::AdeleOutput;

verus! {

/// What separates queued messages that are sent as one.
pub const QUEUE_JOIN: &'static str = "\n\n";

/// The window's state.
#[verifier::ext_equal]
pub struct WindowV {
    pub conversations: Seq<SummaryV>,
    pub current: Option<Seq<char>>,
    pub open: Map<Seq<char>, ConversationV>,
    pub debug_enabled: bool,
    pub pending_retry_prompt: Option<Seq<char>>,
}

/// A transcript message that the daemon has not keyed.
pub open spec fn local_message(
    role: Seq<char>,
    content: Seq<char>,
    key: Option<Seq<char>>,
) -> ChatMessageV {
    ChatMessageV {
        id: Seq::empty(),
        role,
        content,
        kind: MessageKind::Normal,
        idempotency_key: key,
        created_at_ms: None,
    }
}

/// Whether a message is shown: all of them in debug mode; otherwise the user's,
/// and the assistant's that are not blank.
pub open spec fn is_shown(m: ChatMessageV, debug: bool) -> bool {
    debug || m.role == "user"@ || (m.role == "assistant"@ && !text::is_blank(m.content))
}

/// A conversation with the messages that are shown.
pub open spec fn shown(d: DetailV, debug: bool) -> DetailV {
    DetailV { messages: d.messages.filter(|m: ChatMessageV| is_shown(m, debug)), ..d }
}

/// A conversation list with the title of `id` replaced.
pub open spec fn retitled(s: Seq<SummaryV>, id: Seq<char>, title: Seq<char>) -> Seq<SummaryV> {
    s.map_values(|c: SummaryV|
        if c.id == id {
            SummaryV { title, ..c }
        } else {
            c
        })
}

/// Whether a conversation list holds `id`.
pub open spec fn lists(s: Seq<SummaryV>, id: Seq<char>) -> bool {
    exists|i: int| 0 <= i < s.len() && (#[trigger] s[i]).id == id
}

/// The content of the last message by the user, if there is one.
pub open spec fn last_user_content(s: Seq<ChatMessageV>) -> Option<Seq<char>>
    decreases s.len(),
{
    if s.len() == 0 {
        None
    } else if s.last().role == "user"@ {
        Some(s.last().content)
    } else {
        last_user_content(s.drop_last())
    }
}

/// The report of a turn's end.
pub open spec fn finished(
    conversation_id: Seq<char>,
    request_id: Seq<char>,
    stream: StreamV,
    outcome: OutcomeV,
) -> EffectV {
    EffectV::TurnFinished {
        conversation_id,
        request_id,
        idempotency_key: stream.idempotency_key,
        outcome,
    }
}

/// The id a stream was claimed by, or empty text while it is unclaimed.
pub open spec fn known_request_id(stream: StreamV) -> Seq<char> {
    match stream.request_id {
        Some(id) => id,
        None => Seq::empty(),
    }
}

/// A queue with `item` put back into `slot`, or at the end when the queue is
/// shorter than that.
pub open spec fn put_back(queue: Seq<QueuedV>, slot: nat, item: QueuedV) -> Seq<QueuedV> {
    queue.insert(
        if slot <= queue.len() {
            slot as int
        } else {
            queue.len() as int
        },
        item,
    )
}

/// The queue once a message under edit is back in its slot, unchanged.
pub open spec fn outbox_with_edit(m: ConversationV) -> Seq<QueuedV> {
    match m.editing {
        Some(e) => put_back(m.outbox, e.index, QueuedV { text: e.original, idempotency_key: e.key }),
        None => m.outbox,
    }
}

/// Whether no message is queued. One under edit is in the composer, not in the
/// queue.
pub open spec fn nothing_queued(m: ConversationV) -> bool {
    m.outbox.len() == 0
}

/// The client tools on offer: entering and leaving voice mode.
pub open spec fn voice_tools() -> Seq<ToolV> {
    seq![
        ToolV {
            name: "request_voice"@,
            description: "Switch this conversation into spoken voice mode (the user asked to talk by voice); replies will be read aloud and kept conversational."@,
            input_schema: InputSchema::NoArguments,
        },
        ToolV {
            name: "stop_voice"@,
            description: "Leave voice mode; go back to text-only."@,
            input_schema: InputSchema::NoArguments,
        },
    ]
}

/// The text that the arguments of a `say_this` call ask to say: their string
/// member `text`, if they have one.
pub open spec fn said_text(arguments: Value) -> Option<Seq<char>> {
    if json::text_members(arguments).contains_key("text"@) {
        Some(json::text_members(arguments)["text"@])
    } else {
        None
    }
}

impl WindowV {
    /// Finitely many conversations are modelled.
    pub open spec fn wf(self) -> bool {
        self.open.dom().finite()
    }

    /// Whether `id` is the conversation in view.
    pub open spec fn is_active(self, id: Seq<char>) -> bool {
        self.current == Some(id)
    }

    /// The model of `id`, fresh when nothing is recorded for it.
    pub open spec fn model(self, id: Seq<char>) -> ConversationV {
        if self.open.contains_key(id) {
            self.open[id]
        } else {
            conversation::fresh()
        }
    }

    /// The state with the model of `id` replaced.
    pub open spec fn with_model(self, id: Seq<char>, m: ConversationV) -> WindowV {
        WindowV { open: self.open.insert(id, m), ..self }
    }

    /// The model of the conversation in view, if there is one.
    pub open spec fn current_model(self) -> Option<ConversationV> {
        match self.current {
            Some(id) => if self.open.contains_key(id) {
                Some(self.open[id])
            } else {
                None
            },
            None => None,
        }
    }

    /// The reply streaming into the conversation in view, if any.
    pub open spec fn current_stream(self) -> Option<StreamV> {
        match self.current_model() {
            Some(m) => m.stream,
            None => None,
        }
    }

    /// The transcript in view, if it is loaded.
    pub open spec fn current_detail(self) -> Option<DetailV> {
        match self.current_model() {
            Some(m) => m.detail,
            None => None,
        }
    }

    /// The state with the transcript in view replaced.
    pub open spec fn with_current_detail(self, d: DetailV) -> WindowV {
        match self.current {
            Some(id) => self.with_model(
                id,
                ConversationV { detail: Some(d), ..self.model(id) },
            ),
            None => self,
        }
    }

    /// The state with a message appended to the transcript in view, if one is
    /// loaded.
    pub open spec fn with_message(self, m: ChatMessageV) -> WindowV {
        match self.current_detail() {
            Some(d) => self.with_current_detail(
                DetailV { messages: d.messages.push(m), ..d },
            ),
            None => self,
        }
    }

    /// Whether any reply is in flight.
    pub open spec fn any_streaming(self) -> bool {
        conversation::some_streaming(self.open)
    }

    /// The level of spoken output in view.
    pub open spec fn current_level(self) -> AdeleOutput {
        match self.current {
            Some(id) => self.model(id).adele_output,
            None => AdeleOutput::Disabled,
        }
    }

    /// The last message by the user in view, if there is one.
    pub open spec fn last_user_prompt(self) -> Option<Seq<char>> {
        match self.current_detail() {
            Some(d) => last_user_content(d.messages),
            None => None,
        }
    }

    /// The queue in view, as the client shows it.
    pub open spec fn queue_snapshot(self) -> EffectV {
        match self.current_model() {
            Some(m) => EffectV::SetQueuedMessages {
                messages: conversation::texts(m.outbox),
                editing: match m.editing {
                    Some(e) => Some(e.index),
                    None => None,
                },
            },
            None => EffectV::SetQueuedMessages { messages: Seq::empty(), editing: None },
        }
    }

    /// The conversation of `d` in view with its transcript; the transcript that
    /// was in view before is dropped, the rest of its model is kept.
    pub open spec fn switched_to(self, d: DetailV) -> WindowV {
        let left = match self.current {
            Some(out) => if out != d.id && self.open.contains_key(out) {
                self.with_model(out, ConversationV { detail: None, ..self.open[out] })
            } else {
                self
            },
            None => self,
        };
        WindowV { current: Some(d.id), ..left }.with_current_detail(d)
    }

    /// A transcript replaced, whichever conversation is in view.
    pub open spec fn cached(self, d: DetailV) -> WindowV {
        self.with_model(d.id, ConversationV { detail: Some(d), ..self.model(d.id) })
    }

    /// A draft saved. An empty one is not recorded for a conversation without a
    /// model.
    pub open spec fn with_draft(self, id: Seq<char>, draft: Seq<char>) -> WindowV {
        if self.open.contains_key(id) || draft.len() > 0 {
            self.with_model(id, ConversationV { composer: draft, ..self.model(id) })
        } else {
            self
        }
    }

    /// A prompt sent into the conversation in view: its message joins the
    /// transcript, and the send goes out.
    pub open spec fn sent(self, prompt: Seq<char>, key: Option<Seq<char>>) -> (
        WindowV,
        Seq<EffectV>,
    ) {
        (
            self.with_message(local_message("user"@, prompt, key)),
            seq![
                EffectV::SendPrompt {
                    conversation_id: self.current->0,
                    prompt,
                    system_refinement: self.current_level().refinement(),
                    idempotency_key: key,
                },
            ],
        )
    }

    /// Whether the queue in view can be sent now: something is queued, no reply
    /// is streaming, no earlier flush awaits its acknowledgement, and no queued
    /// message is being edited.
    pub open spec fn can_flush(self) -> bool {
        match self.current_model() {
            Some(m) => {
                &&& m.stream is None
                &&& m.pending_flush.len() == 0
                &&& m.editing is None
                &&& m.outbox.len() > 0
            },
            None => false,
        }
    }

    /// The queue in view sent as one prompt, if it can be sent now. The queued
    /// messages are held until the send is acknowledged; the prompt takes the
    /// key of the first of them.
    pub open spec fn flushed(self) -> (WindowV, Seq<EffectV>) {
        if self.can_flush() {
            let id = self.current->0;
            let m = self.open[id];
            let parked = self.with_model(
                id,
                ConversationV { outbox: Seq::empty(), pending_flush: m.outbox, ..m },
            );
            let (w, out) = parked.sent(
                text::joined(conversation::texts(m.outbox), QUEUE_JOIN@),
                m.outbox[0].idempotency_key,
            );
            (w, out.push(w.queue_snapshot()))
        } else {
            (self, Seq::empty())
        }
    }

    /// Every reply in flight dropped, and reported as failed for `reason` in
    /// ascending order of conversation.
    pub open spec fn all_turns_ended(self, reason: Seq<char>) -> (WindowV, Seq<EffectV>) {
        (
            WindowV { open: conversation::without_streams(self.open), ..self },
            conversation::streams(self.open).map_values(
                |p: (Seq<char>, StreamV)|
                    finished(p.0, known_request_id(p.1), p.1, OutcomeV::Failed(reason)),
            ),
        )
    }

    // -----------------------------------------------------------------------
    // Messages
    // -----------------------------------------------------------------------

    pub open spec fn on_conversations_loaded(self, list: Seq<SummaryV>) -> (
        WindowV,
        Seq<EffectV>,
    ) {
        let w = WindowV { conversations: list, ..self };
        let head = seq![EffectV::SetConversations(list), EffectV::EnsureActiveConversation];
        match self.current {
            Some(id) => if lists(list, id) {
                let fetch = if self.current_detail() is Some && self.current_detail()->0.id
                    == id {
                    EffectV::ReloadConversation(id)
                } else {
                    EffectV::LoadConversation(id)
                };
                (w, head + seq![EffectV::SubscribeConversations(seq![id]), fetch])
            } else {
                (w, head)
            },
            None => (w, head),
        }
    }

    /// What the chat shows of replies in flight right after a switch: the prefix
    /// of the one in view; or, when only others are in flight, no status line.
    pub open spec fn switch_reconciliation(self) -> Seq<EffectV> {
        match self.current_stream() {
            Some(s) => if s.buffer.len() > 0 {
                seq![EffectV::ReceiveChunk(s.buffer)]
            } else {
                Seq::empty()
            },
            None => if self.any_streaming() {
                seq![EffectV::ClearChatStatus]
            } else {
                Seq::empty()
            },
        }
    }

    pub open spec fn on_conversation_loaded(self, d: DetailV) -> (WindowV, Seq<EffectV>) {
        let w = self.switched_to(d);
        let (flushed, flush) = w.flushed();
        (
            flushed,
            seq![
                EffectV::SetModelSelection(d.model_selection),
                EffectV::LoadConversationIntoChat(shown(d, self.debug_enabled)),
                EffectV::SetContextUsage(None),
                EffectV::SubscribeConversations(seq![d.id]),
                EffectV::SidePaneSetScratchpad(Seq::empty()),
                EffectV::RefreshSidePaneTasks,
                EffectV::FetchScratchpad(d.id),
            ] + w.switch_reconciliation() + flush + seq![flushed.queue_snapshot()],
        )
    }

    pub open spec fn on_conversation_reloaded(self, d: DetailV) -> (WindowV, Seq<EffectV>) {
        if self.is_active(d.id) {
            (
                self.cached(d),
                seq![
                    EffectV::LoadConversationIntoChat(shown(d, self.debug_enabled)),
                    EffectV::SidePaneSetScratchpad(Seq::empty()),
                    EffectV::RefreshSidePaneTasks,
                    EffectV::FetchScratchpad(d.id),
                ],
            )
        } else {
            (self, Seq::empty())
        }
    }

    /// The reports of the turn of `id`, if one is in flight, when its conversation
    /// is deleted.
    pub open spec fn deletion_reports(self, id: Seq<char>) -> Seq<EffectV> {
        if conversation::is_streaming(self.open, id) {
            let s = self.open[id].stream->0;
            seq![finished(id, known_request_id(s), s, OutcomeV::Failed("Conversation deleted"@))]
        } else {
            Seq::empty()
        }
    }

    /// A conversation and its model gone. A turn of it that was in flight is over,
    /// and reported as failed.
    pub open spec fn on_conversation_deleted(self, id: Seq<char>) -> (WindowV, Seq<EffectV>) {
        let w = WindowV {
            conversations: self.conversations.filter(|c: SummaryV| c.id != id),
            open: self.open.remove(id),
            current: if self.is_active(id) {
                None
            } else {
                self.current
            },
            ..self
        };
        (
            w,
            seq![EffectV::SetConversations(w.conversations)] + (if self.is_active(id) {
                seq![
                    EffectV::ClearChat,
                    EffectV::SidePaneSetScratchpad(Seq::empty()),
                    EffectV::RefreshSidePaneTasks,
                    EffectV::EnsureActiveConversation,
                ]
            } else {
                Seq::empty()
            }) + self.deletion_reports(id),
        )
    }

    pub open spec fn on_retitled(self, id: Seq<char>, title: Seq<char>) -> (
        WindowV,
        Seq<EffectV>,
    ) {
        let w = WindowV { conversations: retitled(self.conversations, id, title), ..self };
        (w, seq![EffectV::SetConversations(w.conversations)])
    }

    pub open spec fn on_list_refetched(self, list: Seq<SummaryV>) -> (WindowV, Seq<EffectV>) {
        (
            WindowV { conversations: list, ..self },
            seq![EffectV::SetConversations(list), EffectV::EnsureActiveConversation],
        )
    }

    /// The state with an edit ended: the edited text is back in its slot under its
    /// own key, or dropped when it is blank.
    pub open spec fn edit_ended(self, id: Seq<char>, e: EditV, prompt: Seq<char>) -> WindowV {
        let m = self.open[id];
        self.with_model(
            id,
            ConversationV {
                outbox: if text::is_blank(prompt) {
                    m.outbox
                } else {
                    put_back(m.outbox, e.index, QueuedV { text: prompt, idempotency_key: e.key })
                },
                composer: Seq::empty(),
                editing: None,
                ..m
            },
        )
    }

    /// The end of an edit: the queue is sent if it can be sent now, and shown if
    /// not.
    pub open spec fn on_edit_submitted(self, id: Seq<char>, e: EditV, prompt: Seq<char>) -> (
        WindowV,
        Seq<EffectV>,
    ) {
        let w = self.edit_ended(id, e, prompt);
        let cleared = EffectV::SetComposerText(Seq::empty());
        if w.can_flush() {
            let (flushed, flush) = w.flushed();
            (flushed, seq![cleared] + flush)
        } else {
            (w, seq![cleared, w.queue_snapshot()])
        }
    }

    /// The model with a submitted prompt queued (unless it is blank) and the
    /// composer cleared.
    pub open spec fn queued(m: ConversationV, prompt: Seq<char>, key: Option<Seq<char>>) -> ConversationV {
        ConversationV {
            outbox: if text::is_blank(prompt) {
                m.outbox
            } else {
                m.outbox.push(QueuedV { text: prompt, idempotency_key: key })
            },
            composer: Seq::empty(),
            ..m
        }
    }

    pub open spec fn on_submit_prompt(self, prompt: Seq<char>, key: Option<Seq<char>>) -> (
        WindowV,
        Seq<EffectV>,
    ) {
        match self.current {
            None => (self, Seq::empty()),
            Some(id) => match self.current_model() {
                None => if prompt.len() == 0 {
                    (self, Seq::empty())
                } else {
                    self.sent(prompt, key)
                },
                Some(m) => match m.editing {
                    Some(e) => self.on_edit_submitted(id, e, prompt),
                    None => if m.stream is Some {
                        let w = if text::is_blank(prompt) {
                            self
                        } else {
                            self.with_model(id, Self::queued(m, prompt, key))
                        };
                        (
                            w,
                            seq![
                                EffectV::SetComposerText(Seq::empty()),
                                w.queue_snapshot(),
                            ],
                        )
                    } else if m.outbox.len() > 0 {
                        let w = self.with_model(id, Self::queued(m, prompt, key));
                        if w.can_flush() {
                            w.flushed()
                        } else if text::is_blank(prompt) {
                            (w, Seq::empty())
                        } else {
                            (
                                w,
                                seq![
                                    EffectV::SetComposerText(Seq::empty()),
                                    w.queue_snapshot(),
                                ],
                            )
                        }
                    } else if prompt.len() == 0 {
                        (self, Seq::empty())
                    } else {
                        self.with_model(
                            id,
                            ConversationV { composer: Seq::empty(), ..m },
                        ).sent(prompt, key)
                    },
                },
            },
        }
    }

    pub open spec fn on_edit_queued(self, index: nat) -> (WindowV, Seq<EffectV>) {
        match self.current_model() {
            None => (self, Seq::empty()),
            Some(m) => {
                let id = self.current->0;
                let all = outbox_with_edit(m);
                if index >= all.len() {
                    let w = self.with_model(
                        id,
                        ConversationV { outbox: all, editing: None, ..m },
                    );
                    (w, seq![EffectV::SetComposerText(Seq::empty()), w.queue_snapshot()])
                } else {
                    let item = all[index as int];
                    let w = self.with_model(
                        id,
                        ConversationV {
                            outbox: all.remove(index as int),
                            editing: Some(
                                EditV { index, original: item.text, key: item.idempotency_key },
                            ),
                            composer: item.text,
                            ..m
                        },
                    );
                    (w, seq![EffectV::SetComposerText(item.text), w.queue_snapshot()])
                }
            },
        }
    }

    pub open spec fn on_remove_queued(self, index: nat) -> (WindowV, Seq<EffectV>) {
        match self.current_model() {
            None => (self, Seq::empty()),
            Some(m) => if index >= m.outbox.len() {
                (self, Seq::empty())
            } else {
                let w = self.with_model(
                    self.current->0,
                    ConversationV {
                        outbox: m.outbox.remove(index as int),
                        editing: match m.editing {
                            Some(e) => Some(
                                EditV {
                                    index: if index < e.index {
                                        (e.index - 1) as nat
                                    } else {
                                        e.index
                                    },
                                    ..e
                                },
                            ),
                            None => None,
                        },
                        ..m
                    },
                );
                (w, seq![w.queue_snapshot()])
            },
        }
    }

    pub open spec fn on_cancel_queued_edit(self) -> (WindowV, Seq<EffectV>) {
        match self.current_model() {
            None => (self, Seq::empty()),
            Some(m) => if m.editing is None {
                (self, Seq::empty())
            } else {
                let w = self.with_model(
                    self.current->0,
                    ConversationV {
                        outbox: outbox_with_edit(m),
                        editing: None,
                        composer: Seq::empty(),
                        ..m
                    },
                );
                (w, seq![EffectV::SetComposerText(Seq::empty()), w.queue_snapshot()])
            },
        }
    }

    /// The state with the message of a failed send taken back, if it is still
    /// the last one of the conversation it was sent into and that is in view.
    pub open spec fn rolled_back(self, id: Seq<char>, prompt: Seq<char>) -> WindowV {
        match self.current_detail() {
            Some(d) => if d.id == id && d.messages.len() > 0 && d.messages.last().role
                == "user"@ && d.messages.last().content == prompt {
                self.with_current_detail(DetailV { messages: d.messages.drop_last(), ..d })
            } else {
                self
            },
            None => self,
        }
    }

    pub open spec fn on_send_failed(self, id: Seq<char>, prompt: Seq<char>) -> (
        WindowV,
        Seq<EffectV>,
    ) {
        let w = self.rolled_back(id, prompt);
        if w.open.contains_key(id) && w.open[id].pending_flush.len() > 0 {
            let m = w.open[id];
            let r = w.with_model(
                id,
                ConversationV {
                    outbox: m.pending_flush + m.outbox,
                    pending_flush: Seq::empty(),
                    ..m
                },
            );
            (
                r,
                if r.is_active(id) {
                    seq![r.queue_snapshot()]
                } else {
                    Seq::empty()
                },
            )
        } else {
            (w, Seq::empty())
        }
    }

    pub open spec fn on_prompt_sent(
        self,
        task_id: Seq<char>,
        id: Seq<char>,
        key: Option<Seq<char>>,
    ) -> (WindowV, Seq<EffectV>) {
        let m = self.model(id);
        let w = self.with_model(
            id,
            ConversationV {
                pending_flush: Seq::empty(),
                stream: Some(
                    StreamV {
                        request_id: None,
                        buffer: Seq::empty(),
                        say_this_spoken_this_turn: false,
                        external: false,
                        task_id,
                        idempotency_key: key,
                    },
                ),
                ..m
            },
        );
        (
            w,
            match m.stream {
                Some(replaced) => seq![
                    finished(
                        id,
                        known_request_id(replaced),
                        replaced,
                        OutcomeV::Failed("Replaced by a later send"@),
                    ),
                ],
                None => Seq::empty(),
            },
        )
    }

    /// The state with an unclaimed reply of `id` claimed by `request_id`.
    pub open spec fn claimed(self, id: Seq<char>, request_id: Seq<char>) -> WindowV {
        if conversation::is_pending(self.open, id) {
            let m = self.open[id];
            self.with_model(
                id,
                ConversationV {
                    stream: Some(StreamV { request_id: Some(request_id), ..m.stream->0 }),
                    ..m
                },
            )
        } else {
            self
        }
    }

    /// Whether the loaded transcript of `id` holds a message sent under `key`.
    pub open spec fn holds_key(self, id: Seq<char>, key: Option<Seq<char>>) -> bool {
        &&& key is Some
        &&& self.open.contains_key(id)
        &&& self.open[id].detail is Some
        &&& exists|i: int|
            0 <= i < self.open[id].detail->0.messages.len() && (
            #[trigger] self.open[id].detail->0.messages[i]).idempotency_key == key
    }

    /// Whether the last message in view is an unkeyed one by the user with the
    /// given content.
    pub open spec fn echoes_last(self, content: Seq<char>) -> bool {
        match self.current_detail() {
            Some(d) => {
                &&& d.messages.len() > 0
                &&& d.messages.last().id.len() == 0
                &&& d.messages.last().role == "user"@
                &&& d.messages.last().content == content
            },
            None => false,
        }
    }

    pub open spec fn on_user_message_added(
        self,
        id: Seq<char>,
        request_id: Seq<char>,
        content: Seq<char>,
        key: Option<Seq<char>>,
    ) -> (WindowV, Seq<EffectV>) {
        if self.holds_key(id, key) || conversation::is_pending(self.open, id) {
            (self.claimed(id, request_id), Seq::empty())
        } else if self.current_stream() is None && self.is_active(id) && !self.echoes_last(
            content,
        ) {
            let adopted = self.with_model(
                id,
                ConversationV {
                    stream: Some(
                        StreamV {
                            request_id: Some(request_id),
                            buffer: Seq::empty(),
                            say_this_spoken_this_turn: false,
                            external: true,
                            task_id: Seq::empty(),
                            idempotency_key: None,
                        },
                    ),
                    ..self.model(id)
                },
            );
            (
                adopted.with_message(local_message("user"@, content, None)),
                seq![EffectV::AddUserMessage(content)],
            )
        } else {
            (self, Seq::empty())
        }
    }

    pub open spec fn on_assistant_status(self, request_id: Seq<char>, message: Seq<char>) -> (
        WindowV,
        Seq<EffectV>,
    ) {
        (
            self,
            if conversation::owner(self.open, request_id) == self.current
                && self.current_stream() is Some {
                seq![EffectV::SetChatStatus(message)]
            } else {
                Seq::empty()
            },
        )
    }

    pub open spec fn on_context_usage(self, id: Seq<char>, usage: ContextUsageView) -> (
        WindowV,
        Seq<EffectV>,
    ) {
        (
            self,
            if self.is_active(id) {
                seq![EffectV::SetContextUsage(Some(usage))]
            } else {
                Seq::empty()
            },
        )
    }

    pub open spec fn on_stream_chunk(self, request_id: Seq<char>, chunk: Seq<char>) -> (
        WindowV,
        Seq<EffectV>,
    ) {
        match conversation::owner(self.open, request_id) {
            None => (self, Seq::empty()),
            Some(id) => {
                let m = self.open[id];
                let s = m.stream->0;
                let w = self.with_model(
                    id,
                    ConversationV {
                        stream: Some(
                            StreamV {
                                request_id: match s.request_id {
                                    Some(known) => Some(known),
                                    None => Some(request_id),
                                },
                                buffer: s.buffer + chunk,
                                ..s
                            },
                        ),
                        ..m
                    },
                );
                (
                    w,
                    if !self.is_active(id) {
                        Seq::empty()
                    } else if s.buffer.len() == 0 {
                        seq![EffectV::ClearChatStatus, EffectV::ReceiveChunk(chunk)]
                    } else {
                        seq![EffectV::ReceiveChunk(chunk)]
                    },
                )
            },
        }
    }

    /// The state with the reply of `id` dropped.
    pub open spec fn without_stream(self, id: Seq<char>) -> WindowV {
        self.with_model(id, ConversationV { stream: None, ..self.open[id] })
    }

    pub open spec fn on_stream_complete(self, request_id: Seq<char>, reply: Seq<char>) -> (
        WindowV,
        Seq<EffectV>,
    ) {
        match conversation::owner(self.open, request_id) {
            None => (self, Seq::empty()),
            Some(id) => {
                let s = self.open[id].stream->0;
                let w = self.without_stream(id);
                let report = finished(id, request_id, s, OutcomeV::Completed);
                if !self.is_active(id) {
                    (w, seq![report])
                } else {
                    let narrate = !s.say_this_spoken_this_turn && !s.external
                        && self.open[id].adele_output.narrates();
                    let (flushed, flush) = w.with_message(
                        local_message("assistant"@, reply, None),
                    ).flushed();
                    (
                        flushed,
                        seq![EffectV::ClearChatStatus] + (if narrate {
                            seq![EffectV::Speak(reply)]
                        } else {
                            Seq::empty()
                        }) + seq![
                            EffectV::CompleteStreaming(reply),
                            EffectV::FetchScratchpad(id),
                            report,
                        ] + flush,
                    )
                }
            },
        }
    }

    pub open spec fn on_stream_error(self, request_id: Seq<char>, error: Seq<char>) -> (
        WindowV,
        Seq<EffectV>,
    ) {
        match conversation::owner(self.open, request_id) {
            None => (self, Seq::empty()),
            Some(id) => {
                let w = self.without_stream(id);
                let told = seq![
                    EffectV::SetStatusText("Error: "@ + error),
                    finished(
                        id,
                        request_id,
                        self.open[id].stream->0,
                        OutcomeV::Failed(error),
                    ),
                ];
                if !self.is_active(id) {
                    (w, told)
                } else {
                    let (flushed, flush) = w.flushed();
                    (
                        if nothing_queued(self.open[id]) {
                            WindowV {
                                pending_retry_prompt: flushed.last_user_prompt(),
                                ..flushed
                            }
                        } else {
                            flushed
                        },
                        seq![EffectV::ClearChatStatus] + told + flush,
                    )
                }
            },
        }
    }

    /// The text that tells of a fallback from a dangling model selection.
    pub open spec fn fallback_notice(previous: SelectionV, fallback: SelectionV) -> Seq<char> {
        "The model \""@ + previous.model_id + "\" on connection \""@ + previous.connection_id
            + "\" is no longer available — falling back to \""@ + fallback.model_id + "\" on \""@
            + fallback.connection_id + "\"."@
    }

    pub open spec fn on_conversation_warning(self, id: Seq<char>, warning: WarningV) -> (
        WindowV,
        Seq<EffectV>,
    ) {
        match warning {
            WarningV::DanglingModelSelection { previous_selection, fallback_to } => {
                let toast = EffectV::ShowToast(
                    Self::fallback_notice(previous_selection, fallback_to),
                );
                if self.is_active(id) {
                    (
                        match self.current_detail() {
                            Some(d) => self.with_current_detail(
                                DetailV { model_selection: None, ..d },
                            ),
                            None => self,
                        },
                        seq![EffectV::SetModelSelection(None), toast],
                    )
                } else {
                    (self, seq![toast])
                }
            },
        }
    }

    /// The resolution of a client-tool call.
    pub open spec fn resolution(
        task_id: Seq<char>,
        tool_call_id: Seq<char>,
        result: Result<Seq<char>, Seq<char>>,
    ) -> EffectV {
        EffectV::SubmitClientToolResult { task_id, tool_call_id, result }
    }

    /// A call of `say_this`, given the text it was asked to say (`None` when its
    /// arguments are malformed). The text is spoken when its conversation is in
    /// view and its level speaks asides; otherwise it is shown.
    pub open spec fn on_say_this(
        self,
        task_id: Seq<char>,
        id: Seq<char>,
        tool_call_id: Seq<char>,
        said: Option<Seq<char>>,
    ) -> (WindowV, Seq<EffectV>) {
        match said {
            None => (
                self,
                seq![
                    Self::resolution(
                        task_id,
                        tool_call_id,
                        Err("say_this requires a string `text` argument"@),
                    ),
                ],
            ),
            Some(said) => if self.is_active(id) && self.model(id).adele_output.speaks() {
                (
                    if conversation::is_streaming(self.open, id) {
                        let m = self.open[id];
                        self.with_model(
                            id,
                            ConversationV {
                                stream: Some(
                                    StreamV { say_this_spoken_this_turn: true, ..m.stream->0 },
                                ),
                                ..m
                            },
                        )
                    } else {
                        self
                    },
                    seq![
                        EffectV::Speak(said),
                        EffectV::AddLocalMessage { content: said, kind: MessageKind::Spoken },
                        Self::resolution(task_id, tool_call_id, Ok("spoken"@)),
                    ],
                )
            } else {
                (
                    self,
                    seq![
                        EffectV::AddLocalMessage {
                            content: said,
                            kind: MessageKind::SpeechDisabled,
                        },
                        Self::resolution(
                            task_id,
                            tool_call_id,
                            Ok(
                                "speech mode disabled; shown to the user as text instead of spoken"@,
                            ),
                        ),
                    ],
                )
            },
        }
    }

    /// A call that sets the level of its conversation; shown when that is the
    /// one in view.
    pub open spec fn on_level_call(
        self,
        task_id: Seq<char>,
        id: Seq<char>,
        tool_call_id: Seq<char>,
        level: AdeleOutput,
        reply: Seq<char>,
    ) -> (WindowV, Seq<EffectV>) {
        (
            self.with_model(id, ConversationV { adele_output: level, ..self.model(id) }),
            (if self.is_active(id) {
                seq![EffectV::SetAdeleOutputDropdown(level)]
            } else {
                Seq::empty()
            }).push(Self::resolution(task_id, tool_call_id, Ok(reply))),
        )
    }

    pub open spec fn on_client_tool_call(
        self,
        task_id: Seq<char>,
        id: Seq<char>,
        tool_call_id: Seq<char>,
        tool_name: Seq<char>,
        said: Option<Seq<char>>,
    ) -> (WindowV, Seq<EffectV>) {
        if tool_name == "say_this"@ {
            self.on_say_this(task_id, id, tool_call_id, said)
        } else if tool_name == "request_voice"@ {
            self.on_level_call(
                task_id,
                id,
                tool_call_id,
                AdeleOutput::OnDemand,
                "voice mode on (on-demand): your written reply is shown as text and not read aloud; speak by calling say_this, kept brief and conversational"@,
            )
        } else if tool_name == "stop_voice"@ {
            self.on_level_call(
                task_id,
                id,
                tool_call_id,
                AdeleOutput::Disabled,
                "voice mode off; back to text-only"@,
            )
        } else {
            (
                self,
                seq![
                    Self::resolution(
                        task_id,
                        tool_call_id,
                        Err("this client cannot run the tool \""@ + tool_name + "\""@),
                    ),
                ],
            )
        }
    }

    pub open spec fn on_disconnected(self, reason: Seq<char>) -> (WindowV, Seq<EffectV>) {
        let text = "Disconnected: "@ + reason;
        let (ended, reports) = self.all_turns_ended(text);
        let head = seq![
            EffectV::ClearClient,
            EffectV::SetSendSensitive(false),
            EffectV::SetStatusText(text),
        ];
        match self.current_stream() {
            Some(s) => if s.buffer.len() > 0 {
                let partial = s.buffer + "\n\n[Connection lost]"@;
                (
                    ended.with_message(local_message("assistant"@, partial, None)),
                    head.push(EffectV::CompleteStreaming(partial)) + reports,
                )
            } else {
                (ended, head + reports)
            },
            None => (ended, head + reports),
        }
    }

    /// What one message does.
    pub open spec fn step(self, msg: UiMessageV) -> (WindowV, Seq<EffectV>) {
        match msg {
            UiMessageV::ConversationsLoaded(list) => self.on_conversations_loaded(list),
            UiMessageV::ConversationListRefetched(list) => self.on_list_refetched(list),
            UiMessageV::ConversationLoaded(d) => self.on_conversation_loaded(d),
            UiMessageV::ConversationReloaded(d) => self.on_conversation_reloaded(d),
            UiMessageV::ConversationCreated { id } => (
                WindowV { current: Some(id), ..self },
                Seq::empty(),
            ),
            UiMessageV::ConversationDeleted { id } => self.on_conversation_deleted(id),
            UiMessageV::ConversationRenamed { id, title } => self.on_retitled(id, title),
            UiMessageV::SubmitPrompt { prompt, idempotency_key } => self.on_submit_prompt(
                prompt,
                idempotency_key,
            ),
            UiMessageV::EditQueued { index } => self.on_edit_queued(index),
            UiMessageV::RemoveQueued { index } => self.on_remove_queued(index),
            UiMessageV::CancelQueuedEdit => self.on_cancel_queued_edit(),
            UiMessageV::SendFailed { conversation_id, prompt } => self.on_send_failed(
                conversation_id,
                prompt,
            ),
            UiMessageV::StreamChunk { request_id, chunk } => self.on_stream_chunk(
                request_id,
                chunk,
            ),
            UiMessageV::StreamComplete { request_id, full_response } => self.on_stream_complete(
                request_id,
                full_response,
            ),
            UiMessageV::StreamError { request_id, error } => self.on_stream_error(
                request_id,
                error,
            ),
            UiMessageV::AssistantStatus { request_id, message } => self.on_assistant_status(
                request_id,
                message,
            ),
            UiMessageV::UserMessageAdded {
                conversation_id,
                request_id,
                content,
                idempotency_key,
            } => self.on_user_message_added(conversation_id, request_id, content, idempotency_key),
            UiMessageV::ContextUsage {
                conversation_id,
                used_tokens,
                budget_tokens,
                compaction_active,
            } => self.on_context_usage(
                conversation_id,
                ContextUsageView { used_tokens, budget_tokens, compaction_active },
            ),
            UiMessageV::TitleChanged { conversation_id, title } => self.on_retitled(
                conversation_id,
                title,
            ),
            UiMessageV::ConversationListChanged { conversation_id } => (
                self,
                seq![EffectV::RefetchConversationList],
            ),
            UiMessageV::ConversationWarning { conversation_id, warning } =>
                self.on_conversation_warning(conversation_id, warning),
            UiMessageV::PromptSent { task_id, conversation_id, idempotency_key } =>
                self.on_prompt_sent(task_id, conversation_id, idempotency_key),
            UiMessageV::ModelsLoaded(m) => (
                self,
                seq![
                    EffectV::SetModels(m),
                    EffectV::SetModelPickerVisible(m.len() > 0),
                ],
            ),
            UiMessageV::DefaultModelLoaded(m) => (self, seq![EffectV::SetDefaultModel(m)]),
            UiMessageV::Connected { label } => (
                self,
                seq![EffectV::SetStatusText(label), EffectV::SetSendSensitive(true)],
            ),
            UiMessageV::Disconnected { reason } => self.on_disconnected(reason),
            UiMessageV::StatusUpdate(t) => (self, seq![EffectV::SetStatusText(t)]),
            UiMessageV::Error(t) => (self, seq![EffectV::SetStatusText("Error: "@ + t)]),
            UiMessageV::TasksLoaded(t) => (
                self,
                seq![EffectV::TasksReplaceAll(t), EffectV::RefreshSidePaneTasks],
            ),
            UiMessageV::TaskStarted(t) => (
                self,
                seq![EffectV::TaskStarted(t), EffectV::RefreshSidePaneTasks],
            ),
            UiMessageV::TaskProgress { id, progress_hint } => (
                self,
                seq![
                    EffectV::TaskProgress { id, progress_hint },
                    EffectV::RefreshSidePaneTasks,
                ],
            ),
            UiMessageV::TaskLogAppended { id, entry } => (
                self,
                seq![EffectV::TaskLogAppended { id, entry }],
            ),
            UiMessageV::TaskCompleted { id } => (
                self,
                seq![EffectV::TaskCompleted { id }, EffectV::RefreshSidePaneTasks],
            ),
            UiMessageV::ConversationScratchpadLoaded { conversation_id, notes } => (
                self,
                if self.is_active(conversation_id) {
                    seq![EffectV::SidePaneSetScratchpad(notes)]
                } else {
                    Seq::empty()
                },
            ),
            UiMessageV::ScratchpadChanged { conversation_id } => (
                self,
                if self.is_active(conversation_id) {
                    seq![EffectV::FetchScratchpad(conversation_id)]
                } else {
                    Seq::empty()
                },
            ),
            UiMessageV::KnowledgeChanged => (self, Seq::empty()),
            UiMessageV::SetVoiceIn { conversation_id, enabled } => (
                self.with_model(
                    conversation_id,
                    ConversationV { voice_in: enabled, ..self.model(conversation_id) },
                ),
                Seq::empty(),
            ),
            UiMessageV::SetAdeleOutput { conversation_id, level } => (
                self.with_model(
                    conversation_id,
                    ConversationV { adele_output: level, ..self.model(conversation_id) },
                ),
                Seq::empty(),
            ),
            UiMessageV::ClientToolCall {
                task_id,
                conversation_id,
                tool_call_id,
                tool_name,
                arguments,
            } => self.on_client_tool_call(
                task_id,
                conversation_id,
                tool_call_id,
                tool_name,
                said_text(arguments),
            ),
        }
    }
}

} // verus!
