//! What the reducer takes in: the messages, the map from daemon signals to
//! them, and the model that the interactive purpose resolves to.

use serde_json::Value;
use vstd::prelude::*;

use crate::api;
use crate::api::{
    ConversationDetail, ConversationSummary, ConversationWarning, DetailV, ModelListing,
    PurposesView, ScratchpadNoteView, SignalEvent, SummaryV, TaskLogEntry, TaskView, WarningV,
};
use crate::selected_models::SelectedModel;
use crate::text;
use crate::voice::AdeleOutput;

verus! {

/// A message to the reducer.
#[derive(Debug)]
pub enum UiMessage {
    /// The conversation list was fetched on (re)connect.
    ConversationsLoaded(Vec<ConversationSummary>),
    /// The conversation list was fetched again because it changed elsewhere; only
    /// the sidebar follows.
    ConversationListRefetched(Vec<ConversationSummary>),
    /// A conversation was fetched in order to switch to it.
    ConversationLoaded(ConversationDetail),
    /// The conversation already open was fetched again; the model picker keeps
    /// its selection.
    ConversationReloaded(ConversationDetail),
    ConversationCreated { id: String },
    ConversationDeleted { id: String },
    ConversationRenamed { id: String, title: String },
    /// The user submitted the composer.
    SubmitPrompt { prompt: String, idempotency_key: Option<String> },
    /// The user pulls a queued message back into the composer.
    EditQueued { index: usize },
    /// The user drops a queued message.
    RemoveQueued { index: usize },
    /// The user abandons the edit of a queued message.
    CancelQueuedEdit,
    /// The send of `prompt` failed.
    SendFailed { conversation_id: String, prompt: String },
    /// A piece of a reply.
    StreamChunk { request_id: String, chunk: String },
    /// A reply finished.
    StreamComplete { request_id: String, full_response: String },
    /// A turn failed.
    StreamError { request_id: String, error: String },
    /// A turn's transient status.
    AssistantStatus { request_id: String, message: String },
    /// A user message was committed and a turn started, here or elsewhere.
    UserMessageAdded {
        conversation_id: String,
        request_id: String,
        content: String,
        idempotency_key: Option<String>,
    },
    /// A turn's context-window fill.
    ContextUsage {
        conversation_id: String,
        used_tokens: u64,
        budget_tokens: u64,
        compaction_active: bool,
    },
    TitleChanged { conversation_id: String, title: String },
    /// The conversation list changed on another connection.
    ConversationListChanged { conversation_id: String },
    /// A one-time advisory for a conversation.
    ConversationWarning { conversation_id: String, warning: ConversationWarning },
    /// A send was acknowledged. `task_id` is empty for an acknowledgement
    /// without one; it is not the id of the reply stream.
    PromptSent { task_id: String, conversation_id: String, idempotency_key: Option<String> },
    /// The models on offer; none means that the picker hides.
    ModelsLoaded(Vec<ModelListing>),
    /// The model of conversations with no selection of their own.
    DefaultModelLoaded(Option<SelectedModel>),
    Connected { label: String },
    Disconnected { reason: String },
    StatusUpdate(String),
    Error(String),
    /// The background tasks were fetched.
    TasksLoaded(Vec<TaskView>),
    TaskStarted(TaskView),
    TaskProgress { id: String, progress_hint: Option<String> },
    TaskLogAppended { id: String, entry: TaskLogEntry },
    TaskCompleted { id: String },
    /// A conversation's scratchpad was fetched.
    ConversationScratchpadLoaded { conversation_id: String, notes: Vec<ScratchpadNoteView> },
    /// A conversation's scratchpad changed.
    ScratchpadChanged { conversation_id: String },
    /// The knowledge base changed.
    KnowledgeChanged,
    /// The user set a conversation's voice input.
    SetVoiceIn { conversation_id: String, enabled: bool },
    /// The user set a conversation's level of spoken output.
    SetAdeleOutput { conversation_id: String, level: AdeleOutput },
    /// A turn is suspended on a client-side tool and waits for its result.
    ClientToolCall {
        task_id: String,
        conversation_id: String,
        tool_call_id: String,
        tool_name: String,
        arguments: Value,
    },
}

/// The value of a [`UiMessage`].
#[verifier::ext_equal]
pub enum UiMessageV {
    ConversationsLoaded(Seq<SummaryV>),
    ConversationListRefetched(Seq<SummaryV>),
    ConversationLoaded(DetailV),
    ConversationReloaded(DetailV),
    ConversationCreated { id: Seq<char> },
    ConversationDeleted { id: Seq<char> },
    ConversationRenamed { id: Seq<char>, title: Seq<char> },
    SubmitPrompt { prompt: Seq<char>, idempotency_key: Option<Seq<char>> },
    EditQueued { index: nat },
    RemoveQueued { index: nat },
    CancelQueuedEdit,
    SendFailed { conversation_id: Seq<char>, prompt: Seq<char> },
    StreamChunk { request_id: Seq<char>, chunk: Seq<char> },
    StreamComplete { request_id: Seq<char>, full_response: Seq<char> },
    StreamError { request_id: Seq<char>, error: Seq<char> },
    AssistantStatus { request_id: Seq<char>, message: Seq<char> },
    UserMessageAdded {
        conversation_id: Seq<char>,
        request_id: Seq<char>,
        content: Seq<char>,
        idempotency_key: Option<Seq<char>>,
    },
    ContextUsage {
        conversation_id: Seq<char>,
        used_tokens: u64,
        budget_tokens: u64,
        compaction_active: bool,
    },
    TitleChanged { conversation_id: Seq<char>, title: Seq<char> },
    ConversationListChanged { conversation_id: Seq<char> },
    ConversationWarning { conversation_id: Seq<char>, warning: WarningV },
    PromptSent {
        task_id: Seq<char>,
        conversation_id: Seq<char>,
        idempotency_key: Option<Seq<char>>,
    },
    ModelsLoaded(Seq<ModelListing>),
    DefaultModelLoaded(Option<SelectedModel>),
    Connected { label: Seq<char> },
    Disconnected { reason: Seq<char> },
    StatusUpdate(Seq<char>),
    Error(Seq<char>),
    TasksLoaded(Seq<TaskView>),
    TaskStarted(TaskView),
    TaskProgress { id: Seq<char>, progress_hint: Option<Seq<char>> },
    TaskLogAppended { id: Seq<char>, entry: TaskLogEntry },
    TaskCompleted { id: Seq<char> },
    ConversationScratchpadLoaded { conversation_id: Seq<char>, notes: Seq<ScratchpadNoteView> },
    ScratchpadChanged { conversation_id: Seq<char> },
    KnowledgeChanged,
    SetVoiceIn { conversation_id: Seq<char>, enabled: bool },
    SetAdeleOutput { conversation_id: Seq<char>, level: AdeleOutput },
    ClientToolCall {
        task_id: Seq<char>,
        conversation_id: Seq<char>,
        tool_call_id: Seq<char>,
        tool_name: Seq<char>,
        arguments: Value,
    },
}

impl View for UiMessage {
    type V = UiMessageV;

    open spec fn view(&self) -> UiMessageV {
        match *self {
            UiMessage::ConversationsLoaded(c) => UiMessageV::ConversationsLoaded(
                api::summaries(c@),
            ),
            UiMessage::ConversationListRefetched(c) => UiMessageV::ConversationListRefetched(
                api::summaries(c@),
            ),
            UiMessage::ConversationLoaded(d) => UiMessageV::ConversationLoaded(d@),
            UiMessage::ConversationReloaded(d) => UiMessageV::ConversationReloaded(d@),
            UiMessage::ConversationCreated { id } => UiMessageV::ConversationCreated { id: id@ },
            UiMessage::ConversationDeleted { id } => UiMessageV::ConversationDeleted { id: id@ },
            UiMessage::ConversationRenamed { id, title } => UiMessageV::ConversationRenamed {
                id: id@,
                title: title@,
            },
            UiMessage::SubmitPrompt { prompt, idempotency_key } => UiMessageV::SubmitPrompt {
                prompt: prompt@,
                idempotency_key: text::opt_view(idempotency_key),
            },
            UiMessage::EditQueued { index } => UiMessageV::EditQueued { index: index as nat },
            UiMessage::RemoveQueued { index } => UiMessageV::RemoveQueued { index: index as nat },
            UiMessage::CancelQueuedEdit => UiMessageV::CancelQueuedEdit,
            UiMessage::SendFailed { conversation_id, prompt } => UiMessageV::SendFailed {
                conversation_id: conversation_id@,
                prompt: prompt@,
            },
            UiMessage::StreamChunk { request_id, chunk } => UiMessageV::StreamChunk {
                request_id: request_id@,
                chunk: chunk@,
            },
            UiMessage::StreamComplete { request_id, full_response } =>
                UiMessageV::StreamComplete {
                    request_id: request_id@,
                    full_response: full_response@,
                },
            UiMessage::StreamError { request_id, error } => UiMessageV::StreamError {
                request_id: request_id@,
                error: error@,
            },
            UiMessage::AssistantStatus { request_id, message } => UiMessageV::AssistantStatus {
                request_id: request_id@,
                message: message@,
            },
            UiMessage::UserMessageAdded {
                conversation_id,
                request_id,
                content,
                idempotency_key,
            } => UiMessageV::UserMessageAdded {
                conversation_id: conversation_id@,
                request_id: request_id@,
                content: content@,
                idempotency_key: text::opt_view(idempotency_key),
            },
            UiMessage::ContextUsage {
                conversation_id,
                used_tokens,
                budget_tokens,
                compaction_active,
            } => UiMessageV::ContextUsage {
                conversation_id: conversation_id@,
                used_tokens,
                budget_tokens,
                compaction_active,
            },
            UiMessage::TitleChanged { conversation_id, title } => UiMessageV::TitleChanged {
                conversation_id: conversation_id@,
                title: title@,
            },
            UiMessage::ConversationListChanged { conversation_id } =>
                UiMessageV::ConversationListChanged { conversation_id: conversation_id@ },
            UiMessage::ConversationWarning { conversation_id, warning } =>
                UiMessageV::ConversationWarning {
                    conversation_id: conversation_id@,
                    warning: warning@,
                },
            UiMessage::PromptSent { task_id, conversation_id, idempotency_key } =>
                UiMessageV::PromptSent {
                    task_id: task_id@,
                    conversation_id: conversation_id@,
                    idempotency_key: text::opt_view(idempotency_key),
                },
            UiMessage::ModelsLoaded(m) => UiMessageV::ModelsLoaded(m@),
            UiMessage::DefaultModelLoaded(m) => UiMessageV::DefaultModelLoaded(m),
            UiMessage::Connected { label } => UiMessageV::Connected { label: label@ },
            UiMessage::Disconnected { reason } => UiMessageV::Disconnected { reason: reason@ },
            UiMessage::StatusUpdate(t) => UiMessageV::StatusUpdate(t@),
            UiMessage::Error(t) => UiMessageV::Error(t@),
            UiMessage::TasksLoaded(t) => UiMessageV::TasksLoaded(t@),
            UiMessage::TaskStarted(t) => UiMessageV::TaskStarted(t),
            UiMessage::TaskProgress { id, progress_hint } => UiMessageV::TaskProgress {
                id: id@,
                progress_hint: text::opt_view(progress_hint),
            },
            UiMessage::TaskLogAppended { id, entry } => UiMessageV::TaskLogAppended {
                id: id@,
                entry,
            },
            UiMessage::TaskCompleted { id } => UiMessageV::TaskCompleted { id: id@ },
            UiMessage::ConversationScratchpadLoaded { conversation_id, notes } =>
                UiMessageV::ConversationScratchpadLoaded {
                    conversation_id: conversation_id@,
                    notes: notes@,
                },
            UiMessage::ScratchpadChanged { conversation_id } => UiMessageV::ScratchpadChanged {
                conversation_id: conversation_id@,
            },
            UiMessage::KnowledgeChanged => UiMessageV::KnowledgeChanged,
            UiMessage::SetVoiceIn { conversation_id, enabled } => UiMessageV::SetVoiceIn {
                conversation_id: conversation_id@,
                enabled,
            },
            UiMessage::SetAdeleOutput { conversation_id, level } => UiMessageV::SetAdeleOutput {
                conversation_id: conversation_id@,
                level,
            },
            UiMessage::ClientToolCall {
                task_id,
                conversation_id,
                tool_call_id,
                tool_name,
                arguments,
            } => UiMessageV::ClientToolCall {
                task_id: task_id@,
                conversation_id: conversation_id@,
                tool_call_id: tool_call_id@,
                tool_name: tool_name@,
                arguments,
            },
        }
    }
}

/// The daemon's word for "inherit from the interactive purpose".
pub const PRIMARY_SENTINEL: &'static str = "primary";

/// Whether a configured field names something concrete.
pub open spec fn is_resolvable(field: Seq<char>) -> bool {
    field.len() > 0 && field != PRIMARY_SENTINEL@
}

fn resolvable(field: &str) -> (r: bool)
    ensures
        r == is_resolvable(field@),
{
    !field.is_empty() && !text::same(field, PRIMARY_SENTINEL)
}

/// The interactive purpose's concrete connection and model. `None` when the
/// purpose is unset, or either field is empty or the inherit word: then there
/// is no concrete model to pin.
pub fn interactive_default_from_purposes(purposes: &PurposesView) -> (r: Option<SelectedModel>)
    ensures
        r is Some <==> {
            &&& purposes.interactive is Some
            &&& is_resolvable(purposes.interactive->0.connection@)
            &&& is_resolvable(purposes.interactive->0.model@)
        },
        r is Some ==> r->0.connection_id@ == purposes.interactive->0.connection@,
        r is Some ==> r->0.model_id@ == purposes.interactive->0.model@,
{
    match &purposes.interactive {
        Some(config) => {
            if resolvable(config.connection.as_str()) && resolvable(config.model.as_str()) {
                Some(
                    SelectedModel {
                        connection_id: config.connection.clone(),
                        model_id: config.model.clone(),
                    },
                )
            } else {
                None
            }
        },
        None => None,
    }
}

/// The message a signal stands for. Stream events keep the id of their stream
/// only: the reducer finds the conversation by it.
pub open spec fn message_of(signal: SignalEvent) -> UiMessageV {
    match signal {
        SignalEvent::UserMessageAdded { conversation_id, request_id, content, idempotency_key } =>
            UiMessageV::UserMessageAdded {
                conversation_id: conversation_id@,
                request_id: request_id@,
                content: content@,
                idempotency_key: text::opt_view(idempotency_key),
            },
        SignalEvent::Chunk { conversation_id, request_id, chunk } => UiMessageV::StreamChunk {
            request_id: request_id@,
            chunk: chunk@,
        },
        SignalEvent::Complete { conversation_id, request_id, full_response } =>
            UiMessageV::StreamComplete {
                request_id: request_id@,
                full_response: full_response@,
            },
        SignalEvent::Error { conversation_id, request_id, error } => UiMessageV::StreamError {
            request_id: request_id@,
            error: error@,
        },
        SignalEvent::Status { conversation_id, request_id, message } =>
            UiMessageV::AssistantStatus { request_id: request_id@, message: message@ },
        SignalEvent::ContextUsage {
            conversation_id,
            request_id,
            used_tokens,
            budget_tokens,
            compaction_active,
        } => UiMessageV::ContextUsage {
            conversation_id: conversation_id@,
            used_tokens,
            budget_tokens,
            compaction_active,
        },
        SignalEvent::TitleChanged { conversation_id, title } => UiMessageV::TitleChanged {
            conversation_id: conversation_id@,
            title: title@,
        },
        SignalEvent::ConversationListChanged { conversation_id } =>
            UiMessageV::ConversationListChanged { conversation_id: conversation_id@ },
        SignalEvent::ConversationWarning { conversation_id, warning } =>
            UiMessageV::ConversationWarning {
                conversation_id: conversation_id@,
                warning: warning@,
            },
        SignalEvent::TaskStarted { task } => UiMessageV::TaskStarted(task),
        SignalEvent::TaskProgress { id, progress_hint } => UiMessageV::TaskProgress {
            id: id@,
            progress_hint: text::opt_view(progress_hint),
        },
        SignalEvent::TaskLogAppended { id, entry } => UiMessageV::TaskLogAppended {
            id: id@,
            entry,
        },
        SignalEvent::TaskCompleted { id, status } => UiMessageV::TaskCompleted { id: id@ },
        SignalEvent::ScratchpadChanged { conversation_id } => UiMessageV::ScratchpadChanged {
            conversation_id: conversation_id@,
        },
        SignalEvent::KnowledgeChanged => UiMessageV::KnowledgeChanged,
        SignalEvent::ClientToolCall {
            task_id,
            conversation_id,
            tool_call_id,
            tool_name,
            arguments,
        } => UiMessageV::ClientToolCall {
            task_id: task_id@,
            conversation_id: conversation_id@,
            tool_call_id: tool_call_id@,
            tool_name: tool_name@,
            arguments,
        },
        SignalEvent::Disconnected { reason } => UiMessageV::Disconnected { reason: reason@ },
    }
}

/// The message a signal stands for (see [`message_of`]).
pub fn signal_to_ui_message(signal: SignalEvent) -> (r: UiMessage)
    ensures
        r@ == message_of(signal),
{
    match signal {
        SignalEvent::UserMessageAdded { conversation_id, request_id, content, idempotency_key } =>
            UiMessage::UserMessageAdded { conversation_id, request_id, content, idempotency_key },
        SignalEvent::Chunk { conversation_id: _, request_id, chunk } => UiMessage::StreamChunk {
            request_id,
            chunk,
        },
        SignalEvent::Complete { conversation_id: _, request_id, full_response } =>
            UiMessage::StreamComplete { request_id, full_response },
        SignalEvent::Error { conversation_id: _, request_id, error } => UiMessage::StreamError {
            request_id,
            error,
        },
        SignalEvent::Status { conversation_id: _, request_id, message } =>
            UiMessage::AssistantStatus { request_id, message },
        SignalEvent::ContextUsage {
            conversation_id,
            request_id: _,
            used_tokens,
            budget_tokens,
            compaction_active,
        } => UiMessage::ContextUsage {
            conversation_id,
            used_tokens,
            budget_tokens,
            compaction_active,
        },
        SignalEvent::TitleChanged { conversation_id, title } => UiMessage::TitleChanged {
            conversation_id,
            title,
        },
        SignalEvent::ConversationListChanged { conversation_id } =>
            UiMessage::ConversationListChanged { conversation_id },
        SignalEvent::ConversationWarning { conversation_id, warning } =>
            UiMessage::ConversationWarning { conversation_id, warning },
        SignalEvent::TaskStarted { task } => UiMessage::TaskStarted(task),
        SignalEvent::TaskProgress { id, progress_hint } => UiMessage::TaskProgress {
            id,
            progress_hint,
        },
        SignalEvent::TaskLogAppended { id, entry } => UiMessage::TaskLogAppended { id, entry },
        SignalEvent::TaskCompleted { id, status: _ } => UiMessage::TaskCompleted { id },
        SignalEvent::ScratchpadChanged { conversation_id } => UiMessage::ScratchpadChanged {
            conversation_id,
        },
        SignalEvent::KnowledgeChanged => UiMessage::KnowledgeChanged,
        SignalEvent::ClientToolCall {
            task_id,
            conversation_id,
            tool_call_id,
            tool_name,
            arguments,
        } => UiMessage::ClientToolCall {
            task_id,
            conversation_id,
            tool_call_id,
            tool_name,
            arguments,
        },
        SignalEvent::Disconnected { reason } => UiMessage::Disconnected { reason },
    }
}

// ---------------------------------------------------------------------------
// Laws
// ---------------------------------------------------------------------------

/// A field names something concrete unless it is empty or the word for inheriting.
pub proof fn only_two_fields_name_nothing(field: Seq<char>)
    ensures
        is_resolvable(field) <==> field != Seq::<char>::empty() && field != "primary"@,
{
    assert(field.len() == 0 <==> field =~= Seq::<char>::empty());
}

/// A signal about a turn becomes the message about the same turn, under the same request
/// id and with the same text.
pub proof fn signals_about_turns_are_kept(signal: SignalEvent)
    ensures
        signal matches SignalEvent::UserMessageAdded {
            conversation_id: c,
            request_id: r,
            content: t,
            idempotency_key: k,
        } ==> message_of(signal) == (UiMessageV::UserMessageAdded {
            conversation_id: c@,
            request_id: r@,
            content: t@,
            idempotency_key: match k {
                Some(k) => Some(k@),
                None => None,
            },
        }),
        signal matches SignalEvent::Chunk { conversation_id: c, request_id: r, chunk: t }
            ==> message_of(signal) == (UiMessageV::StreamChunk { request_id: r@, chunk: t@ }),
        signal matches SignalEvent::Complete { conversation_id: c, request_id: r, full_response: t }
            ==> message_of(signal) == (UiMessageV::StreamComplete {
            request_id: r@,
            full_response: t@,
        }),
        signal matches SignalEvent::Error { conversation_id: c, request_id: r, error: t }
            ==> message_of(signal) == (UiMessageV::StreamError { request_id: r@, error: t@ }),
        signal matches SignalEvent::Status { conversation_id: c, request_id: r, message: t }
            ==> message_of(signal) == (UiMessageV::AssistantStatus {
            request_id: r@,
            message: t@,
        }),
        signal matches SignalEvent::ContextUsage {
            conversation_id: c,
            request_id: r,
            used_tokens: u,
            budget_tokens: b,
            compaction_active: a,
        } ==> message_of(signal) == (UiMessageV::ContextUsage {
            conversation_id: c@,
            used_tokens: u,
            budget_tokens: b,
            compaction_active: a,
        }),
        signal matches SignalEvent::ClientToolCall {
            task_id: t,
            conversation_id: c,
            tool_call_id: i,
            tool_name: n,
            arguments: a,
        } ==> message_of(signal) == (UiMessageV::ClientToolCall {
            task_id: t@,
            conversation_id: c@,
            tool_call_id: i@,
            tool_name: n@,
            arguments: a,
        }),
{
}

/// A signal about a conversation, a task, the knowledge base or the link becomes the
/// message about the same, with all that the message has room for.
pub proof fn other_signals_are_kept(signal: SignalEvent)
    ensures
        signal matches SignalEvent::TitleChanged { conversation_id: c, title: t } ==> message_of(
            signal,
        ) == (UiMessageV::TitleChanged { conversation_id: c@, title: t@ }),
        signal matches SignalEvent::ConversationListChanged { conversation_id: c } ==> message_of(
            signal,
        ) == (UiMessageV::ConversationListChanged { conversation_id: c@ }),
        signal matches SignalEvent::ConversationWarning { conversation_id: c, warning: v }
            ==> message_of(signal) == (UiMessageV::ConversationWarning {
            conversation_id: c@,
            warning: v@,
        }),
        signal matches SignalEvent::TaskStarted { task: t } ==> message_of(signal)
            == UiMessageV::TaskStarted(t),
        signal matches SignalEvent::TaskProgress { id: i, progress_hint: h } ==> message_of(signal)
            == (UiMessageV::TaskProgress {
            id: i@,
            progress_hint: match h {
                Some(h) => Some(h@),
                None => None,
            },
        }),
        signal matches SignalEvent::TaskLogAppended { id: i, entry: l } ==> message_of(signal) == (
        UiMessageV::TaskLogAppended { id: i@, entry: l }),
        signal matches SignalEvent::TaskCompleted { id: i, status: s } ==> message_of(signal) == (
        UiMessageV::TaskCompleted { id: i@ }),
        signal matches SignalEvent::ScratchpadChanged { conversation_id: c } ==> message_of(signal)
            == (UiMessageV::ScratchpadChanged { conversation_id: c@ }),
        signal is KnowledgeChanged ==> message_of(signal) is KnowledgeChanged,
        signal matches SignalEvent::Disconnected { reason: r } ==> message_of(signal) == (
        UiMessageV::Disconnected { reason: r@ }),
{
}

} // verus!
