//! What the reducer gives out: the side-effects for the client to perform.

use vstd::prelude::*;

use crate::api;
use crate::api::{
    ConversationDetail, ConversationModelSelectionView, ConversationSummary, DetailV, MessageKind,
    ModelListing, ScratchpadNoteView, SelectionV, SummaryV, TaskLogEntry, TaskView,
};
use crate::context_usage::ContextUsageView;
use crate::selected_models::SelectedModel;
use crate::text;
use crate::voice::{AdeleOutput, SendRefinement};

verus! {

/// How a turn ended.
#[derive(Clone, Debug, PartialEq, Eq)]
pub enum TurnOutcome {
    /// The reply finished normally.
    Completed,
    /// The turn failed, or a teardown ended it before a reply arrived. The text
    /// comes from the daemon or a provider and may quote the conversation: it is
    /// for the user, not for telemetry.
    Failed(String),
}

/// The value of a [`TurnOutcome`].
#[verifier::ext_equal]
pub enum OutcomeV {
    Completed,
    Failed(Seq<char>),
}

impl View for TurnOutcome {
    type V = OutcomeV;

    open spec fn view(&self) -> OutcomeV {
        match *self {
            TurnOutcome::Completed => OutcomeV::Completed,
            TurnOutcome::Failed(t) => OutcomeV::Failed(t@),
        }
    }
}

/// One side-effect. Effects are performed in the order in which they are given.
#[derive(Debug)]
pub enum Effect {
    /// Let go of the daemon connection.
    ClearClient,
    /// Set the status bar's text.
    SetStatusText(String),
    /// Enable or disable the send button.
    SetSendSensitive(bool),
    /// Replace the composer's text.
    SetComposerText(String),
    /// The open conversation's queue, and the slot being edited.
    SetQueuedMessages { messages: Vec<String>, editing: Option<usize> },
    /// Repaint the conversation list.
    SetConversations(Vec<ConversationSummary>),
    /// Sync the selection, loading or creating a conversation when none is open.
    EnsureActiveConversation,
    /// Show an already filtered conversation.
    LoadConversationIntoChat(ConversationDetail),
    /// Fetch the open conversation again, keeping the model picker.
    ReloadConversation(String),
    /// Fetch a conversation in order to switch to it.
    LoadConversation(String),
    /// Fetch the conversation list again, for the sidebar alone.
    RefetchConversationList,
    /// Clear the chat.
    ClearChat,
    /// Set the chat's transient status line.
    SetChatStatus(String),
    /// Clear the chat's transient status line.
    ClearChatStatus,
    /// Set or clear the context-window fill indicator.
    SetContextUsage(Option<ContextUsageView>),
    /// Show the user's message of a turn that was started elsewhere.
    AddUserMessage(String),
    /// Append a piece of a reply.
    ReceiveChunk(String),
    /// Finalize a reply.
    CompleteStreaming(String),
    /// Send a prompt.
    SendPrompt {
        conversation_id: String,
        prompt: String,
        system_refinement: Option<SendRefinement>,
        idempotency_key: Option<String>,
    },
    /// Apply or clear the model picker's selection.
    SetModelSelection(Option<ConversationModelSelectionView>),
    /// Replace the models on offer.
    SetModels(Vec<ModelListing>),
    /// Set the model of conversations with no selection of their own.
    SetDefaultModel(Option<SelectedModel>),
    /// Show or hide the model picker.
    SetModelPickerVisible(bool),
    /// Show a passing notice.
    ShowToast(String),
    /// Replace the background tasks.
    TasksReplaceAll(Vec<TaskView>),
    /// A task started.
    TaskStarted(TaskView),
    /// A task made progress.
    TaskProgress { id: String, progress_hint: Option<String> },
    /// A task logged a line.
    TaskLogAppended { id: String, entry: TaskLogEntry },
    /// A task ended.
    TaskCompleted { id: String },
    /// Tell the daemon the whole set of conversations in view.
    SubscribeConversations(Vec<String>),
    /// Fetch a conversation's scratchpad.
    FetchScratchpad(String),
    /// Replace the side pane's notes.
    SidePaneSetScratchpad(Vec<ScratchpadNoteView>),
    /// Recompute the side pane's tasks.
    RefreshSidePaneTasks,
    /// Speak aloud.
    Speak(String),
    /// Append a local transcript line, presented by its kind.
    AddLocalMessage { content: String, kind: MessageKind },
    /// Show the open conversation's level of spoken output.
    SetAdeleOutputDropdown(AdeleOutput),
    /// Resolve a suspended client-tool call.
    SubmitClientToolResult {
        task_id: String,
        tool_call_id: String,
        result: Result<String, String>,
    },
    /// A turn ended. Given for every turn the reducer was tracking, in view or
    /// not, so that a host can close what it opened when the turn was sent.
    TurnFinished {
        /// The conversation the turn was sent into.
        conversation_id: String,
        /// The daemon's id of the reply; empty when the turn ended before it
        /// arrived.
        request_id: String,
        /// The key of the send behind the turn; `None` for a send without one
        /// and for a turn started elsewhere.
        idempotency_key: Option<String>,
        outcome: TurnOutcome,
    },
}

/// The value of an [`Effect`].
#[verifier::ext_equal]
pub enum EffectV {
    ClearClient,
    SetStatusText(Seq<char>),
    SetSendSensitive(bool),
    SetComposerText(Seq<char>),
    SetQueuedMessages { messages: Seq<Seq<char>>, editing: Option<nat> },
    SetConversations(Seq<SummaryV>),
    EnsureActiveConversation,
    LoadConversationIntoChat(DetailV),
    ReloadConversation(Seq<char>),
    LoadConversation(Seq<char>),
    RefetchConversationList,
    ClearChat,
    SetChatStatus(Seq<char>),
    ClearChatStatus,
    SetContextUsage(Option<ContextUsageView>),
    AddUserMessage(Seq<char>),
    ReceiveChunk(Seq<char>),
    CompleteStreaming(Seq<char>),
    SendPrompt {
        conversation_id: Seq<char>,
        prompt: Seq<char>,
        system_refinement: Option<SendRefinement>,
        idempotency_key: Option<Seq<char>>,
    },
    SetModelSelection(Option<SelectionV>),
    SetModels(Seq<ModelListing>),
    SetDefaultModel(Option<SelectedModel>),
    SetModelPickerVisible(bool),
    ShowToast(Seq<char>),
    TasksReplaceAll(Seq<TaskView>),
    TaskStarted(TaskView),
    TaskProgress { id: Seq<char>, progress_hint: Option<Seq<char>> },
    TaskLogAppended { id: Seq<char>, entry: TaskLogEntry },
    TaskCompleted { id: Seq<char> },
    SubscribeConversations(Seq<Seq<char>>),
    FetchScratchpad(Seq<char>),
    SidePaneSetScratchpad(Seq<ScratchpadNoteView>),
    RefreshSidePaneTasks,
    Speak(Seq<char>),
    AddLocalMessage { content: Seq<char>, kind: MessageKind },
    SetAdeleOutputDropdown(AdeleOutput),
    SubmitClientToolResult {
        task_id: Seq<char>,
        tool_call_id: Seq<char>,
        result: Result<Seq<char>, Seq<char>>,
    },
    TurnFinished {
        conversation_id: Seq<char>,
        request_id: Seq<char>,
        idempotency_key: Option<Seq<char>>,
        outcome: OutcomeV,
    },
}

/// The value of an optional slot.
pub open spec fn opt_slot(i: Option<usize>) -> Option<nat> {
    match i {
        Some(x) => Some(x as nat),
        None => None,
    }
}

impl View for Effect {
    type V = EffectV;

    open spec fn view(&self) -> EffectV {
        match *self {
            Effect::ClearClient => EffectV::ClearClient,
            Effect::SetStatusText(t) => EffectV::SetStatusText(t@),
            Effect::SetSendSensitive(b) => EffectV::SetSendSensitive(b),
            Effect::SetComposerText(t) => EffectV::SetComposerText(t@),
            Effect::SetQueuedMessages { messages, editing } => EffectV::SetQueuedMessages {
                messages: text::views(messages@),
                editing: opt_slot(editing),
            },
            Effect::SetConversations(c) => EffectV::SetConversations(api::summaries(c@)),
            Effect::EnsureActiveConversation => EffectV::EnsureActiveConversation,
            Effect::LoadConversationIntoChat(d) => EffectV::LoadConversationIntoChat(d@),
            Effect::ReloadConversation(id) => EffectV::ReloadConversation(id@),
            Effect::LoadConversation(id) => EffectV::LoadConversation(id@),
            Effect::RefetchConversationList => EffectV::RefetchConversationList,
            Effect::ClearChat => EffectV::ClearChat,
            Effect::SetChatStatus(t) => EffectV::SetChatStatus(t@),
            Effect::ClearChatStatus => EffectV::ClearChatStatus,
            Effect::SetContextUsage(u) => EffectV::SetContextUsage(u),
            Effect::AddUserMessage(t) => EffectV::AddUserMessage(t@),
            Effect::ReceiveChunk(t) => EffectV::ReceiveChunk(t@),
            Effect::CompleteStreaming(t) => EffectV::CompleteStreaming(t@),
            Effect::SendPrompt {
                conversation_id,
                prompt,
                system_refinement,
                idempotency_key,
            } => EffectV::SendPrompt {
                conversation_id: conversation_id@,
                prompt: prompt@,
                system_refinement,
                idempotency_key: text::opt_view(idempotency_key),
            },
            Effect::SetModelSelection(s) => EffectV::SetModelSelection(api::opt_selection(s)),
            Effect::SetModels(m) => EffectV::SetModels(m@),
            Effect::SetDefaultModel(m) => EffectV::SetDefaultModel(m),
            Effect::SetModelPickerVisible(b) => EffectV::SetModelPickerVisible(b),
            Effect::ShowToast(t) => EffectV::ShowToast(t@),
            Effect::TasksReplaceAll(t) => EffectV::TasksReplaceAll(t@),
            Effect::TaskStarted(t) => EffectV::TaskStarted(t),
            Effect::TaskProgress { id, progress_hint } => EffectV::TaskProgress {
                id: id@,
                progress_hint: text::opt_view(progress_hint),
            },
            Effect::TaskLogAppended { id, entry } => EffectV::TaskLogAppended { id: id@, entry },
            Effect::TaskCompleted { id } => EffectV::TaskCompleted { id: id@ },
            Effect::SubscribeConversations(ids) => EffectV::SubscribeConversations(
                text::views(ids@),
            ),
            Effect::FetchScratchpad(id) => EffectV::FetchScratchpad(id@),
            Effect::SidePaneSetScratchpad(n) => EffectV::SidePaneSetScratchpad(n@),
            Effect::RefreshSidePaneTasks => EffectV::RefreshSidePaneTasks,
            Effect::Speak(t) => EffectV::Speak(t@),
            Effect::AddLocalMessage { content, kind } => EffectV::AddLocalMessage {
                content: content@,
                kind,
            },
            Effect::SetAdeleOutputDropdown(l) => EffectV::SetAdeleOutputDropdown(l),
            Effect::SubmitClientToolResult { task_id, tool_call_id, result } =>
                EffectV::SubmitClientToolResult {
                    task_id: task_id@,
                    tool_call_id: tool_call_id@,
                    result: match result {
                        Ok(t) => Ok(t@),
                        Err(t) => Err(t@),
                    },
                },
            Effect::TurnFinished { conversation_id, request_id, idempotency_key, outcome } =>
                EffectV::TurnFinished {
                    conversation_id: conversation_id@,
                    request_id: request_id@,
                    idempotency_key: text::opt_view(idempotency_key),
                    outcome: outcome@,
                },
        }
    }
}

/// The values of a list of effects.
pub open spec fn effects(s: Seq<Effect>) -> Seq<EffectV> {
    s.map_values(|e: Effect| e@)
}

} // verus!
