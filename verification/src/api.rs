//! The daemon's wire types, as plain data.
//!
//! The reducer reads some of their fields and carries the rest through. A type
//! whose text the reducer reads has a counterpart ending in `V` that holds the
//! same value with every string replaced by its characters; the counterparts
//! are what contracts speak of.

use serde_json::Value;
use vstd::prelude::*;

use crate::text;

verus! {

// ---------------------------------------------------------------------------
// Conversations
// ---------------------------------------------------------------------------

/// How a transcript line is presented.
#[derive(Clone, Copy, Debug, PartialEq, Eq, Structural)]
pub enum MessageKind {
    /// An ordinary message.
    Normal,
    /// A line that was also spoken aloud.
    Spoken,
    /// A line that would have been spoken, had speech been enabled.
    SpeechDisabled,
}

/// One row of the conversation list.
#[derive(Debug, PartialEq, Eq)]
pub struct ConversationSummary {
    pub id: String,
    pub title: String,
    pub message_count: u32,
    pub archived: bool,
}

/// The value of a [`ConversationSummary`].
#[verifier::ext_equal]
pub struct SummaryV {
    pub id: Seq<char>,
    pub title: Seq<char>,
    pub message_count: u32,
    pub archived: bool,
}

impl View for ConversationSummary {
    type V = SummaryV;

    open spec fn view(&self) -> SummaryV {
        SummaryV {
            id: self.id@,
            title: self.title@,
            message_count: self.message_count,
            archived: self.archived,
        }
    }
}

impl Clone for ConversationSummary {
    fn clone(&self) -> (r: Self)
        ensures
            r == *self,
    {
        ConversationSummary {
            id: self.id.clone(),
            title: self.title.clone(),
            message_count: self.message_count,
            archived: self.archived,
        }
    }
}

/// The values of a list of summaries.
pub open spec fn summaries(s: Seq<ConversationSummary>) -> Seq<SummaryV> {
    s.map_values(|c: ConversationSummary| c@)
}

/// One message of a transcript.
#[derive(Debug, PartialEq, Eq)]
pub struct ChatMessage {
    /// The daemon's id; empty for a message the daemon has not keyed yet.
    pub id: String,
    pub role: String,
    pub content: String,
    pub kind: MessageKind,
    /// The key of the send that produced the message, when it had one.
    pub idempotency_key: Option<String>,
    /// Creation time, when the daemon's id gives one.
    pub created_at_ms: Option<i64>,
}

/// The value of a [`ChatMessage`].
#[verifier::ext_equal]
pub struct ChatMessageV {
    pub id: Seq<char>,
    pub role: Seq<char>,
    pub content: Seq<char>,
    pub kind: MessageKind,
    pub idempotency_key: Option<Seq<char>>,
    pub created_at_ms: Option<i64>,
}

impl View for ChatMessage {
    type V = ChatMessageV;

    open spec fn view(&self) -> ChatMessageV {
        ChatMessageV {
            id: self.id@,
            role: self.role@,
            content: self.content@,
            kind: self.kind,
            idempotency_key: text::opt_view(self.idempotency_key),
            created_at_ms: self.created_at_ms,
        }
    }
}

impl Clone for ChatMessage {
    fn clone(&self) -> (r: Self)
        ensures
            r == *self,
    {
        ChatMessage {
            id: self.id.clone(),
            role: self.role.clone(),
            content: self.content.clone(),
            kind: self.kind,
            idempotency_key: self.idempotency_key.clone(),
            created_at_ms: self.created_at_ms,
        }
    }
}

/// The values of a transcript's messages.
pub open spec fn messages(s: Seq<ChatMessage>) -> Seq<ChatMessageV> {
    s.map_values(|m: ChatMessage| m@)
}

/// A conversation's stored choice of model.
#[derive(Debug, PartialEq, Eq)]
pub struct ConversationModelSelectionView {
    pub connection_id: String,
    pub model_id: String,
    pub effort: Option<String>,
}

/// The value of a [`ConversationModelSelectionView`].
#[verifier::ext_equal]
pub struct SelectionV {
    pub connection_id: Seq<char>,
    pub model_id: Seq<char>,
    pub effort: Option<Seq<char>>,
}

impl View for ConversationModelSelectionView {
    type V = SelectionV;

    open spec fn view(&self) -> SelectionV {
        SelectionV {
            connection_id: self.connection_id@,
            model_id: self.model_id@,
            effort: text::opt_view(self.effort),
        }
    }
}

impl Clone for ConversationModelSelectionView {
    fn clone(&self) -> (r: Self)
        ensures
            r == *self,
    {
        ConversationModelSelectionView {
            connection_id: self.connection_id.clone(),
            model_id: self.model_id.clone(),
            effort: self.effort.clone(),
        }
    }
}

/// The value of an optional selection.
pub open spec fn opt_selection(s: Option<ConversationModelSelectionView>) -> Option<SelectionV> {
    match s {
        Some(x) => Some(x@),
        None => None,
    }
}

/// A conversation with its transcript.
#[derive(Debug, PartialEq, Eq)]
pub struct ConversationDetail {
    pub id: String,
    pub title: String,
    pub messages: Vec<ChatMessage>,
    pub model_selection: Option<ConversationModelSelectionView>,
    /// A handle for the conversation's personality; carried, never read.
    pub conversation_personality: Option<u64>,
    pub tool_gate_disabled: bool,
}

/// The value of a [`ConversationDetail`].
#[verifier::ext_equal]
pub struct DetailV {
    pub id: Seq<char>,
    pub title: Seq<char>,
    pub messages: Seq<ChatMessageV>,
    pub model_selection: Option<SelectionV>,
    pub conversation_personality: Option<u64>,
    pub tool_gate_disabled: bool,
}

impl View for ConversationDetail {
    type V = DetailV;

    open spec fn view(&self) -> DetailV {
        DetailV {
            id: self.id@,
            title: self.title@,
            messages: messages(self.messages@),
            model_selection: opt_selection(self.model_selection),
            conversation_personality: self.conversation_personality,
            tool_gate_disabled: self.tool_gate_disabled,
        }
    }
}

impl Clone for ConversationDetail {
    fn clone(&self) -> (r: Self)
        ensures
            r@ == self@,
    {
        let r = ConversationDetail {
            id: self.id.clone(),
            title: self.title.clone(),
            messages: self.messages.clone(),
            model_selection: self.model_selection.clone(),
            conversation_personality: self.conversation_personality,
            tool_gate_disabled: self.tool_gate_disabled,
        };
        assert(r@.messages == self@.messages);
        r
    }
}

/// A one-time advisory for a conversation.
#[derive(Clone, Debug, PartialEq, Eq)]
pub enum ConversationWarning {
    /// The stored model selection no longer resolves; the daemon cleared it and
    /// fell back.
    DanglingModelSelection {
        previous_selection: ConversationModelSelectionView,
        fallback_to: ConversationModelSelectionView,
    },
}

/// The value of a [`ConversationWarning`].
#[verifier::ext_equal]
pub enum WarningV {
    DanglingModelSelection { previous_selection: SelectionV, fallback_to: SelectionV },
}

impl View for ConversationWarning {
    type V = WarningV;

    open spec fn view(&self) -> WarningV {
        match *self {
            ConversationWarning::DanglingModelSelection { previous_selection, fallback_to } =>
                WarningV::DanglingModelSelection {
                    previous_selection: previous_selection@,
                    fallback_to: fallback_to@,
                },
        }
    }
}

// ---------------------------------------------------------------------------
// Models
// ---------------------------------------------------------------------------

/// What a model can do, as the daemon encoded it; carried, never read.
#[derive(Clone, Debug, PartialEq, Eq, Default)]
pub struct ModelCapabilitiesView {
    pub encoded: String,
}

/// One model of a connection.
#[derive(Clone, Debug, PartialEq, Eq)]
pub struct ModelInfoView {
    pub id: String,
    pub display_name: String,
    pub context_limit: Option<u64>,
    pub capabilities: ModelCapabilitiesView,
}

/// One (connection, model) pair the picker offers.
#[derive(Clone, Debug, PartialEq, Eq)]
pub struct ModelListing {
    pub connection_id: String,
    pub connection_label: String,
    pub model: ModelInfoView,
    pub notices: Vec<String>,
}

/// The connection and model configured for one purpose.
#[derive(Clone, Debug, PartialEq, Eq)]
pub struct PurposeConfigView {
    pub connection: String,
    pub model: String,
}

/// The daemon's configured purposes.
#[derive(Clone, Debug, PartialEq, Eq)]
pub struct PurposesView {
    pub interactive: Option<PurposeConfigView>,
}

// ---------------------------------------------------------------------------
// Tasks, scratchpad and tools
// ---------------------------------------------------------------------------

/// A background task, as the daemon encoded it; carried, never read.
#[derive(Clone, Debug, PartialEq, Eq)]
pub struct TaskView {
    pub encoded: String,
}

/// One line of a task's log, as the daemon encoded it; carried, never read.
#[derive(Clone, Debug, PartialEq, Eq)]
pub struct TaskLogEntry {
    pub encoded: String,
}

/// One note of a conversation's scratchpad; carried, never read.
#[derive(Clone, Debug, PartialEq, Eq)]
pub struct ScratchpadNoteView {
    pub id: String,
    pub key: String,
    pub content: String,
    pub note_type: String,
    pub sequence: Option<i64>,
    pub done: bool,
    pub updated_at: String,
}

/// The arguments a client tool accepts.
#[derive(Clone, Copy, Debug, PartialEq, Eq, Structural)]
pub enum InputSchema {
    /// An object with no properties, and none beyond those.
    NoArguments,
}

/// A client-side tool offered to the model.
#[derive(Clone, Debug, PartialEq, Eq)]
pub struct ClientToolRegistration {
    pub name: String,
    pub description: String,
    pub input_schema: InputSchema,
}

/// The value of a [`ClientToolRegistration`].
#[verifier::ext_equal]
pub struct ToolV {
    pub name: Seq<char>,
    pub description: Seq<char>,
    pub input_schema: InputSchema,
}

impl View for ClientToolRegistration {
    type V = ToolV;

    open spec fn view(&self) -> ToolV {
        ToolV { name: self.name@, description: self.description@, input_schema: self.input_schema }
    }
}

// ---------------------------------------------------------------------------
// MCP servers
// ---------------------------------------------------------------------------

/// An MCP server that the daemon hosts.
#[derive(Clone, Debug, PartialEq, Eq, Default)]
pub struct McpServerView {
    pub name: String,
    /// `"stdio"` or `"http"`.
    pub transport: String,
    pub status: String,
    pub tool_count: u32,
    /// Such as the last connection error.
    pub detail: Option<String>,
    /// What the server calls itself.
    pub title: Option<String>,
    /// What the server says it offers.
    pub description: Option<String>,
    /// What the server says is its home page.
    pub website_url: Option<String>,
}

// ---------------------------------------------------------------------------
// Settings
// ---------------------------------------------------------------------------

/// What a connection may do.
#[derive(Debug, PartialEq, Eq)]
pub enum Capability {
    /// Use the daemon.
    Tenant,
    /// Use and configure the daemon.
    Admin,
    /// A capability this build does not know, kept verbatim.
    Other(String),
}

/// The value of a [`Capability`].
#[verifier::ext_equal]
pub enum CapabilityV {
    Tenant,
    Admin,
    Other(Seq<char>),
}

impl CapabilityV {
    /// Whether holding this capability is enough where `required` is needed. An
    /// unknown capability grants nothing.
    pub open spec fn permits(self, required: CapabilityV) -> bool {
        match self {
            CapabilityV::Admin => required == CapabilityV::Admin || required
                == CapabilityV::Tenant,
            CapabilityV::Tenant => required == CapabilityV::Tenant,
            CapabilityV::Other(_) => false,
        }
    }

    /// The capability's name, for a message.
    pub open spec fn label(self) -> Seq<char> {
        match self {
            CapabilityV::Tenant => "tenant"@,
            CapabilityV::Admin => "admin"@,
            CapabilityV::Other(name) => name,
        }
    }
}

impl View for Capability {
    type V = CapabilityV;

    open spec fn view(&self) -> CapabilityV {
        match *self {
            Capability::Tenant => CapabilityV::Tenant,
            Capability::Admin => CapabilityV::Admin,
            Capability::Other(name) => CapabilityV::Other(name@),
        }
    }
}

impl Clone for Capability {
    fn clone(&self) -> (r: Self)
        ensures
            r == *self,
    {
        match self {
            Capability::Tenant => Capability::Tenant,
            Capability::Admin => Capability::Admin,
            Capability::Other(name) => Capability::Other(name.clone()),
        }
    }
}

impl Capability {
    /// Whether holding this capability is enough where `required` is needed.
    pub fn permits(&self, required: &Capability) -> (r: bool)
        ensures
            r == self@.permits(required@),
    {
        match (self, required) {
            (Capability::Admin, Capability::Admin) => true,
            (Capability::Admin, Capability::Tenant) => true,
            (Capability::Tenant, Capability::Tenant) => true,
            _ => false,
        }
    }

    /// The capability's name, for a message.
    pub fn label(&self) -> (r: &str)
        ensures
            r@ == self@.label(),
    {
        match self {
            Capability::Tenant => "tenant",
            Capability::Admin => "admin",
            Capability::Other(name) => name.as_str(),
        }
    }
}

/// The value of an optional capability.
pub open spec fn opt_capability(c: Option<Capability>) -> Option<CapabilityV> {
    match c {
        Some(x) => Some(x@),
        None => None,
    }
}

/// The stable code of a daemon error.
#[derive(Clone, Debug, PartialEq, Eq)]
pub enum ErrorCode {
    /// The caller lacks the capability.
    NotAuthorized,
    /// The daemon does not implement the command, or has it switched off.
    Unsupported,
    /// What the request names does not exist.
    NotFound,
    /// Any other code, verbatim.
    Other(String),
}

/// A daemon error.
#[derive(Clone, Debug, PartialEq, Eq)]
pub struct ErrorDetail {
    pub code: ErrorCode,
    /// For a developer.
    pub description: String,
    /// For the person using the client.
    pub message: String,
    /// Whether repeating the request could succeed.
    pub retryable: bool,
}

/// The live health of the embedding backend.
#[derive(Debug, PartialEq, Eq)]
pub enum EmbeddingHealth {
    Healthy,
    Disabled,
    Unavailable { reason: String },
    Unknown,
}

/// The value of an [`EmbeddingHealth`].
#[verifier::ext_equal]
pub enum HealthV {
    Healthy,
    Disabled,
    Unavailable { reason: Seq<char> },
    Unknown,
}

impl View for EmbeddingHealth {
    type V = HealthV;

    open spec fn view(&self) -> HealthV {
        match *self {
            EmbeddingHealth::Healthy => HealthV::Healthy,
            EmbeddingHealth::Disabled => HealthV::Disabled,
            EmbeddingHealth::Unavailable { reason } => HealthV::Unavailable { reason: reason@ },
            EmbeddingHealth::Unknown => HealthV::Unknown,
        }
    }
}

impl Clone for EmbeddingHealth {
    fn clone(&self) -> (r: Self)
        ensures
            r == *self,
    {
        match self {
            EmbeddingHealth::Healthy => EmbeddingHealth::Healthy,
            EmbeddingHealth::Disabled => EmbeddingHealth::Disabled,
            EmbeddingHealth::Unavailable { reason } => EmbeddingHealth::Unavailable {
                reason: reason.clone(),
            },
            EmbeddingHealth::Unknown => EmbeddingHealth::Unknown,
        }
    }
}

/// The embedding backend as the daemon reports it. A value that the daemon's
/// configuration does not set reads as the connector's default.
#[derive(Debug, PartialEq, Eq)]
pub struct EmbeddingsSettingsView {
    pub connector: String,
    pub model: String,
    pub base_url: String,
    pub has_api_key: bool,
    pub available: bool,
    /// Whether the connector follows the main one.
    pub is_default: bool,
    pub health: EmbeddingHealth,
}

/// The value of an [`EmbeddingsSettingsView`].
#[verifier::ext_equal]
pub struct LoadedV {
    pub connector: Seq<char>,
    pub model: Seq<char>,
    pub base_url: Seq<char>,
    pub has_api_key: bool,
    pub available: bool,
    pub is_default: bool,
    pub health: HealthV,
}

impl View for EmbeddingsSettingsView {
    type V = LoadedV;

    open spec fn view(&self) -> LoadedV {
        LoadedV {
            connector: self.connector@,
            model: self.model@,
            base_url: self.base_url@,
            has_api_key: self.has_api_key,
            available: self.available,
            is_default: self.is_default,
            health: self.health@,
        }
    }
}

impl Clone for EmbeddingsSettingsView {
    fn clone(&self) -> (r: Self)
        ensures
            r == *self,
    {
        EmbeddingsSettingsView {
            connector: self.connector.clone(),
            model: self.model.clone(),
            base_url: self.base_url.clone(),
            has_api_key: self.has_api_key,
            available: self.available,
            is_default: self.is_default,
            health: self.health.clone(),
        }
    }
}

/// The daemon's configuration, as far as the panels read it.
#[derive(Clone, Debug, PartialEq, Eq)]
pub struct Config {
    pub embeddings: EmbeddingsSettingsView,
    /// A handle for the default personality; carried, never read.
    pub personality: Option<u64>,
    /// The areas whose configured values are not in force.
    pub restart_required: Vec<String>,
    /// What the connection may do, when the daemon says.
    pub caller_capability: Option<Capability>,
}

/// A command to the daemon.
#[derive(Clone, Debug, PartialEq, Eq)]
pub enum Command {
    /// Replace the embedding backend's settings; `None` clears one.
    SetEmbeddingsSettings {
        connector: Option<String>,
        model: Option<String>,
        base_url: Option<String>,
    },
}

// ---------------------------------------------------------------------------
// Signals
// ---------------------------------------------------------------------------

/// An event the daemon pushes to its clients.
#[derive(Debug)]
pub enum SignalEvent {
    /// A user message was committed and a turn started.
    UserMessageAdded {
        conversation_id: String,
        request_id: String,
        content: String,
        idempotency_key: Option<String>,
    },
    /// A piece of a reply.
    Chunk { conversation_id: String, request_id: String, chunk: String },
    /// A reply finished.
    Complete { conversation_id: String, request_id: String, full_response: String },
    /// A turn failed.
    Error { conversation_id: String, request_id: String, error: String },
    /// A turn's transient status.
    Status { conversation_id: String, request_id: String, message: String },
    /// A turn's context-window fill.
    ContextUsage {
        conversation_id: String,
        request_id: String,
        used_tokens: u64,
        budget_tokens: u64,
        compaction_active: bool,
    },
    /// A conversation was given a title.
    TitleChanged { conversation_id: String, title: String },
    /// The conversation list changed on another connection.
    ConversationListChanged { conversation_id: String },
    /// A one-time advisory.
    ConversationWarning { conversation_id: String, warning: ConversationWarning },
    /// A background task started.
    TaskStarted { task: TaskView },
    /// A background task made progress.
    TaskProgress { id: String, progress_hint: Option<String> },
    /// A background task logged a line.
    TaskLogAppended { id: String, entry: TaskLogEntry },
    /// A background task ended, with its terminal status.
    TaskCompleted { id: String, status: String },
    /// A conversation's scratchpad changed.
    ScratchpadChanged { conversation_id: String },
    /// The knowledge base changed.
    KnowledgeChanged,
    /// A turn is suspended on a client-side tool.
    ClientToolCall {
        task_id: String,
        conversation_id: String,
        tool_call_id: String,
        tool_name: String,
        arguments: Value,
    },
    /// The link to the daemon is gone.
    Disconnected { reason: String },
}

/// The capabilities are ordered: what a tenant may do an administrator may do too, and
/// nothing else is granted by either or by an unknown one.
pub proof fn capabilities_are_ranked(held: CapabilityV, required: CapabilityV)
    ensures
        held.permits(required) <==> (held is Admin && (required is Admin || required is Tenant))
            || (held is Tenant && required is Tenant),
        CapabilityV::Tenant.permits(required) ==> CapabilityV::Admin.permits(required),
        held matches CapabilityV::Other(name) ==> held.label() == name,
        CapabilityV::Admin.label() == "admin"@,
        CapabilityV::Tenant.label() == "tenant"@,
{
}

} // verus!
