//! Shared, view-agnostic model and controller of the assistant's user
//! interfaces.
//!
//! A client supplies the view. It turns input and daemon signals into
//! [`UiMessage`]s, feeds them to [`WindowState::apply`], and performs the
//! [`Effect`]s it gets back. Nothing here refers to a widget, and the state holds
//! no connection: every round trip to the daemon is an effect whose outcome
//! comes back as a message.

pub mod api;
pub mod context_usage;
pub mod conversation;
pub mod effect;
pub mod json;
pub mod laws;
pub mod mcp_servers;
pub mod message;
pub mod reducer;
pub mod selected_models;
pub mod settings;
pub mod text;
pub mod transition;
pub mod voice;

pub use context_usage::{ContextFillLevel, ContextUsageView};
pub use effect::{Effect, TurnOutcome};
pub use message::{interactive_default_from_purposes, signal_to_ui_message, UiMessage};
pub use reducer::{refinement_for_send, voice_mode_client_tools, WindowState};
pub use selected_models::SelectedModel;
pub use voice::AdeleOutput;
