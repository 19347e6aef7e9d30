//! The reducer: every message, and what it does to the window's state.

use client_ui_common::api;
use client_ui_common::api::{ChatMessage, ConversationDetail, ConversationSummary, MessageKind};
use client_ui_common::conversation::{QueuedMessage, StreamState};
use client_ui_common::transition::QUEUE_JOIN;
use client_ui_common::voice::SendRefinement;
use client_ui_common::{
    refinement_for_send, AdeleOutput, Effect, SelectedModel, TurnOutcome, UiMessage,
    WindowState,
};
use serde_json::Value;

/// Accessors over the reply in flight, and builders of states.
trait StateExt {
    /// The only reply in flight, or `None`. Fails when there are several.
    fn any_stream(&self) -> Option<&StreamState>;
    /// The reply in flight of `conversation`.
    fn stream_of(&self, conversation: &str) -> Option<&StreamState>;
    /// The id that claimed the only reply in flight.
    fn stream_request_id(&self) -> Option<&str>;
    /// The conversation of the only reply in flight.
    fn stream_conversation_id(&self) -> Option<String>;
    /// Whether the only reply in flight is unclaimed.
    fn stream_unclaimed(&self) -> bool;
    /// Whether the only reply in flight belongs to a turn started elsewhere.
    fn stream_external(&self) -> bool;
    /// The state with `detail`'s conversation in view.
    fn with_open(self, detail: ConversationDetail) -> Self;
    /// The state with a reply in flight for `conversation`.
    fn with_stream(self, conversation: &str, stream: StreamState) -> Self;
}

impl StateExt for WindowState {
    fn any_stream(&self) -> Option<&StreamState> {
        let id = self.stream_conversation_id()?;
        self.stream_of(&id)
    }

    fn stream_of(&self, conversation: &str) -> Option<&StreamState> {
        self.open.get(conversation).and_then(|m| m.stream.as_ref())
    }

    fn stream_request_id(&self) -> Option<&str> {
        self.any_stream().and_then(|s| s.request_id.as_deref())
    }

    fn stream_conversation_id(&self) -> Option<String> {
        let mut streaming = self
            .open
            .ids()
            .into_iter()
            .filter(|id| self.stream_of(id).is_some());
        let first = streaming.next();
        assert!(streaming.next().is_none(), "several replies are in flight");
        first
    }

    fn stream_unclaimed(&self) -> bool {
        self.any_stream().is_some_and(|s| s.request_id.is_none())
    }

    fn stream_external(&self) -> bool {
        self.any_stream().is_some_and(|s| s.external)
    }

    fn with_open(mut self, detail: ConversationDetail) -> Self {
        let id = detail.id.clone();
        self.current_conversation_id = Some(id.clone());
        self.open.entry_or_default(&id).detail = Some(detail);
        self
    }

    fn with_stream(mut self, conversation: &str, stream: StreamState) -> Self {
        self.open.entry_or_default(conversation).stream = Some(stream);
        self
    }
}

/// A JSON object.
fn object(members: Vec<(&str, Value)>) -> Value {
    let mut map = serde_json::Map::new();
    for (name, value) in members {
        map.insert(name.to_string(), value);
    }
    Value::Object(map)
}

fn summary(id: &str, title: &str, archived: bool) -> ConversationSummary {
    ConversationSummary {
        id: id.to_string(),
        title: title.to_string(),
        message_count: 0,
        archived,
    }
}

fn msg(role: &str, content: &str) -> ChatMessage {
    ChatMessage {
        id: String::new(),
        role: role.to_string(),
        content: content.to_string(),
        kind: MessageKind::Normal,
        idempotency_key: None,
        // No server id, so there is no UUIDv7 to recover a
        // time from: `None` rather than a fabricated local clock reading.
        created_at_ms: None,
    }
}

fn detail(id: &str, messages: Vec<ChatMessage>) -> ConversationDetail {
    ConversationDetail {
        id: id.to_string(),
        title: format!("conv {id}"),
        messages,
        model_selection: None,
        conversation_personality: None,
        tool_gate_disabled: false,
    }
}

fn selection(connection_id: &str, model_id: &str) -> api::ConversationModelSelectionView {
    api::ConversationModelSelectionView {
        connection_id: connection_id.to_string(),
        model_id: model_id.to_string(),
        effort: None,
    }
}

fn listing(connection_id: &str, model_id: &str) -> api::ModelListing {
    api::ModelListing {
        connection_id: connection_id.to_string(),
        connection_label: connection_id.to_string(),
        model: api::ModelInfoView {
            id: model_id.to_string(),
            display_name: model_id.to_string(),
            context_limit: None,
            capabilities: api::ModelCapabilitiesView::default(),
        },
        notices: Vec::new(),
    }
}

#[test]
fn submit_prompt_threads_idempotency_key_into_send_effect() {
    let mut state = WindowState::default().with_open(detail("c1", vec![]));
    let effects = state.apply(UiMessage::SubmitPrompt {
        prompt: "hello".to_string(),
        idempotency_key: Some("turn-k".to_string()),
    });
    assert!(
        matches!(
            effects.as_slice(),
            [Effect::SendPrompt { idempotency_key: Some(k), .. }] if k == "turn-k"
        ),
        "the send effect must carry the client-minted idempotency key: {effects:?}"
    );
}

#[test]
fn optimistic_bubble_is_stamped_with_the_idempotency_key() {
    let mut state = WindowState::default().with_open(detail("c1", vec![]));
    state.apply(UiMessage::SubmitPrompt {
        prompt: "hello".to_string(),
        idempotency_key: Some("turn-k".to_string()),
    });
    let bubble = state
        .current_conversation()
        .expect("c1 is open")
        .messages
        .last()
        .expect("the optimistic user bubble");
    assert_eq!(bubble.role, "user");
    assert_eq!(
        bubble.idempotency_key.as_deref(),
        Some("turn-k"),
        "the optimistic user bubble must be stamped with the send's key"
    );
}

#[test]
fn an_echo_matching_the_optimistic_key_dedups_even_with_different_content() {
    // Our own send: key `k`, content "a" — drawn optimistically.
    let mut state = WindowState::default().with_open(detail("c1", vec![]));
    state.apply(UiMessage::SubmitPrompt {
        prompt: "a".to_string(),
        idempotency_key: Some("k".to_string()),
    });
    let echo = state.apply(UiMessage::UserMessageAdded {
        conversation_id: "c1".to_string(),
        request_id: "r".to_string(),
        content: "DIFFERENT".to_string(),
        idempotency_key: Some("k".to_string()),
    });
    assert!(
        !echo.iter().any(|e| matches!(e, Effect::AddUserMessage(_))),
        "an exact-key echo must not draw a second bubble even when content differs: {echo:?}"
    );
    let user_bubbles = state
        .current_conversation()
        .expect("c1 is open")
        .messages
        .iter()
        .filter(|m| m.role == "user")
        .count();
    assert_eq!(
        user_bubbles, 1,
        "exactly one user bubble (the optimistic one), not a duplicate"
    );
}

#[test]
fn a_keyless_echo_still_uses_the_content_fallback() {
    let mut state = WindowState::default().with_open(detail("c1", vec![]));
    state.apply(UiMessage::SubmitPrompt {
        prompt: "hi".to_string(),
        idempotency_key: None,
    });
    let echo = state.apply(UiMessage::UserMessageAdded {
        conversation_id: "c1".to_string(),
        request_id: "r".to_string(),
        content: "hi".to_string(),
        idempotency_key: None,
    });
    assert!(
        !echo.iter().any(|e| matches!(e, Effect::AddUserMessage(_))),
        "a keyless echo of our own send must fall back to the content compare: {echo:?}"
    );
    let user_bubbles = state
        .current_conversation()
        .expect("c1 is open")
        .messages
        .iter()
        .filter(|m| m.role == "user")
        .count();
    assert_eq!(
        user_bubbles, 1,
        "exactly one user bubble via the keyless content fallback"
    );
}

#[test]
fn reloaded_keyed_user_row_dedupes_matching_echo() {
    let mut state = WindowState::default().with_open(detail(
        "c1",
        vec![ChatMessage {
            id: "m1".to_string(),
            role: "user".to_string(),
            content: "hello".to_string(),
            kind: MessageKind::Normal,
            idempotency_key: Some("K".to_string()),
            // No server id, so there is no UUIDv7 to recover a
            // time from: `None` rather than a fabricated local clock reading.
            created_at_ms: None,
        }],
    ));
    let echo = state.apply(UiMessage::UserMessageAdded {
        conversation_id: "c1".to_string(),
        request_id: "R".to_string(),
        // Daemon-normalized content differs from the stored row — proving the
        // dedup is an exact-key match on the reloaded row, not a content
        // compare.
        content: "normalized-differently".to_string(),
        idempotency_key: Some("K".to_string()),
    });
    assert!(
        !echo.iter().any(|e| matches!(e, Effect::AddUserMessage(_))),
        "a keyed echo matching a reloaded row's key must not draw a second bubble: {echo:?}"
    );
    let user_bubbles = state
        .current_conversation()
        .expect("c1 is open")
        .messages
        .iter()
        .filter(|m| m.role == "user")
        .count();
    assert_eq!(
        user_bubbles, 1,
        "exactly one user bubble (the reloaded row) — the reconnect-interleave hole is closed"
    );
}

#[test]
fn reloaded_keyless_user_row_still_falls_back() {
    let mut state = WindowState::default().with_open(detail(
        "c1",
        vec![ChatMessage {
            id: "m1".to_string(),
            role: "user".to_string(),
            content: "hello".to_string(),
            kind: MessageKind::Normal,
            idempotency_key: None,
            // No server id, so there is no UUIDv7 to recover a
            // time from: `None` rather than a fabricated local clock reading.
            created_at_ms: None,
        }],
    ));
    let echo = state.apply(UiMessage::UserMessageAdded {
        conversation_id: "c1".to_string(),
        request_id: "R".to_string(),
        content: "hello".to_string(),
        idempotency_key: None,
    });
    assert!(
        echo.iter().any(|e| matches!(e, Effect::AddUserMessage(_))),
        "without a persisted key the reloaded real-id row is not deduped — Case 2 redraws it: {echo:?}"
    );
    let user_bubbles = state
        .current_conversation()
        .expect("c1 is open")
        .messages
        .iter()
        .filter(|m| m.role == "user")
        .count();
    assert_eq!(
        user_bubbles, 2,
        "the keyless reload hole remains: the persisted row plus a redrawn duplicate"
    );
}

#[test]
fn queue_flush_uses_the_first_queued_messages_key() {
    let mut state = mid_stream_state("c1", "c1");
    state.apply(UiMessage::SubmitPrompt {
        prompt: "a".to_string(),
        idempotency_key: Some("ka".to_string()),
    });
    state.apply(UiMessage::SubmitPrompt {
        prompt: "b".to_string(),
        idempotency_key: Some("kb".to_string()),
    });
    let effects = state.apply(UiMessage::StreamComplete {
        request_id: "req-real".to_string(),
        full_response: "done".to_string(),
    });
    let sent = effects.iter().find_map(|e| match e {
        Effect::SendPrompt {
            idempotency_key,
            prompt,
            ..
        } => Some((idempotency_key.clone(), prompt.clone())),
        _ => None,
    });
    assert_eq!(
        sent,
        Some((Some("ka".to_string()), "a\n\nb".to_string())),
        "the combined flush turn adopts the FIRST queued message's key: {effects:?}"
    );
}

#[test]
fn case0_claims_request_id_onto_pending_stream() {
    let mut state = WindowState::default().with_open(detail("c1", vec![]));
    state.apply(UiMessage::SubmitPrompt {
        prompt: "hello".to_string(),
        idempotency_key: Some("K".to_string()),
    });
    state.apply(UiMessage::PromptSent {
        task_id: "ack-1".to_string(),
        conversation_id: "c1".to_string(),
        idempotency_key: None,
    });
    assert!(
        state.stream_unclaimed(),
        "precondition: the ack left a __pending__ stream with no claimed id"
    );
    let echo = state.apply(UiMessage::UserMessageAdded {
        conversation_id: "c1".to_string(),
        request_id: "R".to_string(),
        content: "normalized-differently".to_string(),
        idempotency_key: Some("K".to_string()),
    });
    assert_eq!(
        state.stream_request_id(),
        Some("R"),
        "Case 0 must claim the real request_id onto the pending stream"
    );
    assert!(
        !echo.iter().any(|e| matches!(e, Effect::AddUserMessage(_))),
        "the keyed echo must not draw a second bubble: {echo:?}"
    );
    let user_bubbles = state
        .current_conversation()
        .expect("c1 is open")
        .messages
        .iter()
        .filter(|m| m.role == "user")
        .count();
    assert_eq!(
        user_bubbles, 1,
        "exactly one user bubble (the optimistic one)"
    );
}

#[test]
fn case0_echo_before_ack_no_stream_renders_nothing() {
    let mut state = WindowState::default().with_open(detail("c1", vec![]));
    state.apply(UiMessage::SubmitPrompt {
        prompt: "hi".to_string(),
        idempotency_key: Some("K".to_string()),
    });
    assert!(
        state.any_stream().is_none(),
        "precondition: no stream is open before the ack"
    );
    let echo = state.apply(UiMessage::UserMessageAdded {
        conversation_id: "c1".to_string(),
        request_id: "R".to_string(),
        content: "hi".to_string(),
        idempotency_key: Some("K".to_string()),
    });
    assert!(
        echo.is_empty(),
        "a keyed echo with no stream yet must render nothing: {echo:?}"
    );
    let user_bubbles = state
        .current_conversation()
        .expect("c1 is open")
        .messages
        .iter()
        .filter(|m| m.role == "user")
        .count();
    assert_eq!(
        user_bubbles, 1,
        "dedup holds before the ack opens the stream: one bubble only"
    );
}

#[test]
fn prompt_sent_sets_pending_sentinel_and_clears_buffer() {
    // A prior stream left a partial buffer on c1; PromptSent for c1 must
    // start the new turn from a clean slate (a fresh __pending__ stream).
    let mut state = WindowState {
        current_conversation_id: Some("c1".to_string()),
        ..Default::default()
    }
    .with_stream(
        "c1",
        StreamState {
            buffer: "leftover".to_string(),
            ..Default::default()
        },
    );
    let effects = state.apply(UiMessage::PromptSent {
        task_id: "ack-1".to_string(),
        conversation_id: "c1".to_string(),
        idempotency_key: None,
    });
    assert!(
        !effects
            .iter()
            .any(|e| !matches!(e, Effect::TurnFinished { .. })),
        "PromptSent performs no widget effects: {effects:?}"
    );
    assert!(
        state.stream_unclaimed(),
        "the request id is the __pending__ sentinel until the first frame claims it"
    );
    assert!(state.streaming_buffer().is_empty());
}

#[test]
fn prompt_sent_records_originating_conversation() {
    let mut state = WindowState {
        // The user already switched to c2 by the time the ack arrived; the
        // recorded conversation must still be the send-time one.
        current_conversation_id: Some("c2".to_string()),
        ..Default::default()
    };
    state.apply(UiMessage::PromptSent {
        task_id: "ack-1".to_string(),
        conversation_id: "c1".to_string(),
        idempotency_key: None,
    });
    assert_eq!(state.stream_conversation_id().as_deref(), Some("c1"));
}

#[test]
fn active_task_id_for_view_returns_the_open_turns_task_id() {
    // PromptSent carries the background-task id (the handle Cancel acts on);
    // the reducer records it on the open conversation's stream so a view can
    // offer Cancel for the in-flight turn.
    let mut state = WindowState {
        current_conversation_id: Some("c1".to_string()),
        ..Default::default()
    };
    state.apply(UiMessage::PromptSent {
        task_id: "task-42".to_string(),
        conversation_id: "c1".to_string(),
        idempotency_key: None,
    });
    assert_eq!(state.active_task_id_for_view().as_deref(), Some("task-42"));
}

#[test]
fn active_task_id_for_view_is_none_without_a_stream() {
    let state = WindowState {
        current_conversation_id: Some("c1".to_string()),
        ..Default::default()
    };
    assert_eq!(state.active_task_id_for_view(), None);
}

#[test]
fn active_task_id_for_view_clears_when_the_stream_completes() {
    let mut state = WindowState {
        current_conversation_id: Some("c1".to_string()),
        ..Default::default()
    }
    .with_open(detail("c1", vec![]));
    state.apply(UiMessage::PromptSent {
        task_id: "task-42".to_string(),
        conversation_id: "c1".to_string(),
        idempotency_key: None,
    });
    // The unique pending stream claims this completion.
    state.apply(UiMessage::StreamComplete {
        request_id: "r1".to_string(),
        full_response: "done".to_string(),
    });
    assert_eq!(
        state.active_task_id_for_view(),
        None,
        "a finished turn is no longer cancelable"
    );
}

#[test]
fn active_task_id_for_view_clears_when_the_stream_errors() {
    // The abandonment/watchdog path (StreamError) tears the stream down, so
    // the Cancel affordance for that turn disappears with it.
    let mut state = WindowState {
        current_conversation_id: Some("c1".to_string()),
        ..Default::default()
    }
    .with_open(detail("c1", vec![]));
    state.apply(UiMessage::PromptSent {
        task_id: "task-42".to_string(),
        conversation_id: "c1".to_string(),
        idempotency_key: None,
    });
    state.apply(UiMessage::StreamError {
        request_id: "r1".to_string(),
        error: "boom".to_string(),
    });
    assert_eq!(
        state.active_task_id_for_view(),
        None,
        "an errored/abandoned turn is no longer cancelable"
    );
}

#[test]
fn active_task_id_for_view_is_none_for_a_legacy_empty_task_id() {
    let mut state = WindowState {
        current_conversation_id: Some("c1".to_string()),
        ..Default::default()
    };
    state.apply(UiMessage::PromptSent {
        task_id: String::new(),
        conversation_id: "c1".to_string(),
        idempotency_key: None,
    });
    assert!(
        state.streaming_is_active_for_view(),
        "a stream is in flight"
    );
    assert_eq!(
        state.active_task_id_for_view(),
        None,
        "but with no task id it cannot be cancelled"
    );
}

#[test]
fn active_task_id_for_view_is_none_for_an_adopted_external_turn() {
    // A turn started elsewhere (a voice turn / another client) adopted into
    // the open conversation streams live, but this client never received its
    // ack, so it holds no task id and cannot offer Cancel for it.
    let mut state = WindowState {
        current_conversation_id: Some("c1".to_string()),
        ..Default::default()
    }
    .with_open(detail("c1", vec![]));
    state.apply(UiMessage::UserMessageAdded {
        conversation_id: "c1".to_string(),
        request_id: "r1".to_string(),
        content: "hi from voice".to_string(),
        idempotency_key: None,
    });
    assert!(
        state.streaming_is_active_for_view(),
        "the adopted external turn streams into the view"
    );
    assert_eq!(
        state.active_task_id_for_view(),
        None,
        "an adopted external turn carries no local task id"
    );
}

#[test]
fn active_task_id_for_view_tracks_only_the_open_conversation() {
    // A turn is in flight on a backgrounded conversation; the open one has
    // none. The view's Cancel handle must reflect the OPEN conversation, so
    // the background turn's id must not leak into it.
    let mut state = WindowState {
        current_conversation_id: Some("c1".to_string()),
        ..Default::default()
    };
    state.apply(UiMessage::PromptSent {
        task_id: "task-bg".to_string(),
        conversation_id: "c2".to_string(),
        idempotency_key: None,
    });
    assert_eq!(
        state.active_task_id_for_view(),
        None,
        "c1 is open with no turn; c2's background turn is not the view's"
    );
}

/// Drive a direct send into `c1`, open its stream, then fail it.
fn send_then_fail(prompt: &str) -> WindowState {
    let mut state = WindowState {
        current_conversation_id: Some("c1".to_string()),
        ..Default::default()
    }
    .with_open(detail("c1", vec![]));
    state.apply(UiMessage::SubmitPrompt {
        prompt: prompt.to_string(),
        idempotency_key: None,
    });
    state.apply(UiMessage::PromptSent {
        task_id: "t-1".to_string(),
        conversation_id: "c1".to_string(),
        idempotency_key: None,
    });
    state.apply(UiMessage::StreamError {
        request_id: "r1".to_string(),
        error: "the turn was abandoned".to_string(),
    });
    state
}

#[test]
fn stream_error_offers_retry_of_the_failed_prompt() {
    // The timed-out/abandoned turn's prompt is offered back so the user can
    // resend it ("try again") — the prompt is never dropped.
    let mut state = send_then_fail("summarize the meeting notes");
    assert_eq!(
        state.take_pending_retry_prompt().as_deref(),
        Some("summarize the meeting notes")
    );
}

#[test]
fn retry_offer_is_consumed_once() {
    let mut state = send_then_fail("hello");
    assert_eq!(state.take_pending_retry_prompt().as_deref(), Some("hello"));
    assert_eq!(
        state.take_pending_retry_prompt(),
        None,
        "the offer is one-shot: a second take yields nothing"
    );
}

#[test]
fn retry_is_not_offered_when_follow_ups_were_queued() {
    // The user queued a follow-up while the turn streamed, then it failed.
    // Their queued message is theirs to send (it flushes); we do not also
    // shove the failed prompt back into the composer over the top of it.
    let mut state = WindowState {
        current_conversation_id: Some("c1".to_string()),
        ..Default::default()
    }
    .with_open(detail("c1", vec![]));
    state.apply(UiMessage::SubmitPrompt {
        prompt: "first".to_string(),
        idempotency_key: None,
    });
    state.apply(UiMessage::PromptSent {
        task_id: "t-1".to_string(),
        conversation_id: "c1".to_string(),
        idempotency_key: None,
    });
    // A second send while streaming is QUEUED, not sent.
    state.apply(UiMessage::SubmitPrompt {
        prompt: "second".to_string(),
        idempotency_key: None,
    });
    state.apply(UiMessage::StreamError {
        request_id: "r1".to_string(),
        error: "boom".to_string(),
    });
    assert_eq!(
        state.take_pending_retry_prompt(),
        None,
        "queued follow-ups flush; the failed prompt is not re-offered on top"
    );
}

#[test]
fn retry_is_not_offered_for_a_background_conversation_failure() {
    // A turn on a conversation that is NOT in view fails; the open
    // conversation's composer must not be touched.
    let mut state = WindowState {
        current_conversation_id: Some("c1".to_string()),
        ..Default::default()
    }
    .with_open(detail("c1", vec![]));
    // A background turn on c2 (no bubble drawn in the open view).
    state.apply(UiMessage::PromptSent {
        task_id: "t-2".to_string(),
        conversation_id: "c2".to_string(),
        idempotency_key: None,
    });
    state.apply(UiMessage::StreamError {
        request_id: "r2".to_string(),
        error: "boom".to_string(),
    });
    assert_eq!(state.take_pending_retry_prompt(), None);
}

#[test]
fn a_successful_turn_offers_no_retry() {
    let mut state = WindowState {
        current_conversation_id: Some("c1".to_string()),
        ..Default::default()
    }
    .with_open(detail("c1", vec![]));
    state.apply(UiMessage::SubmitPrompt {
        prompt: "hello".to_string(),
        idempotency_key: None,
    });
    state.apply(UiMessage::PromptSent {
        task_id: "t-1".to_string(),
        conversation_id: "c1".to_string(),
        idempotency_key: None,
    });
    state.apply(UiMessage::StreamComplete {
        request_id: "r1".to_string(),
        full_response: "hi there".to_string(),
    });
    assert_eq!(
        state.take_pending_retry_prompt(),
        None,
        "a turn that finished has nothing to retry"
    );
}

// --- SubmitPrompt / SendFailed: the core-owned send decision ----------

#[test]
fn submit_prompt_draws_the_bubble_and_emits_send_prompt() {
    let mut state = WindowState {
        ..Default::default()
    }
    .with_open(detail("c1", vec![]));
    let effects = state.apply(UiMessage::SubmitPrompt {
        prompt: "hello".to_string(),
        idempotency_key: None,
    });
    // Optimistic user bubble drawn into the open transcript...
    let conv = state.current_conversation().unwrap();
    assert_eq!(conv.messages.len(), 1);
    assert_eq!(conv.messages[0].role, "user");
    assert_eq!(conv.messages[0].content, "hello");
    // ...and the RPC effect emitted for the client to run. Adele is Disabled
    // by default, so no voice refinement rides along.
    assert!(
        matches!(
            effects.as_slice(),
            [Effect::SendPrompt { conversation_id, prompt, system_refinement, .. }]
                if conversation_id == "c1" && prompt == "hello" && system_refinement.is_none()
        ),
        "{effects:?}"
    );
}

#[test]
fn submit_prompt_carries_the_voice_refinement_when_adele_is_on() {
    let mut state = WindowState {
        ..Default::default()
    }
    .with_open(detail("c1", vec![]));
    state.apply(UiMessage::SetAdeleOutput {
        conversation_id: "c1".to_string(),
        level: AdeleOutput::OnDemand,
    });
    let effects = state.apply(UiMessage::SubmitPrompt {
        prompt: "hi".to_string(),
        idempotency_key: None,
    });
    assert!(
        matches!(
            effects.as_slice(),
            [Effect::SendPrompt { system_refinement: Some(SendRefinement::OnDemand), .. }]
        ),
        "an OnDemand conversation must carry a speech refinement: {effects:?}"
    );
}

#[test]
fn submit_prompt_while_streaming_queues_instead_of_refusing() {
    let mut state = mid_stream_state("c1", "c1");
    let before = state.current_conversation().unwrap().messages.len();
    let effects = state.apply(UiMessage::SubmitPrompt {
        prompt: "second".to_string(),
        idempotency_key: None,
    });
    assert!(
        matches!(
            effects.as_slice(),
            [
                Effect::SetComposerText(t),
                Effect::SetQueuedMessages { messages, editing: None }
            ] if t.is_empty() && messages == &["second".to_string()]
        ),
        "a mid-stream send clears the composer and queues the text: {effects:?}"
    );
    assert!(
        !effects
            .iter()
            .any(|e| matches!(e, Effect::SendPrompt { .. })),
        "a queued send must not emit an RPC yet: {effects:?}"
    );
    assert_eq!(
        state.current_conversation().unwrap().messages.len(),
        before,
        "a queued send must not append a bubble yet"
    );
    assert_eq!(
        state.queued_messages_for_view(),
        &["second".to_string()],
        "the text is now queued"
    );
}

#[test]
fn submit_prompt_empty_is_a_silent_noop() {
    let mut state = WindowState {
        ..Default::default()
    }
    .with_open(detail("c1", vec![]));
    let effects = state.apply(UiMessage::SubmitPrompt {
        prompt: String::new(),
        idempotency_key: None,
    });
    assert!(effects.is_empty());
    assert!(state.current_conversation().unwrap().messages.is_empty());
}

#[test]
fn send_failed_rolls_back_the_matching_optimistic_tail() {
    let mut state = WindowState {
        ..Default::default()
    }
    .with_open(detail("c1", vec![msg("user", "doomed")]));
    let effects = state.apply(UiMessage::SendFailed {
        conversation_id: "c1".to_string(),
        prompt: "doomed".to_string(),
    });
    assert!(effects.is_empty());
    assert!(
        state.current_conversation().unwrap().messages.is_empty(),
        "the optimistic user bubble must be rolled back"
    );
}

#[test]
fn send_failed_leaves_another_conversations_tail_intact() {
    let mut state = WindowState {
        ..Default::default()
    }
    .with_open(detail("c2", vec![msg("user", "different")]));
    state.apply(UiMessage::SendFailed {
        conversation_id: "c1".to_string(),
        prompt: "doomed".to_string(),
    });
    assert_eq!(
        state.current_conversation().unwrap().messages.len(),
        1,
        "the other conversation's transcript stays intact"
    );
}

#[test]
fn send_failed_does_not_pop_a_non_matching_tail() {
    // Something landed after the optimistic append (e.g. an inline note): only
    // an exact matching tail is rolled back, never an unrelated last message.
    let mut state = WindowState {
        ..Default::default()
    }
    .with_open(detail(
        "c1",
        vec![msg("user", "doomed"), msg("assistant", "(an aside)")],
    ));
    state.apply(UiMessage::SendFailed {
        conversation_id: "c1".to_string(),
        prompt: "doomed".to_string(),
    });
    assert_eq!(
        state.current_conversation().unwrap().messages.len(),
        2,
        "a non-matching tail must not be popped"
    );
}

#[test]
fn composer_draft_round_trips_and_is_per_conversation() {
    let mut state = WindowState::default();
    // Absent → empty.
    assert_eq!(state.composer_draft("c1"), "");
    // Independent drafts per conversation.
    state.set_composer_draft("c1", "half a thought".to_string());
    state.set_composer_draft("c2", "a different one".to_string());
    assert_eq!(state.composer_draft("c1"), "half a thought");
    assert_eq!(state.composer_draft("c2"), "a different one");
    // Overwrite replaces in place.
    state.set_composer_draft("c1", "rewritten".to_string());
    assert_eq!(state.composer_draft("c1"), "rewritten");
}

#[test]
fn set_composer_draft_empty_clears_the_entry() {
    let mut state = WindowState::default();
    state.set_composer_draft("c1", "typing".to_string());
    // An empty snapshot drops the draft so the map only retains real ones.
    state.set_composer_draft("c1", String::new());
    assert_eq!(state.composer_draft("c1"), "");
}

#[test]
fn submit_prompt_clears_the_sent_conversations_draft() {
    // A switch-away snapshot saved a draft for c1; sending it must drop the
    // saved draft so switching back can't resurrect the just-sent text.
    let mut state = WindowState::default().with_open(detail("c1", vec![]));
    state.set_composer_draft("c1", "hello".to_string());
    state.apply(UiMessage::SubmitPrompt {
        prompt: "hello".to_string(),
        idempotency_key: None,
    });
    assert_eq!(
        state.composer_draft("c1"),
        "",
        "a committed send clears the conversation's saved draft"
    );
}

#[test]
fn a_queued_send_moves_the_draft_into_the_outbox() {
    let mut state = mid_stream_state("c1", "c1");
    state.set_composer_draft("c1", "queued".to_string());
    state.apply(UiMessage::SubmitPrompt {
        prompt: "queued".to_string(),
        idempotency_key: None,
    });
    assert_eq!(
        state.composer_draft("c1"),
        "",
        "a queued send clears the saved draft (the text moved to the queue)"
    );
    assert_eq!(
        state.queued_messages_for_view(),
        &["queued".to_string()],
        "the text is now in the outbox"
    );
}

#[test]
fn deleting_a_conversation_prunes_its_draft() {
    let mut state = WindowState {
        conversations: vec![summary("c1", "one", false)],
        ..Default::default()
    }
    .with_open(detail("c1", vec![]));
    state.set_composer_draft("c1", "orphan".to_string());
    state.apply(UiMessage::ConversationDeleted {
        id: "c1".to_string(),
    });
    assert_eq!(state.composer_draft("c1"), "");
    assert!(
        state.open.is_empty(),
        "the deleted conversation's model (and its draft) must be pruned"
    );
}

/// Pin a (claimed) in-flight stream onto conversation `from`'s model, viewed
/// from `current`. When `from != current` both models exist in `open`: `from`
/// holds the backgrounded stream, `current` is the open transcript.
fn mid_stream_state(from: &str, current: &str) -> WindowState {
    WindowState::default()
        .with_stream(
            from,
            StreamState {
                request_id: Some("req-real".to_string()),
                buffer: "partial ".to_string(),
                ..Default::default()
            },
        )
        .with_open(detail(current, vec![msg("user", "hi")]))
}

#[test]
fn chunk_after_conversation_switch_is_buffered_not_rendered() {
    let mut state = mid_stream_state("c1", "c2");
    let effects = state.apply(UiMessage::StreamChunk {
        request_id: "req-real".to_string(),
        chunk: "more".to_string(),
    });
    assert!(
        !effects.iter().any(|e| matches!(e, Effect::ReceiveChunk(_))),
        "a background stream's chunk must not render into the open conversation: {effects:?}"
    );
    // The chunk accumulates into the ORIGINATING conversation's own stream
    // (c1), not the open one — `streaming_buffer()` reads the open (c2)
    // conversation, which isn't streaming, so it stays empty.
    assert_eq!(
        state.stream_of("c1").unwrap().buffer,
        "partial more",
        "the chunk must still accumulate for the originating conversation"
    );
    assert_eq!(
        state.streaming_buffer(),
        "",
        "the open conversation (c2) isn't streaming, so the view buffer stays empty"
    );
}

#[test]
fn streaming_accessors_reflect_pending_state() {
    // Fresh: nothing streaming, empty buffer.
    let state = WindowState::default();
    assert!(!state.is_streaming());
    assert_eq!(state.streaming_buffer(), "");

    // A stream pinned to c1, viewed from c1: streaming, buffered, in view.
    let state = mid_stream_state("c1", "c1");
    assert!(state.is_streaming());
    assert_eq!(state.streaming_buffer(), "partial ");
    assert!(state.streaming_is_active_for_view());

    // The same stream after switching to c2: still streaming and buffering,
    // but NOT active for the view — the render guard must hold.
    let state = mid_stream_state("c1", "c2");
    assert!(state.is_streaming());
    assert!(!state.streaming_is_active_for_view());
}

#[test]
fn reset_streaming_state_discards_the_partial_without_finalizing() {
    let mut state = mid_stream_state("c1", "c1");
    let before = state.current_conversation().unwrap().messages.len();

    state.reset_streaming_state();

    assert!(!state.is_streaming(), "the pending stream must be cleared");
    assert_eq!(state.streaming_buffer(), "", "the partial must be dropped");
    // The emptied buffer is what makes the view's render guard inert
    // (`!buffer.is_empty() && active`): with no originating conversation
    // recorded, `streaming_is_active_for_view()` is vacuously true, so it's
    // the empty buffer — not the guard — that stops the partial painting.
    assert_eq!(
        state.current_conversation().unwrap().messages.len(),
        before,
        "reset must NOT append a [Connection lost] stub (that's Disconnected's job)"
    );
}

#[test]
fn reset_streaming_state_prevents_misclaim_of_the_next_stream() {
    let mut state = mid_stream_state("c1", "c1");
    state.reset_streaming_state();

    let effects = state.apply(UiMessage::StreamChunk {
        request_id: "post-reconnect-req".to_string(),
        chunk: "someone else's chunk".to_string(),
    });

    assert!(
        effects.is_empty(),
        "a chunk with nothing pending is ignored"
    );
    assert_eq!(state.streaming_buffer(), "", "and nothing is buffered");
}

#[test]
fn complete_after_switch_does_not_append_to_current_conversation() {
    let mut state = mid_stream_state("c1", "c2");
    let effects = state.apply(UiMessage::StreamComplete {
        request_id: "req-real".to_string(),
        full_response: "the answer".to_string(),
    });
    assert!(
        !effects
            .iter()
            .any(|e| matches!(e, Effect::CompleteStreaming(_))),
        "a background completion must not finalize into the open chat: {effects:?}"
    );
    let current = state.current_conversation().unwrap();
    assert!(
        current.messages.iter().all(|m| m.content != "the answer"),
        "the reply must not be appended to the wrong conversation"
    );
    assert!(!state.is_streaming(), "stream is over");
}

#[test]
fn assistant_status_for_background_stream_is_not_shown() {
    let mut state = mid_stream_state("c1", "c2");
    let effects = state.apply(UiMessage::AssistantStatus {
        request_id: "req-real".to_string(),
        message: "Searching...".to_string(),
    });
    assert!(
        !effects
            .iter()
            .any(|e| matches!(e, Effect::SetChatStatus(_))),
        "background status must not show over another conversation: {effects:?}"
    );
}

#[test]
fn switching_away_mid_stream_clears_chat_status() {
    let mut state = mid_stream_state("c1", "c1");
    let effects = state.apply(UiMessage::ConversationLoaded(detail("c2", vec![])));
    assert!(
        effects.iter().any(|e| matches!(e, Effect::ClearChatStatus)),
        "the streaming turn's status must not linger over c2: {effects:?}"
    );
}

#[test]
fn switching_back_to_streaming_conversation_reseeds_partial_reply() {
    let mut state = mid_stream_state("c1", "c2");
    let effects = state.apply(UiMessage::ConversationLoaded(detail("c1", vec![])));
    let position_load = effects
        .iter()
        .position(|e| matches!(e, Effect::LoadConversationIntoChat(_)));
    let position_seed = effects
        .iter()
        .position(|e| matches!(e, Effect::ReceiveChunk(c) if c == "partial "));
    assert!(
        position_seed.is_some(),
        "the buffered partial reply must be re-seeded: {effects:?}"
    );
    assert!(
        position_load < position_seed,
        "the seed must render after the conversation loads: {effects:?}"
    );
}

#[test]
fn disconnect_mid_stream_after_switch_does_not_finalize_into_current() {
    let mut state = mid_stream_state("c1", "c2");
    let effects = state.apply(UiMessage::Disconnected {
        reason: "socket closed".to_string(),
    });
    assert!(
        !effects
            .iter()
            .any(|e| matches!(e, Effect::CompleteStreaming(_))),
        "the truncated background stream must not render into c2: {effects:?}"
    );
    let current = state.current_conversation().unwrap();
    assert!(
        current
            .messages
            .iter()
            .all(|m| !m.content.contains("[Connection lost]")),
        "the [Connection lost] marker must not land in the wrong conversation"
    );
    assert!(!state.is_streaming());
}

#[test]
fn narration_skipped_when_originating_conversation_backgrounded() {
    let mut state = mid_stream_state("c1", "c2");
    state.open.entry_or_default("c1").adele_output = AdeleOutput::Always;
    let effects = state.apply(UiMessage::StreamComplete {
        request_id: "req-real".to_string(),
        full_response: "an answer".to_string(),
    });
    assert!(
        !effects.iter().any(|e| matches!(e, Effect::Speak(_))),
        "a background conversation's reply must not be narrated: {effects:?}"
    );
}

/// Two conversations streaming at once: `c1` is backgrounded (its claimed
/// stream has a buffered prefix), `c2` is the open conversation and also
/// streaming.
fn two_streams_state() -> WindowState {
    WindowState::default()
        .with_stream(
            "c1",
            StreamState {
                request_id: Some("req-c1".to_string()),
                buffer: "c1 partial ".to_string(),
                ..Default::default()
            },
        )
        .with_stream(
            "c2",
            StreamState {
                request_id: Some("req-c2".to_string()),
                buffer: "c2 partial ".to_string(),
                ..Default::default()
            },
        )
        .with_open(detail("c2", vec![msg("user", "hi from c2")]))
}

/// A chunk for the BACKGROUNDED conversation accumulates into its own model
/// and emits no render Effect into the open conversation — the core enabler
/// of background streaming.
#[test]
fn concurrent_chunk_for_background_conversation_accumulates_silently() {
    let mut state = two_streams_state();
    let effects = state.apply(UiMessage::StreamChunk {
        request_id: "req-c1".to_string(),
        chunk: "more c1".to_string(),
    });
    assert!(
        effects.is_empty(),
        "a backgrounded conversation's chunk must emit no view Effect: {effects:?}"
    );
    assert_eq!(
        state.stream_of("c1").unwrap().buffer,
        "c1 partial more c1",
        "the chunk must accumulate into c1's own stream"
    );
    // The open conversation's stream is untouched, and what the view reads
    // back is still c2's partial.
    assert_eq!(state.stream_of("c2").unwrap().buffer, "c2 partial ");
    assert_eq!(state.streaming_buffer(), "c2 partial ");
}

/// A chunk for the OPEN conversation renders live while the other streams in
/// the background — the two never cross-wire.
#[test]
fn concurrent_chunk_for_open_conversation_renders_and_does_not_touch_other() {
    let mut state = two_streams_state();
    let effects = state.apply(UiMessage::StreamChunk {
        request_id: "req-c2".to_string(),
        chunk: "more c2".to_string(),
    });
    assert!(
        matches!(effects.as_slice(), [Effect::ReceiveChunk(c)] if c == "more c2"),
        "the open conversation's chunk renders live (non-first, no status clear): {effects:?}"
    );
    assert_eq!(state.stream_of("c2").unwrap().buffer, "c2 partial more c2");
    assert_eq!(
        state.stream_of("c1").unwrap().buffer,
        "c1 partial ",
        "the backgrounded conversation's stream must be undisturbed"
    );
}

/// Switching TO a backgrounded streaming conversation re-seeds ITS partial
/// (not the one we left) — its buffered prefix returns to the view.
#[test]
fn switching_to_other_streaming_conversation_reseeds_its_own_partial() {
    let mut state = two_streams_state();
    let effects = state.apply(UiMessage::ConversationLoaded(detail("c1", vec![])));
    let seed = effects
        .iter()
        .position(|e| matches!(e, Effect::ReceiveChunk(c) if c == "c1 partial "));
    let load = effects
        .iter()
        .position(|e| matches!(e, Effect::LoadConversationIntoChat(_)));
    assert!(
        seed.is_some(),
        "switching to c1 must re-seed c1's buffered partial: {effects:?}"
    );
    assert!(
        load < seed,
        "the seed must render after the load: {effects:?}"
    );
    // Both streams keep buffering — neither was finalized by the switch.
    assert!(state.stream_of("c1").is_some());
    assert!(state.stream_of("c2").is_some());
    assert_eq!(state.streaming_buffer(), "c1 partial ");
}

/// Completing ONE stream finalizes only its conversation; the other keeps
/// streaming undisturbed.
#[test]
fn completing_one_stream_leaves_the_other_streaming() {
    let mut state = two_streams_state();
    // Complete the OPEN conversation's (c2) stream.
    let effects = state.apply(UiMessage::StreamComplete {
        request_id: "req-c2".to_string(),
        full_response: "c2 done".to_string(),
    });
    assert!(
        effects
            .iter()
            .any(|e| matches!(e, Effect::CompleteStreaming(c) if c == "c2 done")),
        "the open conversation's completion must finalize into the view: {effects:?}"
    );
    assert!(state.stream_of("c2").is_none(), "c2's stream is cleared");
    assert_eq!(
        state.stream_of("c1").unwrap().buffer,
        "c1 partial ",
        "c1 must still be streaming, undisturbed"
    );
    assert!(
        state.is_streaming(),
        "a turn (c1) is still in flight somewhere"
    );
}

#[test]
fn completing_background_stream_does_not_touch_open_conversation() {
    let mut state = two_streams_state();
    let effects = state.apply(UiMessage::StreamComplete {
        request_id: "req-c1".to_string(),
        full_response: "c1 done".to_string(),
    });
    assert!(
        matches!(
            effects.as_slice(),
            [Effect::TurnFinished { conversation_id, .. }] if conversation_id == "c1"
        ),
        "a backgrounded completion must not render into the open chat: {effects:?}"
    );
    assert!(state.stream_of("c1").is_none(), "c1's stream is cleared");
    assert_eq!(
        state.stream_of("c2").unwrap().buffer,
        "c2 partial ",
        "the open conversation's stream must be untouched"
    );
    // The open conversation's transcript must not have gained c1's reply.
    assert!(
        state
            .current_conversation()
            .unwrap()
            .messages
            .iter()
            .all(|m| m.content != "c1 done"),
        "c1's reply must not leak into c2's transcript"
    );
}

/// Erroring one stream surfaces its error but leaves the other streaming.
#[test]
fn erroring_one_stream_leaves_the_other_streaming() {
    let mut state = two_streams_state();
    let effects = state.apply(UiMessage::StreamError {
        request_id: "req-c1".to_string(),
        error: "c1 boom".to_string(),
    });
    assert!(
        effects
            .iter()
            .any(|e| matches!(e, Effect::SetStatusText(t) if t == "Error: c1 boom")),
        "the error must surface on the global status line: {effects:?}"
    );
    // c1 was backgrounded, so its failure must NOT clear the open chat status.
    assert!(
        !effects.iter().any(|e| matches!(e, Effect::ClearChatStatus)),
        "a backgrounded stream's error must not blank the open conversation's chat: {effects:?}"
    );
    assert!(state.stream_of("c1").is_none(), "c1's stream is cleared");
    assert_eq!(
        state.stream_of("c2").unwrap().buffer,
        "c2 partial ",
        "c2 must still be streaming, undisturbed"
    );
}

#[test]
fn second_send_to_idle_conversation_is_allowed_while_another_streams() {
    // c1 streams in the background; c3 (idle) is the open conversation.
    let mut state = WindowState::default()
        .with_stream(
            "c1",
            StreamState {
                request_id: Some("req-c1".to_string()),
                buffer: "c1 partial ".to_string(),
                ..Default::default()
            },
        )
        .with_open(detail("c3", vec![]));
    let effects = state.apply(UiMessage::SubmitPrompt {
        prompt: "hello c3".to_string(),
        idempotency_key: None,
    });
    assert!(
        matches!(
            effects.as_slice(),
            [Effect::SendPrompt { conversation_id, prompt, .. }]
                if conversation_id == "c3" && prompt == "hello c3"
        ),
        "a send to an idle conversation must be allowed while another streams: {effects:?}"
    );
    // The optimistic bubble landed in c3, and c1 keeps streaming.
    assert_eq!(state.current_conversation().unwrap().messages.len(), 1);
    assert_eq!(state.stream_of("c1").unwrap().buffer, "c1 partial ");
}

/// A second send to the SAME conversation that is already streaming is
/// queued (its single stream slot renders one turn at a time) — the burst
/// flushes as one combined follow-up when the reply finishes.
#[test]
fn second_send_to_the_streaming_conversation_is_queued() {
    // c1 streams AND is the open conversation: a send into it is queued.
    let mut state = WindowState::default()
        .with_stream(
            "c1",
            StreamState {
                request_id: Some("req-c1".to_string()),
                buffer: "c1 partial ".to_string(),
                ..Default::default()
            },
        )
        .with_open(detail("c1", vec![msg("user", "first")]));
    let before = state.current_conversation().unwrap().messages.len();
    let effects = state.apply(UiMessage::SubmitPrompt {
        prompt: "second".to_string(),
        idempotency_key: None,
    });
    assert!(
        !effects
            .iter()
            .any(|e| matches!(e, Effect::SendPrompt { .. })),
        "a send into the already-streaming open conversation must not emit an RPC: {effects:?}"
    );
    assert_eq!(
        state.queued_messages_for_view(),
        &["second".to_string()],
        "the send into the streaming conversation is queued"
    );
    assert_eq!(
        state.current_conversation().unwrap().messages.len(),
        before,
        "a queued send must not append a bubble yet"
    );
}

// --- Message queuing (queue-while-busy + edit) -----------------------

#[test]
fn queued_messages_flush_as_one_combined_send_on_stream_complete() {
    // The headline behavior: two Enters while a reply streams become ONE
    // newline-joined follow-up turn when the reply completes.
    let mut state = mid_stream_state("c1", "c1");
    state.apply(UiMessage::SubmitPrompt {
        prompt: "check the weather".to_string(),
        idempotency_key: None,
    });
    state.apply(UiMessage::SubmitPrompt {
        prompt: "in Boston".to_string(),
        idempotency_key: None,
    });
    assert_eq!(
        state.queued_messages_for_view(),
        &["check the weather".to_string(), "in Boston".to_string()],
        "both sends are queued in submit order"
    );
    let effects = state.apply(UiMessage::StreamComplete {
        request_id: "req-real".to_string(),
        full_response: "done".to_string(),
    });
    let sent = effects.iter().find_map(|e| match e {
        Effect::SendPrompt {
            conversation_id,
            prompt,
            ..
        } => Some((conversation_id.clone(), prompt.clone())),
        _ => None,
    });
    assert_eq!(
        sent,
        Some((
            "c1".to_string(),
            "check the weather\n\nin Boston".to_string()
        )),
        "the whole queue flushes as ONE newline-joined send: {effects:?}"
    );
    // The combined send is emitted AFTER the reply is finalized.
    let complete_at = effects
        .iter()
        .position(|e| matches!(e, Effect::CompleteStreaming(_)));
    let send_at = effects
        .iter()
        .position(|e| matches!(e, Effect::SendPrompt { .. }));
    assert!(
        complete_at < send_at,
        "the flush follows the finalized reply: {effects:?}"
    );
    assert!(
        state.queued_messages_for_view().is_empty(),
        "the queue is cleared after flush"
    );
}

#[test]
fn a_flush_echo_arriving_before_the_ack_is_not_drawn_as_a_second_bubble() {
    let mut state = mid_stream_state("c1", "c1");
    state.apply(UiMessage::SubmitPrompt {
        prompt: "a".to_string(),
        idempotency_key: None,
    });
    state.apply(UiMessage::SubmitPrompt {
        prompt: "b".to_string(),
        idempotency_key: None,
    });
    state.apply(UiMessage::StreamComplete {
        request_id: "req-real".to_string(),
        full_response: "done".to_string(),
    });
    let combined = format!("a{QUEUE_JOIN}b");
    // The echo arrives BEFORE the send's ack (`PromptSent`).
    let echo = state.apply(UiMessage::UserMessageAdded {
        conversation_id: "c1".to_string(),
        request_id: "req-2".to_string(),
        content: combined.clone(),
        idempotency_key: None,
    });
    assert!(
        !echo.iter().any(|e| matches!(e, Effect::AddUserMessage(_))),
        "the echo of our own flushed send must not draw a second bubble: {echo:?}"
    );
    let combined_bubbles = state
        .current_conversation()
        .expect("c1 is open")
        .messages
        .iter()
        .filter(|m| m.role == "user" && m.content == combined)
        .count();
    assert_eq!(
        combined_bubbles, 1,
        "exactly one combined user bubble, not two"
    );
    // The ack arrives after the echo (the flush race) and opens the pending
    // stream as usual; it draws no bubble, and the model still holds exactly
    // one combined bubble.
    let ack = state.apply(UiMessage::PromptSent {
        task_id: String::new(),
        conversation_id: "c1".to_string(),
        idempotency_key: None,
    });
    assert!(
        !ack.iter().any(|e| matches!(e, Effect::AddUserMessage(_))),
        "the late ack draws no bubble: {ack:?}"
    );
    assert!(
        state.current_stream().is_some(),
        "the follow-up turn is live after the ack"
    );
    let after_ack = state
        .current_conversation()
        .expect("c1 is open")
        .messages
        .iter()
        .filter(|m| m.role == "user" && m.content == combined)
        .count();
    assert_eq!(
        after_ack, 1,
        "still exactly one combined bubble after the ack"
    );
}

#[test]
fn queued_messages_join_with_a_blank_line_between_them() {
    // A queued burst should read as separate paragraphs, not run-together
    // lines: each message is separated by a blank line (an EOL plus an
    // empty line) so the combined turn is legible.
    let mut state = mid_stream_state("c1", "c1");
    state.apply(UiMessage::SubmitPrompt {
        prompt: "one".to_string(),
        idempotency_key: None,
    });
    state.apply(UiMessage::SubmitPrompt {
        prompt: "two".to_string(),
        idempotency_key: None,
    });
    let effects = state.apply(UiMessage::StreamComplete {
        request_id: "req-real".to_string(),
        full_response: "done".to_string(),
    });
    let sent = effects.iter().find_map(|e| match e {
        Effect::SendPrompt { prompt, .. } => Some(prompt.clone()),
        _ => None,
    });
    assert_eq!(
        sent,
        Some("one\n\ntwo".to_string()),
        "queued messages join with a blank line between them: {effects:?}"
    );
}

#[test]
fn queue_flushes_on_stream_error_too() {
    // A failed turn still flushes the user's queued follow-ups: they're the
    // user's messages, not the failed reply's.
    let mut state = mid_stream_state("c1", "c1");
    state.apply(UiMessage::SubmitPrompt {
        prompt: "one".to_string(),
        idempotency_key: None,
    });
    state.apply(UiMessage::SubmitPrompt {
        prompt: "two".to_string(),
        idempotency_key: None,
    });
    let effects = state.apply(UiMessage::StreamError {
        request_id: "req-real".to_string(),
        error: "boom".to_string(),
    });
    assert!(
        effects
            .iter()
            .any(|e| matches!(e, Effect::SendPrompt { prompt, .. } if prompt == "one\n\ntwo")),
        "a failed turn flushes the queued follow-ups as one: {effects:?}"
    );
    assert!(state.queued_messages_for_view().is_empty());
}

#[test]
fn queued_prompts_survive_flush_failure() {
    let mut state = mid_stream_state("c1", "c1");
    state.apply(UiMessage::SubmitPrompt {
        prompt: "one".to_string(),
        idempotency_key: None,
    });
    state.apply(UiMessage::SubmitPrompt {
        prompt: "two".to_string(),
        idempotency_key: None,
    });
    // The turn is abandoned -> the reducer flushes the queue.
    let flushed = state.apply(UiMessage::StreamError {
        request_id: "req-real".to_string(),
        error: "no response from the daemon for 90s; the turn was abandoned".to_string(),
    });
    assert!(
        flushed
            .iter()
            .any(|e| matches!(e, Effect::SendPrompt { prompt, .. } if prompt == "one\n\ntwo")),
        "abandonment flushes the queued follow-ups as one combined send: {flushed:?}"
    );
    // That combined send also fails (backend still wedged).
    state.apply(UiMessage::SendFailed {
        conversation_id: "c1".to_string(),
        prompt: "one\n\ntwo".to_string(),
    });
    // The queued prompts must survive for retry.
    assert_eq!(
        state.queued_messages_for_view(),
        vec!["one".to_string(), "two".to_string()],
        "queued prompts must return to the queue after a failed flush so the user can try again"
    );
}

#[test]
fn flush_ack_discards_pending_so_a_later_failure_does_not_resurrect() {
    // Once the flush is acked (PromptSent), the held copy is discarded; a
    // stale/duplicate SendFailed arriving afterwards must not resurrect an
    // already-sent message.
    let mut state = mid_stream_state("c1", "c1");
    state.apply(UiMessage::SubmitPrompt {
        prompt: "one".to_string(),
        idempotency_key: None,
    });
    state.apply(UiMessage::StreamError {
        request_id: "req-real".to_string(),
        error: "boom".to_string(),
    });
    // The flush was accepted by the daemon.
    state.apply(UiMessage::PromptSent {
        task_id: "t1".to_string(),
        conversation_id: "c1".to_string(),
        idempotency_key: None,
    });
    // A late/duplicate failure must not re-queue an already-sent message.
    state.apply(UiMessage::SendFailed {
        conversation_id: "c1".to_string(),
        prompt: "one".to_string(),
    });
    assert!(
        state.queued_messages_for_view().is_empty(),
        "an acked flush must not be resurrected by a later SendFailed"
    );
}

#[test]
fn direct_send_failure_leaves_the_queue_untouched() {
    // A failed *direct* send (nothing was ever queued) must not fabricate
    // queue entries — the pending-flush restore applies only to flushes.
    let mut state = WindowState::default().with_open(detail("c1", vec![]));
    state.current_conversation_id = Some("c1".to_string());
    state.apply(UiMessage::SubmitPrompt {
        prompt: "hello".to_string(),
        idempotency_key: None,
    });
    state.apply(UiMessage::SendFailed {
        conversation_id: "c1".to_string(),
        prompt: "hello".to_string(),
    });
    assert!(
        state.queued_messages_for_view().is_empty(),
        "a failed direct send must not create phantom queued messages"
    );
}

#[test]
fn a_flush_in_flight_blocks_a_second_overlapping_flush() {
    // Stage the sent-but-unacked window directly: no
    // stream, a prior flush parked in `pending_flush`, and a freshly-queued
    // message in the outbox. A flush must NOT fire a second overlapping send
    // — the in-flight flush owns the queue until it is acked or restored.
    let mut state = WindowState::default().with_open(detail("c1", vec![]));
    state.current_conversation_id = Some("c1".to_string());
    {
        let model = state.open.get_mut("c1").expect("open model for c1");
        model.pending_flush = vec![QueuedMessage {
            text: "in-flight".to_string(),
            idempotency_key: None,
        }];
        model.outbox = vec![QueuedMessage {
            text: "new".to_string(),
            idempotency_key: None,
        }];
    }
    let effects = state.flush_outbox();
    assert!(
        effects.is_empty(),
        "a flush must not fire while one is already in flight: {effects:?}"
    );
}

#[test]
fn flush_does_not_touch_the_live_composer() {
    // The user may be mid-typing a fresh (not-yet-Entered) message when the
    // reply completes. The flush sends only the committed queue and must NOT
    // emit SetComposerText, so the live draft survives.
    let mut state = mid_stream_state("c1", "c1");
    state.apply(UiMessage::SubmitPrompt {
        prompt: "queued".to_string(),
        idempotency_key: None,
    });
    let effects = state.apply(UiMessage::StreamComplete {
        request_id: "req-real".to_string(),
        full_response: "done".to_string(),
    });
    assert!(
        effects
            .iter()
            .any(|e| matches!(e, Effect::SendPrompt { .. })),
        "the queue flushed: {effects:?}"
    );
    assert!(
        !effects
            .iter()
            .any(|e| matches!(e, Effect::SetComposerText(_))),
        "flush must not touch the live composer (a fresh draft must survive): {effects:?}"
    );
}

#[test]
fn submitting_while_idle_with_a_pending_queue_flushes_all_as_one() {
    // A conversation left idle with a pending queue (as a
    // backgrounded completion leaves it). The next Enter appends and flushes
    // the whole batch as one.
    let mut state = mid_stream_state("c1", "c1");
    state.apply(UiMessage::SubmitPrompt {
        prompt: "first".to_string(),
        idempotency_key: None,
    });
    state.apply(UiMessage::SubmitPrompt {
        prompt: "second".to_string(),
        idempotency_key: None,
    });
    // Force idle WITHOUT flushing (as a backgrounded completion would).
    state.reset_streaming_state();
    let effects = state.apply(UiMessage::SubmitPrompt {
        prompt: "third".to_string(),
        idempotency_key: None,
    });
    assert!(
        effects.iter().any(|e| matches!(
            e,
            Effect::SendPrompt { prompt, .. } if prompt == "first\n\nsecond\n\nthird"
        )),
        "an Enter on an idle conversation with a pending queue flushes all: {effects:?}"
    );
    assert!(state.queued_messages_for_view().is_empty());
}

#[test]
fn submitting_while_idle_with_no_queue_sends_immediately() {
    let mut state = WindowState::default().with_open(detail("c1", vec![]));
    let effects = state.apply(UiMessage::SubmitPrompt {
        prompt: "hello".to_string(),
        idempotency_key: None,
    });
    assert!(
        matches!(effects.as_slice(), [Effect::SendPrompt { prompt, .. }] if prompt == "hello"),
        "an idle send with an empty queue goes out immediately: {effects:?}"
    );
    assert!(state.queued_messages_for_view().is_empty());
}

#[test]
fn editing_a_queued_message_checks_it_out_and_resubmit_reinserts_in_place() {
    let mut state = mid_stream_state("c1", "c1");
    for m in ["alpha", "bravo", "charlie"] {
        state.apply(UiMessage::SubmitPrompt {
            prompt: m.to_string(),
            idempotency_key: None,
        });
    }
    let effects = state.apply(UiMessage::EditQueued { index: 1 });
    assert!(
        effects
            .iter()
            .any(|e| matches!(e, Effect::SetComposerText(t) if t == "bravo")),
        "the checked-out message loads into the composer: {effects:?}"
    );
    assert_eq!(
        state.queued_messages_for_view(),
        &["alpha".to_string(), "charlie".to_string()],
        "the checked-out message leaves the visible queue"
    );
    assert_eq!(state.editing_queued_index(), Some(1));
    // Edit and re-submit while still streaming → stays queued, reinserted at 1.
    state.apply(UiMessage::SubmitPrompt {
        prompt: "bravo EDITED".to_string(),
        idempotency_key: None,
    });
    assert_eq!(
        state.queued_messages_for_view(),
        &[
            "alpha".to_string(),
            "bravo EDITED".to_string(),
            "charlie".to_string()
        ],
        "the edited message reinserts in its original slot"
    );
    assert_eq!(state.editing_queued_index(), None);
}

#[test]
fn edit_checkout_reports_the_editing_index_in_the_snapshot() {
    let mut state = mid_stream_state("c1", "c1");
    state.apply(UiMessage::SubmitPrompt {
        prompt: "x".to_string(),
        idempotency_key: None,
    });
    state.apply(UiMessage::SubmitPrompt {
        prompt: "y".to_string(),
        idempotency_key: None,
    });
    let effects = state.apply(UiMessage::EditQueued { index: 0 });
    assert!(
        effects.iter().any(|e| matches!(
            e,
            Effect::SetQueuedMessages { editing: Some(0), messages } if messages == &["y".to_string()]
        )),
        "the snapshot reports the edited index and the remaining queue: {effects:?}"
    );
}

#[test]
fn editing_an_out_of_range_index_is_a_safe_noop() {
    let mut state = mid_stream_state("c1", "c1");
    state.apply(UiMessage::SubmitPrompt {
        prompt: "only".to_string(),
        idempotency_key: None,
    });
    state.apply(UiMessage::EditQueued { index: 5 });
    assert_eq!(state.queued_messages_for_view(), &["only".to_string()]);
    assert_eq!(state.editing_queued_index(), None);
}

#[test]
fn checking_out_another_message_returns_the_previous_one_to_the_queue() {
    let mut state = mid_stream_state("c1", "c1");
    state.apply(UiMessage::SubmitPrompt {
        prompt: "a".to_string(),
        idempotency_key: None,
    });
    state.apply(UiMessage::SubmitPrompt {
        prompt: "b".to_string(),
        idempotency_key: None,
    });
    state.apply(UiMessage::EditQueued { index: 1 }); // check out "b"
    assert_eq!(state.editing_queued_index(), Some(1));
    assert_eq!(state.queued_messages_for_view(), &["a".to_string()]);
    // Check out "a" without submitting: "b" returns to the queue first.
    let effects = state.apply(UiMessage::EditQueued { index: 0 });
    assert!(
        effects
            .iter()
            .any(|e| matches!(e, Effect::SetComposerText(t) if t == "a")),
        "the newly checked-out message loads: {effects:?}"
    );
    assert_eq!(state.editing_queued_index(), Some(0));
    assert_eq!(
        state.queued_messages_for_view(),
        &["b".to_string()],
        "the previously checked-out message is back in the queue"
    );
}

#[test]
fn removing_a_queued_message_drops_it() {
    let mut state = mid_stream_state("c1", "c1");
    state.apply(UiMessage::SubmitPrompt {
        prompt: "keep".to_string(),
        idempotency_key: None,
    });
    state.apply(UiMessage::SubmitPrompt {
        prompt: "drop".to_string(),
        idempotency_key: None,
    });
    let effects = state.apply(UiMessage::RemoveQueued { index: 1 });
    assert_eq!(state.queued_messages_for_view(), &["keep".to_string()]);
    assert!(
        matches!(
            effects.as_slice(),
            [Effect::SetQueuedMessages { messages, .. }] if messages == &["keep".to_string()]
        ),
        "removal emits a fresh queue snapshot: {effects:?}"
    );
}

#[test]
fn removing_an_out_of_range_index_is_ignored() {
    let mut state = mid_stream_state("c1", "c1");
    state.apply(UiMessage::SubmitPrompt {
        prompt: "only".to_string(),
        idempotency_key: None,
    });
    let effects = state.apply(UiMessage::RemoveQueued { index: 9 });
    assert!(
        effects.is_empty(),
        "an out-of-range remove is a no-op: {effects:?}"
    );
    assert_eq!(state.queued_messages_for_view(), &["only".to_string()]);
}

#[test]
fn removing_an_earlier_queued_item_shifts_the_edit_slot() {
    let mut state = mid_stream_state("c1", "c1");
    for m in ["a", "b", "c"] {
        state.apply(UiMessage::SubmitPrompt {
            prompt: m.to_string(),
            idempotency_key: None,
        });
    }
    state.apply(UiMessage::EditQueued { index: 2 }); // check out "c"; queue ["a","b"]
    assert_eq!(state.editing_queued_index(), Some(2));
    state.apply(UiMessage::RemoveQueued { index: 0 }); // remove "a"
    assert_eq!(
        state.editing_queued_index(),
        Some(1),
        "the reinsert slot shifts down when an earlier item is removed"
    );
    assert_eq!(state.queued_messages_for_view(), &["b".to_string()]);
    state.apply(UiMessage::SubmitPrompt {
        prompt: "c".to_string(),
        idempotency_key: None,
    });
    assert_eq!(
        state.queued_messages_for_view(),
        &["b".to_string(), "c".to_string()],
        "the edited message reinserts after the surviving item"
    );
}

#[test]
fn cancelling_an_edit_restores_the_original_message() {
    let mut state = mid_stream_state("c1", "c1");
    state.apply(UiMessage::SubmitPrompt {
        prompt: "original".to_string(),
        idempotency_key: None,
    });
    state.apply(UiMessage::EditQueued { index: 0 });
    assert!(state.queued_messages_for_view().is_empty());
    let effects = state.apply(UiMessage::CancelQueuedEdit);
    assert_eq!(
        state.queued_messages_for_view(),
        &["original".to_string()],
        "cancel returns the checked-out message to the queue unchanged"
    );
    assert_eq!(state.editing_queued_index(), None);
    assert!(
        effects
            .iter()
            .any(|e| matches!(e, Effect::SetComposerText(t) if t.is_empty())),
        "cancel clears the composer: {effects:?}"
    );
}

#[test]
fn cancel_with_nothing_checked_out_is_a_noop() {
    let mut state = mid_stream_state("c1", "c1");
    state.apply(UiMessage::SubmitPrompt {
        prompt: "q".to_string(),
        idempotency_key: None,
    });
    let effects = state.apply(UiMessage::CancelQueuedEdit);
    assert!(
        effects.is_empty(),
        "cancel with no edit in progress is a no-op: {effects:?}"
    );
    assert_eq!(state.queued_messages_for_view(), &["q".to_string()]);
}

#[test]
fn submitting_an_emptied_edit_drops_the_message() {
    let mut state = mid_stream_state("c1", "c1");
    state.apply(UiMessage::SubmitPrompt {
        prompt: "a".to_string(),
        idempotency_key: None,
    });
    state.apply(UiMessage::SubmitPrompt {
        prompt: "b".to_string(),
        idempotency_key: None,
    });
    state.apply(UiMessage::EditQueued { index: 0 }); // check out "a"
    state.apply(UiMessage::SubmitPrompt {
        prompt: String::new(),
        idempotency_key: None,
    });
    assert_eq!(
        state.queued_messages_for_view(),
        &["b".to_string()],
        "clearing a checked-out message and submitting drops it"
    );
    assert_eq!(state.editing_queued_index(), None);
}

#[test]
fn an_empty_submit_while_streaming_does_not_queue_a_blank() {
    let mut state = mid_stream_state("c1", "c1");
    state.apply(UiMessage::SubmitPrompt {
        prompt: "   ".to_string(),
        idempotency_key: None,
    });
    assert!(
        state.queued_messages_for_view().is_empty(),
        "a whitespace-only submit must not create a blank queued chip"
    );
}

#[test]
fn queues_are_per_conversation() {
    // Queue into c1 (streaming), then open c2 (idle): c1's queue must not
    // appear for c2, and c1 keeps it while backgrounded.
    let mut state = mid_stream_state("c1", "c1");
    state.apply(UiMessage::SubmitPrompt {
        prompt: "for c1".to_string(),
        idempotency_key: None,
    });
    state.apply(UiMessage::ConversationLoaded(detail("c2", vec![])));
    assert!(
        state.queued_messages_for_view().is_empty(),
        "c2 has its own empty queue"
    );
    assert_eq!(
        state.queued_messages("c1"),
        &["for c1".to_string()],
        "c1 keeps its queue while backgrounded"
    );
}

#[test]
fn a_backgrounded_conversations_queue_flushes_on_switch_back() {
    // Queue into c1 while it streams, switch away to c2, c1's reply completes
    // while backgrounded (no flush), then switch back to c1 → the queue
    // flushes as one.
    let mut state = mid_stream_state("c1", "c1");
    state.apply(UiMessage::SubmitPrompt {
        prompt: "later".to_string(),
        idempotency_key: None,
    });
    state.apply(UiMessage::ConversationLoaded(detail("c2", vec![])));
    let bg = state.apply(UiMessage::StreamComplete {
        request_id: "req-real".to_string(),
        full_response: "c1 done".to_string(),
    });
    assert!(
        !bg.iter().any(|e| matches!(e, Effect::SendPrompt { .. })),
        "a backgrounded completion must not flush yet: {bg:?}"
    );
    assert_eq!(
        state.queued_messages("c1"),
        &["later".to_string()],
        "the queue waits until the conversation is back in view"
    );
    let effects = state.apply(UiMessage::ConversationLoaded(detail(
        "c1",
        vec![msg("user", "hi")],
    )));
    assert!(
        effects.iter().any(|e| matches!(
            e,
            Effect::SendPrompt { conversation_id, prompt, .. }
                if conversation_id == "c1" && prompt == "later"
        )),
        "switching back to an idle conversation flushes its queued messages: {effects:?}"
    );
    assert!(state.queued_messages("c1").is_empty());
}

#[test]
fn submitting_with_no_open_conversation_is_a_noop() {
    let mut state = WindowState::default();
    let effects = state.apply(UiMessage::SubmitPrompt {
        prompt: "hi".to_string(),
        idempotency_key: None,
    });
    assert!(effects.is_empty());
}

#[test]
fn a_flush_that_fires_mid_edit_is_deferred_not_dropped() {
    let mut state = mid_stream_state("c1", "c1");
    state.apply(UiMessage::SubmitPrompt {
        prompt: "a".to_string(),
        idempotency_key: None,
    });
    state.apply(UiMessage::SubmitPrompt {
        prompt: "b".to_string(),
        idempotency_key: None,
    });
    state.apply(UiMessage::EditQueued { index: 1 }); // check out "b"
    assert_eq!(state.editing_queued_index(), Some(1));
    let done = state.apply(UiMessage::StreamComplete {
        request_id: "req-real".to_string(),
        full_response: "done".to_string(),
    });
    assert!(
        !done.iter().any(|e| matches!(e, Effect::SendPrompt { .. })),
        "a flush mid-edit must be deferred, not fire: {done:?}"
    );
    assert_eq!(
        state.queued_messages_for_view(),
        &["a".to_string()],
        "the rest of the queue is untouched"
    );
    assert_eq!(
        state.editing_queued_index(),
        Some(1),
        "the edit is still checked out"
    );
    let flushed = state.apply(UiMessage::SubmitPrompt {
        prompt: "b fixed".to_string(),
        idempotency_key: None,
    });
    assert!(
        flushed.iter().any(|e| matches!(
            e,
            Effect::SendPrompt { prompt, .. } if prompt == "a\n\nb fixed"
        )),
        "finishing the edit flushes the whole batch as one: {flushed:?}"
    );
    assert!(state.queued_messages_for_view().is_empty());
}

#[test]
fn a_flush_preserves_an_unrelated_saved_composer_draft() {
    let mut state = mid_stream_state("c1", "c1");
    state.apply(UiMessage::SubmitPrompt {
        prompt: "msg1".to_string(),
        idempotency_key: None,
    });
    // The user then typed a fresh draft (the client saved it).
    state.set_composer_draft("c1", "draft2".to_string());
    let done = state.apply(UiMessage::StreamComplete {
        request_id: "req-real".to_string(),
        full_response: "done".to_string(),
    });
    assert!(
        done.iter()
            .any(|e| matches!(e, Effect::SendPrompt { prompt, .. } if prompt == "msg1")),
        "the queue flushed: {done:?}"
    );
    assert_eq!(
        state.composer_draft("c1"),
        "draft2",
        "the flush must not clobber the unrelated saved draft"
    );
}

#[test]
fn flush_pending_queue_sends_an_idle_conversations_backlog() {
    let mut state = mid_stream_state("c1", "c1");
    state.apply(UiMessage::SubmitPrompt {
        prompt: "x".to_string(),
        idempotency_key: None,
    });
    state.apply(UiMessage::SubmitPrompt {
        prompt: "y".to_string(),
        idempotency_key: None,
    });
    // Reply completed while backgrounded → idle with a pending queue.
    state.reset_streaming_state();
    let effects = state.flush_pending_queue();
    assert!(
        effects.iter().any(|e| matches!(
            e,
            Effect::SendPrompt { prompt, .. } if prompt == "x\n\ny"
        )),
        "flush_pending_queue sends the backlog as one: {effects:?}"
    );
    assert!(state.queued_messages_for_view().is_empty());
    // Idempotent: nothing left to flush.
    assert!(state.flush_pending_queue().is_empty());
}

#[test]
fn disconnect_clears_all_streams_finalizing_only_the_open_one() {
    let mut state = two_streams_state();
    let effects = state.apply(UiMessage::Disconnected {
        reason: "socket closed".to_string(),
    });
    // No stream survives anywhere.
    assert!(
        !state.is_streaming(),
        "every stream must be cleared on disconnect"
    );
    assert!(state.stream_of("c1").is_none());
    assert!(state.stream_of("c2").is_none());
    // Exactly one [Connection lost] finalization — for the open conversation.
    let completions: Vec<&str> = effects
        .iter()
        .filter_map(|e| match e {
            Effect::CompleteStreaming(c) => Some(c.as_str()),
            _ => None,
        })
        .collect();
    assert_eq!(
        completions,
        vec!["c2 partial \n\n[Connection lost]"],
        "only the open conversation's partial is finalized with the marker: {effects:?}"
    );
    // The stub landed in c2's transcript; c1's truncated partial is gone.
    let last = state
        .current_conversation()
        .unwrap()
        .messages
        .last()
        .unwrap();
    assert_eq!(last.content, "c2 partial \n\n[Connection lost]");
}

#[test]
fn reset_streaming_state_clears_every_conversation_stream() {
    let mut state = two_streams_state();
    state.reset_streaming_state();
    assert!(!state.is_streaming());
    assert!(state.stream_of("c1").is_none());
    assert!(state.stream_of("c2").is_none());
    let e1 = state.apply(UiMessage::StreamChunk {
        request_id: "req-c1".to_string(),
        chunk: "zombie".to_string(),
    });
    let e2 = state.apply(UiMessage::StreamChunk {
        request_id: "req-c2".to_string(),
        chunk: "zombie".to_string(),
    });
    assert!(
        e1.is_empty() && e2.is_empty(),
        "no dead stream may be revived"
    );
}

#[test]
fn background_assistant_status_does_not_paint_open_pending_conversation() {
    // c1 streams (claimed) in the background; c2 is open with a __pending__
    // stream of its own (id not yet claimed).
    let mut state = WindowState::default()
        .with_stream(
            "c1",
            StreamState {
                request_id: Some("req-c1".to_string()),
                buffer: "c1 partial ".to_string(),
                ..Default::default()
            },
        )
        .with_stream("c2", StreamState::default())
        .with_open(detail("c2", vec![]));
    // A status for c1's background turn arrives.
    let bg = state.apply(UiMessage::AssistantStatus {
        request_id: "req-c1".to_string(),
        message: "c1 searching...".to_string(),
    });
    assert!(
        !bg.iter().any(|e| matches!(e, Effect::SetChatStatus(_))),
        "the background turn's status must not paint c2's chat: {bg:?}"
    );
    // A status for c2's own (still-pending) turn DOES paint — it routes to c2
    // as the unique pending stream.
    let own = state.apply(UiMessage::AssistantStatus {
        request_id: "req-c2-not-yet-claimed".to_string(),
        message: "c2 searching...".to_string(),
    });
    assert!(
        own.iter()
            .any(|e| matches!(e, Effect::SetChatStatus(m) if m == "c2 searching...")),
        "the open conversation's own pending-turn status must paint: {own:?}"
    );
}

/// Routing by id: with two claimed streams in flight, an unrelated request id
/// (matching neither) is ignored — it does not get mis-attributed to either.
#[test]
fn concurrent_chunk_for_unrelated_id_is_ignored() {
    let mut state = two_streams_state();
    let effects = state.apply(UiMessage::StreamChunk {
        request_id: "req-nobody".to_string(),
        chunk: "noise".to_string(),
    });
    assert!(
        effects.is_empty(),
        "an unowned id must not render: {effects:?}"
    );
    assert_eq!(state.stream_of("c1").unwrap().buffer, "c1 partial ");
    assert_eq!(state.stream_of("c2").unwrap().buffer, "c2 partial ");
}

#[test]
fn first_stream_chunk_claims_real_request_id_from_pending_sentinel() {
    // A __pending__ stream (id not yet claimed) for the open conversation.
    let mut state = WindowState {
        current_conversation_id: Some("c1".to_string()),
        ..Default::default()
    }
    .with_stream("c1", StreamState::default());
    let effects = state.apply(UiMessage::StreamChunk {
        request_id: "req-real".to_string(),
        chunk: "hello".to_string(),
    });
    // The __pending__ slot is claimed by the daemon's real request id...
    assert_eq!(state.stream_request_id(), Some("req-real"));
    assert_eq!(state.streaming_buffer(), "hello");
    // ...and because this is the first chunk, the chat status is cleared
    // before the chunk is rendered.
    assert!(
        matches!(effects.as_slice(), [Effect::ClearChatStatus, Effect::ReceiveChunk(c)] if c == "hello"),
        "unexpected effects: {effects:?}"
    );
}

#[test]
fn subsequent_stream_chunk_appends_without_clearing_status() {
    let mut state = WindowState {
        current_conversation_id: Some("c1".to_string()),
        ..Default::default()
    }
    .with_stream(
        "c1",
        StreamState {
            request_id: Some("req-real".to_string()),
            buffer: "hello".to_string(),
            ..Default::default()
        },
    );
    let effects = state.apply(UiMessage::StreamChunk {
        request_id: "req-real".to_string(),
        chunk: " world".to_string(),
    });
    assert_eq!(state.streaming_buffer(), "hello world");
    // Non-first chunk: only the chunk is rendered, no status clear.
    assert!(
        matches!(effects.as_slice(), [Effect::ReceiveChunk(c)] if c == " world"),
        "unexpected effects: {effects:?}"
    );
}

#[test]
fn stream_chunk_for_unrelated_request_id_is_ignored() {
    let mut state = WindowState {
        current_conversation_id: Some("c1".to_string()),
        ..Default::default()
    }
    .with_stream(
        "c1",
        StreamState {
            request_id: Some("req-real".to_string()),
            buffer: "hello".to_string(),
            ..Default::default()
        },
    );
    let effects = state.apply(UiMessage::StreamChunk {
        request_id: "some-other-req".to_string(),
        chunk: "noise".to_string(),
    });
    assert!(effects.is_empty(), "stray chunk must not render");
    assert_eq!(
        state.streaming_buffer(),
        "hello",
        "buffer must be untouched"
    );
}

#[test]
fn assistant_status_matches_pending_sentinel_before_request_id_known() {
    // __pending__ stream (id not yet claimed) for the open conversation.
    let mut state = WindowState {
        current_conversation_id: Some("c1".to_string()),
        ..Default::default()
    }
    .with_stream("c1", StreamState::default());
    let effects = state.apply(UiMessage::AssistantStatus {
        request_id: "req-not-yet-claimed".to_string(),
        message: "Searching...".to_string(),
    });
    assert!(
        matches!(effects.as_slice(), [Effect::SetChatStatus(m)] if m == "Searching..."),
        "status during the __pending__ window must reach the chat: {effects:?}"
    );
}

#[test]
fn stream_complete_claims_sentinel_appends_message_and_clears_pending() {
    let mut state = WindowState::default()
        .with_stream(
            "c1",
            StreamState {
                buffer: "partial".to_string(),
                ..Default::default()
            },
        )
        .with_open(detail("c1", vec![msg("user", "hi")]));
    let effects = state.apply(UiMessage::StreamComplete {
        request_id: "req-real".to_string(),
        full_response: "the answer".to_string(),
    });
    assert!(!state.is_streaming());
    assert!(state.streaming_buffer().is_empty());
    let conv = state.current_conversation().unwrap();
    assert_eq!(conv.messages.last().unwrap().role, "assistant");
    assert_eq!(conv.messages.last().unwrap().content, "the answer");
    assert!(
        matches!(
            effects.as_slice(),
            [
                Effect::ClearChatStatus,
                Effect::CompleteStreaming(c),
                Effect::FetchScratchpad(conv),
                Effect::TurnFinished {
                    outcome: TurnOutcome::Completed,
                    ..
                },
            ] if c == "the answer" && conv == "c1"
        ),
        "unexpected effects: {effects:?}"
    );
}

#[test]
fn stream_error_clears_pending_and_sets_error_status() {
    let mut state = WindowState {
        current_conversation_id: Some("c1".to_string()),
        ..Default::default()
    }
    .with_stream(
        "c1",
        StreamState {
            request_id: Some("req-real".to_string()),
            buffer: "partial".to_string(),
            ..Default::default()
        },
    );
    let effects = state.apply(UiMessage::StreamError {
        request_id: "req-real".to_string(),
        error: "boom".to_string(),
    });
    assert!(!state.is_streaming());
    assert!(state.streaming_buffer().is_empty());
    assert!(
        matches!(
            effects.as_slice(),
            [
                Effect::ClearChatStatus,
                Effect::SetStatusText(t),
                Effect::TurnFinished {
                    outcome: TurnOutcome::Failed(e),
                    ..
                },
            ] if t == "Error: boom" && e == "boom"
        ),
        "unexpected effects: {effects:?}"
    );
}

#[test]
fn disconnect_finalizes_in_progress_stream_with_connection_lost_marker() {
    let mut state = WindowState::default()
        .with_stream(
            "c1",
            StreamState {
                request_id: Some("req-real".to_string()),
                buffer: "half a thought".to_string(),
                ..Default::default()
            },
        )
        .with_open(detail("c1", vec![]));
    let effects = state.apply(UiMessage::Disconnected {
        reason: "socket closed".to_string(),
    });
    assert!(!state.is_streaming());
    assert!(state.streaming_buffer().is_empty());
    // The partial response is committed to the conversation with the marker.
    let last = state
        .current_conversation()
        .unwrap()
        .messages
        .last()
        .unwrap();
    assert_eq!(last.content, "half a thought\n\n[Connection lost]");
    // Effects: clear client, desensitize send, status text, finalize, then
    // report the turn the disconnect ended.
    assert!(
        matches!(
            effects.as_slice(),
            [
                Effect::ClearClient,
                Effect::SetSendSensitive(false),
                Effect::SetStatusText(t),
                Effect::CompleteStreaming(c),
                Effect::TurnFinished { conversation_id, .. },
            ] if t == "Disconnected: socket closed"
                && c == "half a thought\n\n[Connection lost]"
                && conversation_id == "c1"
        ),
        "unexpected effects: {effects:?}"
    );
}

#[test]
fn disconnect_without_active_stream_does_not_emit_complete_streaming() {
    let mut state = WindowState::default();
    let effects = state.apply(UiMessage::Disconnected {
        reason: "bye".to_string(),
    });
    assert!(
        matches!(
            effects.as_slice(),
            [
                Effect::ClearClient,
                Effect::SetSendSensitive(false),
                Effect::SetStatusText(_)
            ]
        ),
        "no streaming buffer => no CompleteStreaming: {effects:?}"
    );
}

#[test]
fn conversations_loaded_for_uncached_active_emits_single_fresh_load() {
    let mut state = WindowState {
        current_conversation_id: Some("new".to_string()),
        // No cached detail for "new" — it was just created.
        ..Default::default()
    };
    let convs = vec![summary("new", "New Conversation", false)];
    let effects = state.apply(UiMessage::ConversationsLoaded(convs));
    let loads = effects
        .iter()
        .filter(|e| matches!(e, Effect::LoadConversation(id) if id == "new"))
        .count();
    let reloads = effects
        .iter()
        .filter(|e| matches!(e, Effect::ReloadConversation(_)))
        .count();
    assert_eq!(
        loads, 1,
        "a fresh active conversation gets one LoadConversation: {effects:?}"
    );
    assert_eq!(
        reloads, 0,
        "and no picker-preserving ReloadConversation: {effects:?}"
    );
}

#[test]
fn conversations_loaded_for_cached_active_reloads_not_fresh_load() {
    let mut state = WindowState {
        ..Default::default()
    }
    .with_open(detail("c1", vec![msg("user", "hi")]));
    let convs = vec![summary("c1", "one", false)];
    let effects = state.apply(UiMessage::ConversationsLoaded(convs));
    assert!(
        effects
            .iter()
            .any(|e| matches!(e, Effect::ReloadConversation(id) if id == "c1")),
        "reconnect refresh must use ReloadConversation (preserves picker): {effects:?}"
    );
    assert!(
        !effects
            .iter()
            .any(|e| matches!(e, Effect::LoadConversation(_))),
        "reconnect must not re-apply the picker via LoadConversation: {effects:?}"
    );
}

// --- Archived-list refresh -------------------------------------------

#[test]
fn conversations_loaded_stores_list_and_refreshes_sidebar_then_ensures_active() {
    // The "show archived" toggle re-fetches and re-delivers the list via
    // ConversationsLoaded; apply must repaint the sidebar with the new
    // (possibly archived-including) set and re-run ensure-active.
    let mut state = WindowState::default();
    let convs = vec![
        summary("c1", "Active one", false),
        summary("c2", "Archived one", true),
    ];
    let effects = state.apply(UiMessage::ConversationsLoaded(convs.clone()));
    assert_eq!(state.conversations.len(), 2);
    assert_eq!(state.conversations[1].id, "c2");
    assert!(state.conversations[1].archived);
    match effects.as_slice() {
        [
            Effect::SetConversations(got),
            Effect::EnsureActiveConversation,
        ] => {
            assert_eq!(got.len(), 2);
            assert_eq!(got[1].id, "c2");
        }
        other => panic!("unexpected effects: {other:?}"),
    }
}

#[test]
fn conversation_list_changed_triggers_a_list_refetch_only() {
    let mut state = WindowState {
        conversations: vec![summary("c1", "one", false)],
        ..Default::default()
    }
    .with_open(detail("c1", vec![]));
    let effects = state.apply(UiMessage::ConversationListChanged {
        conversation_id: "c2".to_string(),
    });
    assert!(
        matches!(effects.as_slice(), [Effect::RefetchConversationList]),
        "ConversationListChanged must request exactly one list re-fetch: {effects:?}"
    );
    assert_eq!(state.conversations.len(), 1);
    assert_eq!(state.current_conversation_id.as_deref(), Some("c1"));
    assert!(state.current_conversation().is_some());
}

#[test]
fn conversation_list_refetched_repaints_sidebar_without_disturbing_open_chat() {
    let mut state = WindowState {
        conversations: vec![summary("c1", "one", false)],
        ..Default::default()
    }
    .with_open(detail("c1", vec![msg("user", "hi")]));
    // A sibling client added "c2" and renamed "c1".
    let fresh = vec![
        summary("c1", "one renamed", false),
        summary("c2", "two", false),
    ];
    let effects = state.apply(UiMessage::ConversationListRefetched(fresh.clone()));

    // The fresh list is stored and the sidebar repainted + re-synced.
    assert_eq!(state.conversations.len(), 2);
    assert_eq!(state.conversations[0].title, "one renamed");
    assert_eq!(state.conversations[1].id, "c2");
    match effects.as_slice() {
        [
            Effect::SetConversations(got),
            Effect::EnsureActiveConversation,
        ] => {
            assert_eq!(got.len(), 2);
            assert_eq!(got[1].id, "c2");
        }
        other => panic!("unexpected effects: {other:?}"),
    }
    // The open conversation must be left exactly as the user had it: no
    // chat reload, no picker re-apply, and the cached detail is untouched.
    assert!(
        !effects.iter().any(|e| matches!(
            e,
            Effect::ReloadConversation(_)
                | Effect::LoadConversation(_)
                | Effect::LoadConversationIntoChat(_)
                | Effect::SetModelSelection(_)
        )),
        "a list-only refetch must not disturb the open chat or picker: {effects:?}"
    );
    assert_eq!(state.current_conversation_id.as_deref(), Some("c1"));
    assert!(
        state
            .current_conversation()
            .is_some_and(|c| c.messages.len() == 1),
        "the open conversation's cached detail must be preserved verbatim"
    );
}

#[test]
fn deleting_active_conversation_clears_chat_and_re_ensures_active() {
    let mut state = WindowState {
        conversations: vec![summary("c1", "one", false), summary("c2", "two", false)],
        ..Default::default()
    }
    .with_open(detail("c1", vec![]));
    let effects = state.apply(UiMessage::ConversationDeleted {
        id: "c1".to_string(),
    });
    assert_eq!(state.conversations.len(), 1);
    assert_eq!(state.conversations[0].id, "c2");
    assert!(state.current_conversation_id.is_none());
    assert!(state.current_conversation().is_none());
    assert!(
        matches!(
            effects.as_slice(),
            [
                Effect::SetConversations(_),
                Effect::ClearChat,
                Effect::SidePaneSetScratchpad(_),
                Effect::RefreshSidePaneTasks,
                Effect::EnsureActiveConversation
            ]
        ),
        "deleting the active conversation must clear chat + side pane + re-ensure: {effects:?}"
    );
}

#[test]
fn deleting_conversation_prunes_its_voice_maps() {
    let mut state = WindowState {
        conversations: vec![summary("c1", "one", false), summary("c2", "two", false)],
        ..Default::default()
    }
    .with_open(detail("c2", vec![]));
    // Both conversations carry voice settings.
    {
        let m = state.open.entry_or_default("c1");
        m.voice_in = true;
        m.adele_output = AdeleOutput::Always;
    }
    {
        let m = state.open.entry_or_default("c2");
        m.voice_in = true;
        m.adele_output = AdeleOutput::OnDemand;
    }

    // Delete the inactive one.
    state.apply(UiMessage::ConversationDeleted {
        id: "c1".to_string(),
    });
    assert!(
        !state.open.contains_key("c1"),
        "the deleted conversation's model (You:/Adele:) must be pruned"
    );
    // The surviving conversation's settings are untouched.
    assert!(state.voice_in_for("c2"));
    assert_eq!(state.adele_output_for("c2"), AdeleOutput::OnDemand);

    // Deleting the active one prunes it too.
    state.apply(UiMessage::ConversationDeleted {
        id: "c2".to_string(),
    });
    assert!(state.open.is_empty());
}

fn note_view(key: &str) -> api::ScratchpadNoteView {
    api::ScratchpadNoteView {
        id: format!("id-{key}"),
        key: key.to_string(),
        content: "x".to_string(),
        note_type: "note".to_string(),
        sequence: None,
        done: false,
        updated_at: "t".to_string(),
    }
}

#[test]
fn scratchpad_loaded_applies_only_for_active_conversation() {
    let mut state = WindowState {
        current_conversation_id: Some("c1".to_string()),
        ..Default::default()
    };
    // Matching conversation → set the pane.
    let effects = state.apply(UiMessage::ConversationScratchpadLoaded {
        conversation_id: "c1".to_string(),
        notes: vec![note_view("goal")],
    });
    assert!(
        matches!(effects.as_slice(), [Effect::SidePaneSetScratchpad(n)] if n.len() == 1),
        "unexpected: {effects:?}"
    );
    // A fetch that resolves after a conversation switch is ignored.
    let effects = state.apply(UiMessage::ConversationScratchpadLoaded {
        conversation_id: "stale".to_string(),
        notes: vec![note_view("goal")],
    });
    assert!(effects.is_empty(), "stale scratchpad must be dropped");
}

#[test]
fn scratchpad_changed_refetches_only_for_active_conversation() {
    let mut state = WindowState {
        current_conversation_id: Some("c1".to_string()),
        ..Default::default()
    };
    let effects = state.apply(UiMessage::ScratchpadChanged {
        conversation_id: "c1".to_string(),
    });
    assert!(matches!(effects.as_slice(), [Effect::FetchScratchpad(c)] if c == "c1"));
    let effects = state.apply(UiMessage::ScratchpadChanged {
        conversation_id: "other".to_string(),
    });
    assert!(
        effects.is_empty(),
        "a change to another conversation is ignored"
    );
}

#[test]
fn tasks_loaded_also_refreshes_the_side_pane() {
    let mut state = WindowState::default();
    let effects = state.apply(UiMessage::TasksLoaded(vec![]));
    assert!(matches!(
        effects.as_slice(),
        [Effect::TasksReplaceAll(_), Effect::RefreshSidePaneTasks]
    ));
}

#[test]
fn deleting_inactive_conversation_only_refreshes_sidebar() {
    let mut state = WindowState {
        conversations: vec![summary("c1", "one", false), summary("c2", "two", false)],
        ..Default::default()
    }
    .with_open(detail("c1", vec![]));
    let effects = state.apply(UiMessage::ConversationDeleted {
        id: "c2".to_string(),
    });
    assert!(state.current_conversation_id.as_deref() == Some("c1"));
    assert!(
        matches!(effects.as_slice(), [Effect::SetConversations(got)] if got.len() == 1),
        "deleting an inactive conversation must not touch the chat: {effects:?}"
    );
}

#[test]
fn rename_updates_matching_conversation_title_and_refreshes_sidebar() {
    let mut state = WindowState {
        conversations: vec![summary("c1", "old", false), summary("c2", "keep", false)],
        ..Default::default()
    };
    let effects = state.apply(UiMessage::ConversationRenamed {
        id: "c1".to_string(),
        title: "new title".to_string(),
    });
    assert_eq!(state.conversations[0].title, "new title");
    assert_eq!(state.conversations[1].title, "keep");
    match effects.as_slice() {
        [Effect::SetConversations(got)] => assert_eq!(got[0].title, "new title"),
        other => panic!("unexpected effects: {other:?}"),
    }
}

#[test]
fn title_changed_signal_updates_matching_conversation_and_refreshes_sidebar() {
    let mut state = WindowState {
        conversations: vec![summary("c1", "untitled", false)],
        ..Default::default()
    };
    let effects = state.apply(UiMessage::TitleChanged {
        conversation_id: "c1".to_string(),
        title: "Auto Title".to_string(),
    });
    assert_eq!(state.conversations[0].title, "Auto Title");
    assert!(matches!(effects.as_slice(), [Effect::SetConversations(_)]));
}

// --- Debug filter ----------------------------------------------------

#[test]
fn conversation_loaded_hides_tool_messages_when_debug_off() {
    let mut state = WindowState {
        debug_enabled: false,
        ..Default::default()
    };
    let d = detail(
        "c1",
        vec![
            msg("user", "hi"),
            msg("tool", "tool noise"),
            msg("assistant", "answer"),
            msg("assistant", "   "), // empty (tool-calls only) assistant
        ],
    );
    let effects = state.apply(UiMessage::ConversationLoaded(d));
    // The cached (unfiltered) conversation keeps all 4 messages...
    assert_eq!(state.current_conversation().unwrap().messages.len(), 4);
    // ...but the chat view receives only user + non-empty assistant.
    match effects.as_slice() {
        [
            Effect::SetModelSelection(_),
            Effect::LoadConversationIntoChat(filtered),
            Effect::SetContextUsage(None),
            Effect::SubscribeConversations(_),
            Effect::SidePaneSetScratchpad(_),
            Effect::RefreshSidePaneTasks,
            Effect::FetchScratchpad(_),
            Effect::SetQueuedMessages {
                messages,
                editing: None,
            },
        ] => {
            let roles: Vec<&str> = filtered.messages.iter().map(|m| m.role.as_str()).collect();
            assert_eq!(roles, vec!["user", "assistant"]);
            assert_eq!(filtered.messages[1].content, "answer");
            assert!(
                messages.is_empty(),
                "a freshly-loaded conversation has an empty queue"
            );
        }
        other => panic!("unexpected effects: {other:?}"),
    }
}

#[test]
fn context_usage_for_open_conversation_sets_indicator() {
    let mut state = WindowState {
        current_conversation_id: Some("c1".to_string()),
        ..Default::default()
    };
    let effects = state.apply(UiMessage::ContextUsage {
        conversation_id: "c1".to_string(),
        used_tokens: 12_000,
        budget_tokens: 32_000,
        compaction_active: false,
    });
    match effects.as_slice() {
        [Effect::SetContextUsage(Some(u))] => {
            assert_eq!(u.used_tokens, 12_000);
            assert_eq!(u.budget_tokens, 32_000);
            assert!(!u.compaction_active);
        }
        other => panic!("expected SetContextUsage(Some), got {other:?}"),
    }
}

#[test]
fn context_usage_for_background_conversation_is_ignored() {
    let mut state = WindowState {
        current_conversation_id: Some("c1".to_string()),
        ..Default::default()
    };
    // A reading for a conversation that is not in view must not paint.
    let effects = state.apply(UiMessage::ContextUsage {
        conversation_id: "c2".to_string(),
        used_tokens: 30_000,
        budget_tokens: 32_000,
        compaction_active: true,
    });
    assert!(
        effects.is_empty(),
        "background-conversation usage must produce no effect"
    );
}

#[test]
fn switching_conversation_clears_context_usage_indicator() {
    let mut state = WindowState {
        current_conversation_id: Some("c1".to_string()),
        ..Default::default()
    };
    // Loading a (different) conversation must emit SetContextUsage(None)
    // so a stale fill never bleeds across conversations.
    let effects = state.apply(UiMessage::ConversationLoaded(detail(
        "c2",
        vec![msg("user", "hi")],
    )));
    assert!(
        effects
            .iter()
            .any(|e| matches!(e, Effect::SetContextUsage(None))),
        "conversation switch must clear the context-fill indicator"
    );
}

#[test]
fn conversation_loaded_shows_tool_messages_when_debug_on() {
    let mut state = WindowState {
        debug_enabled: true,
        ..Default::default()
    };
    let d = detail(
        "c1",
        vec![
            msg("user", "hi"),
            msg("tool", "tool noise"),
            msg("assistant", "   "),
        ],
    );
    let effects = state.apply(UiMessage::ConversationLoaded(d));
    match effects.as_slice() {
        [
            Effect::SetModelSelection(_),
            Effect::LoadConversationIntoChat(filtered),
            Effect::SetContextUsage(None),
            Effect::SubscribeConversations(_),
            Effect::SidePaneSetScratchpad(_),
            Effect::RefreshSidePaneTasks,
            Effect::FetchScratchpad(_),
            Effect::SetQueuedMessages { editing: None, .. },
        ] => {
            // Debug on: nothing is filtered out.
            assert_eq!(filtered.messages.len(), 3);
        }
        other => panic!("unexpected effects: {other:?}"),
    }
}

#[test]
fn conversation_loaded_sets_active_id_and_applies_stored_model_selection() {
    let mut state = WindowState::default();
    let mut d = detail("c9", vec![msg("user", "hi")]);
    d.model_selection = Some(selection("work", "sonata"));
    let effects = state.apply(UiMessage::ConversationLoaded(d));
    assert_eq!(state.current_conversation_id.as_deref(), Some("c9"));
    match effects.as_slice() {
        [
            Effect::SetModelSelection(Some(sel)),
            Effect::LoadConversationIntoChat(_),
            Effect::SetContextUsage(None),
            Effect::SubscribeConversations(_),
            Effect::SidePaneSetScratchpad(_),
            Effect::RefreshSidePaneTasks,
            Effect::FetchScratchpad(conv),
            Effect::SetQueuedMessages { editing: None, .. },
        ] => {
            assert_eq!(sel.connection_id, "work");
            assert_eq!(sel.model_id, "sonata");
            assert_eq!(conv, "c9");
        }
        other => panic!("unexpected effects: {other:?}"),
    }
}

#[test]
fn conversation_loaded_subscribes_to_that_conversation() {
    let mut state = WindowState::default();
    let effects = state.apply(UiMessage::ConversationLoaded(detail(
        "c7",
        vec![msg("user", "hi")],
    )));
    let subscribed = effects.iter().find_map(|e| match e {
        Effect::SubscribeConversations(ids) => Some(ids),
        _ => None,
    });
    assert_eq!(
        subscribed.map(Vec::as_slice),
        Some(["c7".to_string()].as_slice()),
        "ConversationLoaded must emit SubscribeConversations([active id]); got {effects:?}"
    );
}

// --- Model-picker re-application -------------------------------------

#[test]
fn models_loaded_does_not_touch_picker_selection() {
    let mut conv = detail("c1", vec![]);
    conv.model_selection = Some(selection("work", "sonata"));
    let mut state = WindowState {
        ..Default::default()
    }
    .with_open(conv);
    let effects = state.apply(UiMessage::ModelsLoaded(vec![listing("work", "sonata")]));
    match effects.as_slice() {
        [
            Effect::SetModels(models),
            Effect::SetModelPickerVisible(true),
        ] => {
            assert_eq!(models.len(), 1);
        }
        other => panic!("ModelsLoaded must not emit SetModelSelection: {other:?}"),
    }
}

#[test]
fn models_loaded_empty_list_hides_picker_and_skips_reapply_when_no_conversation() {
    let mut state = WindowState::default();
    let effects = state.apply(UiMessage::ModelsLoaded(Vec::new()));
    match effects.as_slice() {
        [
            Effect::SetModels(models),
            Effect::SetModelPickerVisible(false),
        ] => {
            assert!(models.is_empty());
        }
        other => panic!("unexpected effects (no conversation => no reapply): {other:?}"),
    }
}

// --- Reconnect: reload the active conversation without resetting picker --

#[test]
fn conversations_loaded_on_reconnect_reloads_active_conversation() {
    let mut state = WindowState {
        ..Default::default()
    }
    .with_open(detail("c1", vec![msg("user", "earlier")]));
    let effects = state.apply(UiMessage::ConversationsLoaded(vec![summary(
        "c1", "first", false,
    )]));
    match effects.as_slice() {
        [
            Effect::SetConversations(_),
            Effect::EnsureActiveConversation,
            Effect::SubscribeConversations(ids),
            Effect::ReloadConversation(id),
        ] => {
            assert_eq!(ids.as_slice(), ["c1".to_string()]);
            assert_eq!(id, "c1");
        }
        other => panic!("unexpected effects: {other:?}"),
    }
}

#[test]
fn conversations_loaded_on_first_connect_does_not_reload() {
    // First connect: no active conversation yet, so the initial load runs
    // through EnsureActiveConversation -> ConversationLoaded (which sets the
    // picker). No ReloadConversation.
    let mut state = WindowState::default();
    let effects = state.apply(UiMessage::ConversationsLoaded(vec![summary(
        "c1", "first", false,
    )]));
    assert!(
        matches!(
            effects.as_slice(),
            [
                Effect::SetConversations(_),
                Effect::EnsureActiveConversation
            ]
        ),
        "first connect must not reload: {effects:?}"
    );
}

#[test]
fn conversations_loaded_skips_reload_when_active_conversation_gone() {
    // The active conversation was deleted while disconnected: don't try to
    // reload it (EnsureActiveConversation switches to another / creates one).
    let mut state = WindowState {
        current_conversation_id: Some("gone".to_string()),
        ..Default::default()
    };
    let effects = state.apply(UiMessage::ConversationsLoaded(vec![summary(
        "c1", "first", false,
    )]));
    assert!(
        matches!(
            effects.as_slice(),
            [
                Effect::SetConversations(_),
                Effect::EnsureActiveConversation
            ]
        ),
        "must not reload a conversation that's no longer present: {effects:?}"
    );
}

#[test]
fn conversation_reloaded_refreshes_cache_and_chat_without_touching_picker() {
    let mut state = WindowState {
        current_conversation_id: Some("c1".to_string()),
        ..Default::default()
    };
    let mut d = detail("c1", vec![msg("user", "hi")]);
    d.model_selection = Some(selection("work", "sonata"));
    let effects = state.apply(UiMessage::ConversationReloaded(d));
    assert!(
        state.current_conversation().is_some(),
        "cache must be updated"
    );
    assert!(
        !effects
            .iter()
            .any(|e| matches!(e, Effect::SetModelSelection(_))),
        "reload must not touch the picker: {effects:?}"
    );
    match effects.as_slice() {
        [
            Effect::LoadConversationIntoChat(_),
            Effect::SidePaneSetScratchpad(_),
            Effect::RefreshSidePaneTasks,
            Effect::FetchScratchpad(conv),
        ] => assert_eq!(conv, "c1"),
        other => panic!("unexpected effects: {other:?}"),
    }
}

#[test]
fn conversation_reloaded_ignored_when_user_switched_away() {
    let mut state = WindowState {
        current_conversation_id: Some("c2".to_string()),
        ..Default::default()
    };
    let effects = state.apply(UiMessage::ConversationReloaded(detail("c1", vec![])));
    assert!(
        effects.is_empty(),
        "stale reload for a non-active conversation must be a no-op: {effects:?}"
    );
}

#[test]
fn default_model_loaded_emits_set_default_model_effect() {
    let mut state = WindowState::default();
    let default = SelectedModel {
        connection_id: "work".to_string(),
        model_id: "sonata".to_string(),
    };
    let effects = state.apply(UiMessage::DefaultModelLoaded(Some(default.clone())));
    match effects.as_slice() {
        [Effect::SetDefaultModel(Some(got))] => {
            assert_eq!(got.connection_id, "work");
            assert_eq!(got.model_id, "sonata");
        }
        other => panic!("unexpected effects: {other:?}"),
    }
}

#[test]
fn default_model_loaded_none_emits_set_default_model_none() {
    let mut state = WindowState::default();
    let effects = state.apply(UiMessage::DefaultModelLoaded(None));
    assert!(
        matches!(effects.as_slice(), [Effect::SetDefaultModel(None)]),
        "unresolved default must still emit a (None) effect: {effects:?}"
    );
}

#[test]
fn dangling_model_warning_for_current_conversation_clears_picker_and_cached_selection() {
    let mut conv = detail("c1", vec![]);
    conv.model_selection = Some(selection("old", "gone"));
    let mut state = WindowState {
        ..Default::default()
    }
    .with_open(conv);
    let warning = api::ConversationWarning::DanglingModelSelection {
        previous_selection: selection("old", "gone"),
        fallback_to: selection("work", "sonata"),
    };
    let effects = state.apply(UiMessage::ConversationWarning {
        conversation_id: "c1".to_string(),
        warning,
    });
    // Cached selection must be cleared so a later reload/switch doesn't
    // re-apply the stale dangling selection, contradicting the toast.
    assert!(
        state
            .current_conversation()
            .unwrap()
            .model_selection
            .is_none()
    );
    match effects.as_slice() {
        [Effect::SetModelSelection(None), Effect::ShowToast(message)] => {
            assert!(message.contains("gone"));
            assert!(message.contains("sonata"));
        }
        other => panic!("unexpected effects: {other:?}"),
    }
}

#[test]
fn dangling_model_warning_for_other_conversation_only_toasts() {
    let mut conv = detail("c1", vec![]);
    conv.model_selection = Some(selection("old", "gone"));
    let mut state = WindowState {
        ..Default::default()
    }
    .with_open(conv);
    let warning = api::ConversationWarning::DanglingModelSelection {
        previous_selection: selection("old", "gone"),
        fallback_to: selection("work", "sonata"),
    };
    let effects = state.apply(UiMessage::ConversationWarning {
        conversation_id: "c2-not-current".to_string(),
        warning,
    });
    // Not the current conversation: don't touch the picker or cached
    // selection — only surface the advisory toast.
    assert!(
        state
            .current_conversation()
            .unwrap()
            .model_selection
            .is_some()
    );
    assert!(
        matches!(effects.as_slice(), [Effect::ShowToast(_)]),
        "unexpected effects: {effects:?}"
    );
}

// --- Simple passthrough variants -------------------------------------

#[test]
fn status_update_sets_status_text_verbatim() {
    let mut state = WindowState::default();
    let effects = state.apply(UiMessage::StatusUpdate("Connecting".to_string()));
    assert!(matches!(effects.as_slice(), [Effect::SetStatusText(t)] if t == "Connecting"));
}

#[test]
fn error_message_is_prefixed_in_status_bar() {
    let mut state = WindowState::default();
    let effects = state.apply(UiMessage::Error("nope".to_string()));
    assert!(matches!(effects.as_slice(), [Effect::SetStatusText(t)] if t == "Error: nope"));
}

#[test]
fn connected_sets_label_and_enables_send() {
    let mut state = WindowState::default();
    let effects = state.apply(UiMessage::Connected {
        label: "Local daemon".to_string(),
    });
    assert!(
        matches!(
            effects.as_slice(),
            [Effect::SetStatusText(t), Effect::SetSendSensitive(true)] if t == "Local daemon"
        ),
        "unexpected effects: {effects:?}"
    );
}

#[test]
fn conversation_created_sets_active_id_without_effects() {
    let mut state = WindowState::default();
    let effects = state.apply(UiMessage::ConversationCreated {
        id: "new-c".to_string(),
    });
    assert_eq!(state.current_conversation_id.as_deref(), Some("new-c"));
    assert!(effects.is_empty());
}

fn say_this_call(conversation_id: &str, text: &str) -> UiMessage {
    UiMessage::ClientToolCall {
        task_id: "task-1".to_string(),
        conversation_id: conversation_id.to_string(),
        tool_call_id: "call-1".to_string(),
        tool_name: "say_this".to_string(),
        arguments: object(vec![("text", Value::String(text.to_string()))]),
    }
}

fn voice_tool_call(conversation_id: &str, tool_name: &str) -> UiMessage {
    UiMessage::ClientToolCall {
        task_id: "task-v".to_string(),
        conversation_id: conversation_id.to_string(),
        tool_call_id: "call-v".to_string(),
        tool_name: tool_name.to_string(),
        arguments: object(vec![]),
    }
}

fn state_with(voice_in: bool, adele: AdeleOutput) -> WindowState {
    let mut state = WindowState {
        current_conversation_id: Some("c1".to_string()),
        ..Default::default()
    };
    let model = state.open.entry_or_default("c1");
    model.voice_in = voice_in;
    model.adele_output = adele;
    state
}

/// A `StreamComplete` for `c1` carrying `full_response`, against a freshly
/// pinned pending request — the reply-narration trigger.
fn stream_complete_in(state: &mut WindowState, full_response: &str) -> Vec<Effect> {
    state.open.entry_or_default("c1").stream = Some(StreamState {
        request_id: Some("req".to_string()),
        ..Default::default()
    });
    state.cache_detail(detail("c1", vec![]));
    state.apply(UiMessage::StreamComplete {
        request_id: "req".to_string(),
        full_response: full_response.to_string(),
    })
}

/// Default (You=Disabled, Adele=Disabled): both controls default off for an
/// untouched conversation, so no audio path can fire.
#[test]
fn defaults_are_voice_in_disabled_and_adele_disabled() {
    let state = WindowState {
        current_conversation_id: Some("c1".to_string()),
        ..Default::default()
    };
    assert!(
        !state.voice_in_for_current(),
        "You must default Disabled for an untouched conversation"
    );
    assert_eq!(
        state.adele_output_for_current(),
        AdeleOutput::Disabled,
        "Adele must default Disabled for an untouched conversation"
    );
    assert!(!state.narrate_for_current(), "default gate must be closed");
    assert!(
        !state.say_this_spoken_for_current(),
        "default say_this must downgrade to inline"
    );
}

/// Default: a `say_this` produces the `SpeechDisabled` downgrade line (clean
/// content, the marker is the executor's job), NO `Speak`, and ALWAYS a
/// `SubmitClientToolResult` (the turn completes, can't hang).
#[test]
fn default_say_this_renders_inline_and_resolves_without_audio() {
    let mut state = WindowState {
        current_conversation_id: Some("c1".to_string()),
        ..Default::default()
    };
    let effects = state.apply(say_this_call("c1", "the aside"));
    assert!(
        !effects.iter().any(|e| matches!(e, Effect::Speak(_))),
        "Adele Disabled must never produce a Speak effect: {effects:?}"
    );
    let inline = effects.iter().any(|e| {
        matches!(
            e,
            Effect::AddLocalMessage { content, kind: MessageKind::SpeechDisabled }
                if content == "the aside"
        )
    });
    assert!(
        inline,
        "expected the SpeechDisabled downgrade line: {effects:?}"
    );
    let resolved = effects.iter().any(|e| {
        matches!(
            e,
            Effect::SubmitClientToolResult { task_id, tool_call_id, result: Ok(_) }
                if task_id == "task-1" && tool_call_id == "call-1"
        )
    });
    assert!(
        resolved,
        "say_this must always resolve a result: {effects:?}"
    );
}

/// Adele=Always: every reply is spoken (and finalized), independent of You.
#[test]
fn adele_always_speaks_every_reply_regardless_of_you() {
    for voice_in in [false, true] {
        let mut state = state_with(voice_in, AdeleOutput::Always);
        assert!(
            state.narrate_for_current(),
            "Always must narrate (You={voice_in})"
        );
        let effects = stream_complete_in(&mut state, "an answer");
        assert!(
            effects
                .iter()
                .any(|e| matches!(e, Effect::Speak(t) if t == "an answer")),
            "Always must speak the reply (You={voice_in}): {effects:?}"
        );
        assert!(
            effects
                .iter()
                .any(|e| matches!(e, Effect::CompleteStreaming(t) if t == "an answer")),
            "the reply text must still be finalized: {effects:?}"
        );
    }
}

#[test]
fn external_user_message_in_active_conversation_renders_bubble_and_adopts() {
    let mut state = WindowState {
        ..Default::default()
    }
    .with_open(detail("c1", vec![]));
    let effects = state.apply(UiMessage::UserMessageAdded {
        conversation_id: "c1".to_string(),
        request_id: "voice-req".to_string(),
        content: "what's the weather?".to_string(),
        idempotency_key: None,
    });
    assert!(
        effects
            .iter()
            .any(|e| matches!(e, Effect::AddUserMessage(t) if t == "what's the weather?")),
        "an external turn in the open conversation must render the user bubble: {effects:?}"
    );
    assert_eq!(
        state.stream_request_id(),
        Some("voice-req"),
        "the external turn must be adopted into the pending slot so its reply streams live"
    );
    assert_eq!(state.stream_conversation_id().as_deref(), Some("c1"));
    assert!(
        state.stream_external(),
        "an adopted turn must be flagged external so gtk does not also narrate it"
    );
    assert_eq!(
        state.current_conversation().unwrap().messages.len(),
        1,
        "the user message must be cached so a reload keeps it"
    );
}

/// This client's own send is echoed back as `UserMessageAdded`. The bubble
/// was already drawn optimistically at send time, so the echo renders
/// nothing — it only claims the real `request_id` onto the `__pending__`
/// slot (so the stream correlates).
#[test]
fn own_send_echo_dedupes_and_claims_request_id() {
    let mut state = WindowState {
        current_conversation_id: Some("c1".to_string()),
        ..Default::default()
    };
    // Simulate the local send: PromptSent pins "__pending__" + the conv.
    state.apply(UiMessage::PromptSent {
        task_id: String::new(),
        conversation_id: "c1".to_string(),
        idempotency_key: None,
    });
    let effects = state.apply(UiMessage::UserMessageAdded {
        conversation_id: "c1".to_string(),
        request_id: "real-req".to_string(),
        content: "typed this".to_string(),
        idempotency_key: None,
    });
    assert!(
        effects.is_empty(),
        "our own send's echo must not double-render the bubble: {effects:?}"
    );
    assert_eq!(
        state.stream_request_id(),
        Some("real-req"),
        "the echo must claim the real request_id off the __pending__ sentinel"
    );
    assert!(
        !state.stream_external(),
        "our own turn must NOT be flagged external (gtk owns its narration)"
    );
}

#[test]
fn adopted_external_turn_streams_reply_without_gtk_narration() {
    // Adele=Always would normally narrate every reply.
    let mut state = state_with(false, AdeleOutput::Always);
    state.cache_detail(detail("c1", vec![]));
    state.apply(UiMessage::UserMessageAdded {
        conversation_id: "c1".to_string(),
        request_id: "voice-req".to_string(),
        content: "a question".to_string(),
        idempotency_key: None,
    });
    let done = state.apply(UiMessage::StreamComplete {
        request_id: "voice-req".to_string(),
        full_response: "the spoken answer".to_string(),
    });
    assert!(
        done.iter()
            .any(|e| matches!(e, Effect::CompleteStreaming(t) if t == "the spoken answer")),
        "the reply text must still be finalized in the view: {done:?}"
    );
    assert!(
        !done.iter().any(|e| matches!(e, Effect::Speak(_))),
        "an external turn must NOT be narrated by gtk (the originator speaks it): {done:?}"
    );
    assert!(
        !state.stream_external(),
        "the external flag must reset at turn completion"
    );
}

/// A `UserMessageAdded` for a conversation NOT in view is left to the
/// reload-on-switch path — it must not touch the open chat or the pending
/// slot.
#[test]
fn external_turn_for_background_conversation_is_ignored() {
    let mut state = WindowState {
        ..Default::default()
    }
    .with_open(detail("c1", vec![]));
    let effects = state.apply(UiMessage::UserMessageAdded {
        conversation_id: "c2".to_string(),
        request_id: "bg-req".to_string(),
        content: "background".to_string(),
        idempotency_key: None,
    });
    assert!(
        effects.is_empty(),
        "a background conversation's turn must not render into the open chat: {effects:?}"
    );
    assert!(
        !state.is_streaming(),
        "a background turn must not be adopted into the pending slot"
    );
}

/// While this client's own turn is in flight (request_id already claimed),
/// a concurrent external turn for the same conversation is NOT adopted — the
/// single in-flight slot stays bound to our turn (the external turn surfaces
/// on reload).
#[test]
fn external_turn_ignored_while_own_turn_in_flight() {
    let mut state = WindowState::default()
        .with_open(detail("c1", vec![]))
        .with_stream(
            "c1",
            StreamState {
                request_id: Some("mine".to_string()),
                ..Default::default()
            },
        );
    let effects = state.apply(UiMessage::UserMessageAdded {
        conversation_id: "c1".to_string(),
        request_id: "other".to_string(),
        content: "concurrent".to_string(),
        idempotency_key: None,
    });
    assert!(
        effects.is_empty(),
        "must not adopt a second turn while one is in flight: {effects:?}"
    );
    assert_eq!(
        state.stream_request_id(),
        Some("mine"),
        "the in-flight turn's slot must be preserved"
    );
}

#[test]
fn adele_always_does_not_speak_say_this_aside() {
    let mut state = state_with(false, AdeleOutput::Always);
    let effects = state.apply(say_this_call("c1", "hello aloud"));
    assert!(
        !effects.iter().any(|e| matches!(e, Effect::Speak(_))),
        "Always must not separately speak a say_this aside: {effects:?}"
    );
    assert!(
        effects.iter().any(|e| matches!(
            e,
            Effect::AddLocalMessage { content, kind: MessageKind::SpeechDisabled }
                if content == "hello aloud"
        )),
        "the aside downgrades to a shown line: {effects:?}"
    );
    assert!(
        effects
            .iter()
            .any(|e| matches!(e, Effect::SubmitClientToolResult { result: Ok(_), .. })),
        "still resolves a result: {effects:?}"
    );
}

/// No double-speak: in on-demand mode the model voices an aside via
/// `say_this`, and the `StreamComplete` reply narration stays silent — the
/// user hears the aside once, not the aside AND the whole reply read aloud.
/// (On-demand never auto-narrates, so suppression is automatic; the
/// `say_this_spoken_this_turn` backstop covers a future mode change.)
#[test]
fn say_this_aside_suppresses_duplicate_reply_narration() {
    let mut state = state_with(false, AdeleOutput::OnDemand);
    // Simulate an in-flight turn for the open conversation.
    state.open.entry_or_default("c1").stream = Some(StreamState {
        request_id: Some("req".to_string()),
        ..Default::default()
    });
    state.cache_detail(detail("c1", vec![]));

    // The model speaks an aside mid-turn.
    let aside = state.apply(say_this_call("c1", "the spoken answer"));
    assert!(
        aside
            .iter()
            .any(|e| matches!(e, Effect::Speak(t) if t == "the spoken answer")),
        "the say_this aside should be spoken: {aside:?}"
    );

    // The turn completes: the full reply must NOT be read aloud.
    let done = state.apply(UiMessage::StreamComplete {
        request_id: "req".to_string(),
        full_response: "the spoken answer, in more words".to_string(),
    });
    assert!(
        !done.iter().any(|e| matches!(e, Effect::Speak(_))),
        "on-demand must not narrate the full reply (double-speak): {done:?}"
    );
    assert!(
        done.iter()
            .any(|e| matches!(e, Effect::CompleteStreaming(_))),
        "the reply is still finalized in the chat: {done:?}"
    );
}

#[test]
fn adele_on_demand_does_not_auto_narrate_reply() {
    for voice_in in [false, true] {
        let mut state = state_with(voice_in, AdeleOutput::OnDemand);
        assert!(
            !state.narrate_for_current(),
            "OnDemand must not auto-narrate (You={voice_in})"
        );
        let effects = stream_complete_in(&mut state, "an answer");
        assert!(
            !effects.iter().any(|e| matches!(e, Effect::Speak(_))),
            "OnDemand must not speak the reply (You={voice_in}): {effects:?}"
        );
        assert!(
            effects
                .iter()
                .any(|e| matches!(e, Effect::CompleteStreaming(t) if t == "an answer")),
            "the reply text must still be finalized (You={voice_in}): {effects:?}"
        );
    }
}

#[test]
fn adele_on_demand_say_this_speaks_and_shows_spoken() {
    for voice_in in [false, true] {
        let mut state = state_with(voice_in, AdeleOutput::OnDemand);
        let effects = state.apply(say_this_call("c1", "an aside"));
        assert!(
            effects
                .iter()
                .any(|e| matches!(e, Effect::Speak(t) if t == "an aside")),
            "OnDemand say_this must speak (You={voice_in}): {effects:?}"
        );
        assert!(
            effects.iter().any(|e| matches!(
                e,
                Effect::AddLocalMessage { content, kind: MessageKind::Spoken }
                    if content == "an aside"
            )),
            "the spoken line must show tagged Spoken (You={voice_in}): {effects:?}"
        );
        assert!(
            !effects.iter().any(|e| matches!(
                e,
                Effect::AddLocalMessage {
                    kind: MessageKind::SpeechDisabled,
                    ..
                }
            )),
            "no SpeechDisabled downgrade when spoken (You={voice_in}): {effects:?}"
        );
    }
}

#[test]
fn disabled_conversation_dictated_turn_emits_no_speak() {
    let mut state = state_with(true, AdeleOutput::Disabled);
    let effects = stream_complete_in(&mut state, "a silent reply");
    assert!(
        !effects.iter().any(|e| matches!(e, Effect::Speak(_))),
        "Adele=Disabled must never narrate, even a dictated turn: {effects:?}"
    );
    assert!(
        effects
            .iter()
            .any(|e| matches!(e, Effect::CompleteStreaming(t) if t == "a silent reply")),
        "the reply text must still be finalized: {effects:?}"
    );
}

#[test]
fn narrating_conversation_dictated_turn_emits_exactly_one_speak() {
    let mut state = state_with(false, AdeleOutput::Always);
    let effects = stream_complete_in(&mut state, "spoken once");
    let speaks = effects
        .iter()
        .filter(|e| matches!(e, Effect::Speak(t) if t == "spoken once"))
        .count();
    assert_eq!(
        speaks, 1,
        "exactly one Speak: {effects:?}"
    );
}

/// `request_voice` sets Adele=OnDemand for the active conversation, reflects
/// the dropdown, and ALWAYS resolves a result (no audio by itself).
#[test]
fn request_voice_sets_on_demand_reflects_and_resolves() {
    let mut state = WindowState {
        current_conversation_id: Some("c1".to_string()),
        ..Default::default()
    };
    let effects = state.apply(voice_tool_call("c1", "request_voice"));
    assert_eq!(
        state.adele_output_for_current(),
        AdeleOutput::OnDemand,
        "request_voice must set Adele=OnDemand for the active conversation"
    );
    assert!(
        effects
            .iter()
            .any(|e| matches!(e, Effect::SetAdeleOutputDropdown(AdeleOutput::OnDemand))),
        "request_voice must reflect OnDemand on the dropdown: {effects:?}"
    );
    assert!(
        effects.iter().any(|e| matches!(
            e,
            Effect::SubmitClientToolResult { task_id, tool_call_id, result: Ok(_) }
                if task_id == "task-v" && tool_call_id == "call-v"
        )),
        "request_voice must resolve an Ok result: {effects:?}"
    );
    assert!(
        !effects.iter().any(|e| matches!(e, Effect::Speak(_))),
        "request_voice itself must not speak: {effects:?}"
    );
}

/// `stop_voice` sets Adele=Disabled, reflects the dropdown, and ALWAYS
/// resolves a result.
#[test]
fn stop_voice_sets_disabled_reflects_and_resolves() {
    let mut state = state_with(true, AdeleOutput::Always);
    let effects = state.apply(voice_tool_call("c1", "stop_voice"));
    assert_eq!(
        state.adele_output_for_current(),
        AdeleOutput::Disabled,
        "stop_voice must set Adele=Disabled"
    );
    assert!(
        effects
            .iter()
            .any(|e| matches!(e, Effect::SetAdeleOutputDropdown(AdeleOutput::Disabled))),
        "stop_voice must reflect Disabled on the dropdown: {effects:?}"
    );
    assert!(
        effects.iter().any(|e| matches!(
            e,
            Effect::SubmitClientToolResult { task_id, tool_call_id, result: Ok(_) }
                if task_id == "task-v" && tool_call_id == "call-v"
        )),
        "stop_voice must resolve an Ok result: {effects:?}"
    );
}

/// Every client-tool call emits exactly one result (no wedge, no double),
/// across say_this / request_voice / stop_voice / an unknown tool.
#[test]
fn every_client_tool_call_emits_exactly_one_result() {
    let calls = [
        say_this_call("c1", "x"),
        voice_tool_call("c1", "request_voice"),
        voice_tool_call("c1", "stop_voice"),
        UiMessage::ClientToolCall {
            task_id: "t".to_string(),
            conversation_id: "c1".to_string(),
            tool_call_id: "tc".to_string(),
            tool_name: "frobnicate".to_string(),
            arguments: object(vec![]),
        },
    ];
    for call in calls {
        let mut state = WindowState {
            current_conversation_id: Some("c1".to_string()),
            ..Default::default()
        };
        let effects = state.apply(call);
        let results = effects
            .iter()
            .filter(|e| matches!(e, Effect::SubmitClientToolResult { .. }))
            .count();
        assert_eq!(
            results, 1,
            "exactly one result per client-tool call: {effects:?}"
        );
    }
}

#[test]
fn unknown_client_tool_always_resolves_with_error_result() {
    let mut state = WindowState {
        current_conversation_id: Some("c1".to_string()),
        ..Default::default()
    };
    let effects = state.apply(UiMessage::ClientToolCall {
        task_id: "task-2".to_string(),
        conversation_id: "c1".to_string(),
        tool_call_id: "call-2".to_string(),
        tool_name: "frobnicate".to_string(),
        arguments: object(vec![]),
    });
    assert!(
        !effects.iter().any(|e| matches!(e, Effect::Speak(_))),
        "an unknown tool must not produce audio: {effects:?}"
    );
    assert!(
        effects.iter().any(|e| matches!(
            e,
            Effect::SubmitClientToolResult { task_id, tool_call_id, result: Err(_) }
                if task_id == "task-2" && tool_call_id == "call-2"
        )),
        "an unrunnable tool must resolve with an Err result: {effects:?}"
    );
}

/// Malformed `say_this` arguments (missing/invalid `text`) must not panic
/// and must resolve with an `Err` result (never unwrap), even with Adele on.
#[test]
fn say_this_with_malformed_arguments_resolves_error_not_panic() {
    let mut state = state_with(true, AdeleOutput::Always);
    let effects = state.apply(UiMessage::ClientToolCall {
        task_id: "task-3".to_string(),
        conversation_id: "c1".to_string(),
        tool_call_id: "call-3".to_string(),
        tool_name: "say_this".to_string(),
        // `text` missing entirely.
        arguments: object(vec![("wrong", Value::from(5))]),
    });
    assert!(
        !effects.iter().any(|e| matches!(e, Effect::Speak(_))),
        "malformed say_this must not speak: {effects:?}"
    );
    assert!(
        effects
            .iter()
            .any(|e| matches!(e, Effect::SubmitClientToolResult { result: Err(_), .. })),
        "malformed say_this must resolve an Err result: {effects:?}"
    );
}

/// `request_voice` / `stop_voice` with malformed/non-object args still
/// resolve exactly one result without panicking (they take no arguments).
#[test]
fn voice_tools_with_malformed_args_resolve_without_panic() {
    for tool in ["request_voice", "stop_voice"] {
        let mut state = WindowState {
            current_conversation_id: Some("c1".to_string()),
            ..Default::default()
        };
        let effects = state.apply(UiMessage::ClientToolCall {
            task_id: "t".to_string(),
            conversation_id: "c1".to_string(),
            tool_call_id: "tc".to_string(),
            tool_name: tool.to_string(),
            arguments: Value::String("not-an-object".to_string()),
        });
        let results = effects
            .iter()
            .filter(|e| matches!(e, Effect::SubmitClientToolResult { .. }))
            .count();
        assert_eq!(
            results, 1,
            "{tool} must resolve exactly one result: {effects:?}"
        );
    }
}

/// Both controls are per-conversation and isolated: setting them on c1 must
/// not leak into c2, and they stick when switching back.
#[test]
fn both_controls_are_per_conversation_isolated() {
    let mut state = WindowState {
        current_conversation_id: Some("c1".to_string()),
        ..Default::default()
    };
    state.apply(UiMessage::SetVoiceIn {
        conversation_id: "c1".to_string(),
        enabled: true,
    });
    state.apply(UiMessage::SetAdeleOutput {
        conversation_id: "c1".to_string(),
        level: AdeleOutput::Always,
    });
    assert!(state.voice_in_for_current());
    assert_eq!(state.adele_output_for_current(), AdeleOutput::Always);

    // Switch to c2: both inherit their defaults (no bleed).
    state.current_conversation_id = Some("c2".to_string());
    assert!(!state.voice_in_for_current(), "You must not leak c1 → c2");
    assert_eq!(
        state.adele_output_for_current(),
        AdeleOutput::Disabled,
        "Adele must not leak c1 → c2"
    );

    // Back to c1: both stick.
    state.current_conversation_id = Some("c1".to_string());
    assert!(state.voice_in_for_current());
    assert_eq!(state.adele_output_for_current(), AdeleOutput::Always);
}

#[test]
fn say_this_for_background_conversation_no_audio_inline_note() {
    let mut state = WindowState {
        current_conversation_id: Some("c1".to_string()),
        ..Default::default()
    };
    // The call's conversation is on-demand (its own spoken channel) — but it
    // isn't in view, so the aside still can't play here.
    state.open.entry_or_default("c2").adele_output = AdeleOutput::OnDemand;
    let effects = state.apply(say_this_call("c2", "background aside"));
    assert!(
        !effects.iter().any(|e| matches!(e, Effect::Speak(_))),
        "a background conversation's say_this must never play audio: {effects:?}"
    );
    assert!(
        effects.iter().any(|e| matches!(
            e,
            Effect::AddLocalMessage { content, kind: MessageKind::SpeechDisabled }
                if content.contains("background aside")
        )),
        "the aside must be shown as text instead: {effects:?}"
    );
    let results = effects
        .iter()
        .filter(|e| matches!(e, Effect::SubmitClientToolResult { result: Ok(_), .. }))
        .count();
    assert_eq!(results, 1, "exactly one Ok result: {effects:?}");
}

#[test]
fn background_say_this_does_not_borrow_active_conversations_gate() {
    let mut state = state_with(false, AdeleOutput::OnDemand); // active c1, gate open
    let effects = state.apply(say_this_call("c2", "should not play"));
    assert!(
        !effects.iter().any(|e| matches!(e, Effect::Speak(_))),
        "c2's aside must not play under c1's gate: {effects:?}"
    );
    assert!(
        effects.iter().any(|e| matches!(
            e,
            Effect::AddLocalMessage {
                kind: MessageKind::SpeechDisabled,
                ..
            }
        )),
        "the aside downgrades to text: {effects:?}"
    );
}

#[test]
fn active_say_this_gates_on_its_own_conversations_level() {
    let mut state = WindowState {
        current_conversation_id: Some("c1".to_string()),
        ..Default::default()
    };
    state.open.entry_or_default("c9").adele_output = AdeleOutput::OnDemand; // unrelated
    let effects = state.apply(say_this_call("c1", "quiet aside"));
    assert!(
        !effects.iter().any(|e| matches!(e, Effect::Speak(_))),
        "c1 is Disabled; no audio: {effects:?}"
    );
    assert!(
        effects.iter().any(|e| matches!(
            e,
            Effect::AddLocalMessage { content, kind: MessageKind::SpeechDisabled }
                if content == "quiet aside"
        )),
        "expected the SpeechDisabled downgrade line: {effects:?}"
    );
}

#[test]
fn request_voice_targets_call_conversation_when_backgrounded() {
    let mut state = WindowState {
        current_conversation_id: Some("c1".to_string()),
        ..Default::default()
    };
    let effects = state.apply(voice_tool_call("c2", "request_voice"));
    assert_eq!(
        state.adele_output_for("c2"),
        AdeleOutput::OnDemand,
        "request_voice must write the call's conversation"
    );
    assert_eq!(
        state.adele_output_for_current(),
        AdeleOutput::Disabled,
        "the viewed conversation must not be flipped into voice mode"
    );
    assert!(
        !effects
            .iter()
            .any(|e| matches!(e, Effect::SetAdeleOutputDropdown(_))),
        "the dropdown shows the viewed conversation; a background change must not touch it: {effects:?}"
    );
    assert!(
        effects
            .iter()
            .any(|e| matches!(e, Effect::SubmitClientToolResult { result: Ok(_), .. })),
        "still always resolves: {effects:?}"
    );
}

#[test]
fn stop_voice_targets_call_conversation_when_backgrounded() {
    let mut state = state_with(true, AdeleOutput::OnDemand); // viewed c1
    state.open.entry_or_default("c2").adele_output = AdeleOutput::Always;
    let effects = state.apply(voice_tool_call("c2", "stop_voice"));
    assert_eq!(
        state.adele_output_for("c2"),
        AdeleOutput::Disabled,
        "stop_voice must write the call's conversation"
    );
    assert_eq!(
        state.adele_output_for_current(),
        AdeleOutput::OnDemand,
        "the viewed conversation must keep its level"
    );
    assert!(
        !effects
            .iter()
            .any(|e| matches!(e, Effect::SetAdeleOutputDropdown(_))),
        "a background change must not touch the dropdown: {effects:?}"
    );
}

/// `refinement_for_send` returns the right variant per (Adele level, You):
/// Disabled → none; OnDemand → the brief/conversational refinement; Always →
/// the speakable-but-full refinement. `You` does not change the refinement
/// (it's chosen by the Adele level).
#[test]
fn refinement_for_send_returns_right_variant_per_level() {
    // Disabled → none (independent of You).
    for voice_in in [false, true] {
        let state = state_with(voice_in, AdeleOutput::Disabled);
        assert!(
            refinement_for_send(&state).is_none(),
            "Adele=Disabled must attach no refinement (You={voice_in})"
        );
    }
    // OnDemand → the brief refinement (independent of You).
    for voice_in in [false, true] {
        let state = state_with(voice_in, AdeleOutput::OnDemand);
        assert_eq!(
            refinement_for_send(&state),
            Some(SendRefinement::OnDemand),
            "Adele=OnDemand must attach the brief refinement (You={voice_in})"
        );
    }
    // Always → the full refinement (independent of You).
    for voice_in in [false, true] {
        let state = state_with(voice_in, AdeleOutput::Always);
        assert_eq!(
            refinement_for_send(&state),
            Some(SendRefinement::Always),
            "Adele=Always must attach the full refinement (You={voice_in})"
        );
    }
    // The two refinements differ.
    assert_ne!(SendRefinement::OnDemand, SendRefinement::Always);
}

/// A user-driven `SetVoiceIn` records the per-conversation state and emits
/// no effects.
#[test]
fn set_voice_in_records_state_scoped_to_conversation() {
    let mut state = WindowState {
        current_conversation_id: Some("c1".to_string()),
        ..Default::default()
    };
    let effects = state.apply(UiMessage::SetVoiceIn {
        conversation_id: "c1".to_string(),
        enabled: true,
    });
    assert!(effects.is_empty(), "setting You emits no effects");
    assert!(state.voice_in_for_current());
    state.current_conversation_id = Some("c2".to_string());
    assert!(
        !state.voice_in_for_current(),
        "You set on c1 must not leak into c2"
    );
}

/// A user-driven `SetAdeleOutput` records the per-conversation level and
/// emits no effects.
#[test]
fn set_adele_output_records_state_scoped_to_conversation() {
    let mut state = WindowState {
        current_conversation_id: Some("c1".to_string()),
        ..Default::default()
    };
    let effects = state.apply(UiMessage::SetAdeleOutput {
        conversation_id: "c1".to_string(),
        level: AdeleOutput::OnDemand,
    });
    assert!(effects.is_empty(), "setting Adele emits no effects");
    assert_eq!(state.adele_output_for_current(), AdeleOutput::OnDemand);
    state.current_conversation_id = Some("c2".to_string());
    assert_eq!(
        state.adele_output_for_current(),
        AdeleOutput::Disabled,
        "Adele set on c1 must not leak into c2"
    );
}

/// Read the single `TurnFinished` out of a returned effect list, or `None`
/// when there is none. Panics if a turn reports finished twice.
fn turn_finished(effects: &[Effect]) -> Option<(&str, &str, Option<&str>, &TurnOutcome)> {
    let mut it = effects.iter().filter_map(|e| match e {
        Effect::TurnFinished {
            conversation_id,
            request_id,
            idempotency_key,
            outcome,
        } => Some((
            conversation_id.as_str(),
            request_id.as_str(),
            idempotency_key.as_deref(),
            outcome,
        )),
        _ => None,
    });
    let first = it.next();
    assert!(
        it.next().is_none(),
        "a single terminal event must report exactly one finished turn"
    );
    first
}

/// Send into `c1`, ack it, claim the daemon id, then switch the view to
/// `c2`, so `c1`'s turn is still streaming, in the background, with the
/// client-minted key `k` behind it.
fn backgrounded_turn(key: Option<&str>) -> WindowState {
    let mut state = WindowState::default().with_open(detail("c1", vec![]));
    state.apply(UiMessage::SubmitPrompt {
        prompt: "how long did that take".to_string(),
        idempotency_key: key.map(str::to_string),
    });
    state.apply(UiMessage::PromptSent {
        task_id: "task-1".to_string(),
        conversation_id: "c1".to_string(),
        idempotency_key: key.map(str::to_string),
    });
    state.apply(UiMessage::StreamChunk {
        request_id: "req-c1".to_string(),
        chunk: "thinking".to_string(),
    });
    state.apply(UiMessage::ConversationLoaded(detail("c2", vec![])));
    assert!(
        state.stream_of("c1").is_some(),
        "precondition: c1 still streams after the switch"
    );
    assert!(
        !state.is_active_conversation("c1"),
        "precondition: c1 is backgrounded"
    );
    state
}

/// The person sends in one conversation,
/// switches away, and the reply finishes while they are somewhere else. The
/// completion must still reach the host, naming the conversation and the
/// submit it closes.
#[test]
fn a_backgrounded_completion_reports_its_conversation_and_key() {
    let mut state = backgrounded_turn(Some("submit-key"));
    let effects = state.apply(UiMessage::StreamComplete {
        request_id: "req-c1".to_string(),
        full_response: "the answer".to_string(),
    });
    assert_eq!(
        turn_finished(&effects),
        Some(("c1", "req-c1", Some("submit-key"), &TurnOutcome::Completed)),
        "a backgrounded completion must report the finished turn: {effects:?}"
    );
}

/// The same for the failure path. A span closes on a failed turn too, or
/// it never closes at all.
#[test]
fn a_backgrounded_error_reports_its_conversation_and_key() {
    let mut state = backgrounded_turn(Some("submit-key"));
    let effects = state.apply(UiMessage::StreamError {
        request_id: "req-c1".to_string(),
        error: "the provider timed out".to_string(),
    });
    assert_eq!(
        turn_finished(&effects),
        Some((
            "c1",
            "req-c1",
            Some("submit-key"),
            &TurnOutcome::Failed("the provider timed out".to_string())
        )),
        "a backgrounded error must report the finished turn: {effects:?}"
    );
}

/// The in-view path reports the same thing, so a host has one rule rather
/// than two.
#[test]
fn an_in_view_completion_reports_the_finished_turn() {
    let mut state = WindowState::default().with_open(detail("c1", vec![]));
    state.apply(UiMessage::SubmitPrompt {
        prompt: "hello".to_string(),
        idempotency_key: Some("submit-key".to_string()),
    });
    state.apply(UiMessage::PromptSent {
        task_id: "task-1".to_string(),
        conversation_id: "c1".to_string(),
        idempotency_key: Some("submit-key".to_string()),
    });
    let effects = state.apply(UiMessage::StreamComplete {
        request_id: "req-c1".to_string(),
        full_response: "the answer".to_string(),
    });
    assert_eq!(
        turn_finished(&effects),
        Some(("c1", "req-c1", Some("submit-key"), &TurnOutcome::Completed)),
        "an in-view completion must report the finished turn: {effects:?}"
    );
}

#[test]
fn an_in_view_error_reports_the_finished_turn_as_failed() {
    let mut state = WindowState::default().with_open(detail("c1", vec![]));
    state.apply(UiMessage::SubmitPrompt {
        prompt: "hello".to_string(),
        idempotency_key: Some("submit-key".to_string()),
    });
    state.apply(UiMessage::PromptSent {
        task_id: "task-1".to_string(),
        conversation_id: "c1".to_string(),
        idempotency_key: Some("submit-key".to_string()),
    });
    let effects = state.apply(UiMessage::StreamError {
        request_id: "req-c1".to_string(),
        error: "boom".to_string(),
    });
    assert_eq!(
        turn_finished(&effects),
        Some((
            "c1",
            "req-c1",
            Some("submit-key"),
            &TurnOutcome::Failed("boom".to_string())
        )),
        "an in-view error must report the finished turn: {effects:?}"
    );
}

/// A turn this client never sent (a voice turn, or another client) carries
/// no key, so a host is told plainly that it holds no span for it.
#[test]
fn an_adopted_external_turn_reports_no_key() {
    let mut state = WindowState::default().with_open(detail("c1", vec![]));
    state.apply(UiMessage::UserMessageAdded {
        conversation_id: "c1".to_string(),
        request_id: "req-ext".to_string(),
        content: "asked by voice".to_string(),
        idempotency_key: None,
    });
    assert!(
        state.stream_external(),
        "precondition: the turn was adopted"
    );
    let effects = state.apply(UiMessage::StreamComplete {
        request_id: "req-ext".to_string(),
        full_response: "the answer".to_string(),
    });
    assert_eq!(
        turn_finished(&effects),
        Some(("c1", "req-ext", None, &TurnOutcome::Completed)),
        "an adopted external turn reports its conversation but no key: {effects:?}"
    );
}

/// A keyless send (a host that mints no key) still reports its
/// conversation, so correlation degrades rather than disappearing.
#[test]
fn a_keyless_send_still_reports_its_conversation() {
    let mut state = backgrounded_turn(None);
    let effects = state.apply(UiMessage::StreamComplete {
        request_id: "req-c1".to_string(),
        full_response: "the answer".to_string(),
    });
    assert_eq!(
        turn_finished(&effects),
        Some(("c1", "req-c1", None, &TurnOutcome::Completed)),
        "a keyless turn still names its conversation: {effects:?}"
    );
}

#[test]
fn a_finished_turn_is_reported_before_the_queue_flushs_next_send() {
    let mut state = mid_stream_state("c1", "c1");
    state.apply(UiMessage::SubmitPrompt {
        prompt: "and another thing".to_string(),
        idempotency_key: Some("queued-key".to_string()),
    });
    let effects = state.apply(UiMessage::StreamComplete {
        request_id: "req-real".to_string(),
        full_response: "the answer".to_string(),
    });
    let finished = effects
        .iter()
        .position(|e| matches!(e, Effect::TurnFinished { .. }))
        .expect("the completed turn must be reported");
    let next_send = effects
        .iter()
        .position(|e| matches!(e, Effect::SendPrompt { .. }))
        .expect("the queued follow-up must flush");
    assert!(
        finished < next_send,
        "the finished turn must be reported before the next send starts: {effects:?}"
    );
}

/// Several sends queued mid-stream flush as ONE turn that adopts the first
/// queued key. The finished turn reports that same key, so the host closes
/// the span the fold actually kept.
#[test]
fn a_flushed_turn_reports_the_key_the_flush_adopted() {
    let mut state = mid_stream_state("c1", "c1");
    state.apply(UiMessage::SubmitPrompt {
        prompt: "a".to_string(),
        idempotency_key: Some("ka".to_string()),
    });
    state.apply(UiMessage::SubmitPrompt {
        prompt: "b".to_string(),
        idempotency_key: Some("kb".to_string()),
    });
    // Finish the first turn: the queue flushes as one combined send.
    state.apply(UiMessage::StreamComplete {
        request_id: "req-real".to_string(),
        full_response: "first answer".to_string(),
    });
    state.apply(UiMessage::PromptSent {
        task_id: "task-2".to_string(),
        conversation_id: "c1".to_string(),
        // The executor echoes the key it was handed on the flush's
        // `SendPrompt`, which is the first queued message's.
        idempotency_key: Some("ka".to_string()),
    });
    let effects = state.apply(UiMessage::StreamComplete {
        request_id: "req-flush".to_string(),
        full_response: "second answer".to_string(),
    });
    assert_eq!(
        turn_finished(&effects),
        Some(("c1", "req-flush", Some("ka"), &TurnOutcome::Completed)),
        "the flushed turn reports the key it adopted: {effects:?}"
    );
}

/// A completion for a stream the reducer does not own reports nothing. The
/// reducer's own view is what a host acts on, so a stray daemon id must not
/// close a span.
#[test]
fn an_unrouted_completion_reports_no_finished_turn() {
    let mut state = WindowState::default().with_open(detail("c1", vec![]));
    let effects = state.apply(UiMessage::StreamComplete {
        request_id: "req-nobody-owns".to_string(),
        full_response: "the answer".to_string(),
    });
    assert_eq!(
        turn_finished(&effects),
        None,
        "an unrouted completion must report no finished turn: {effects:?}"
    );
}

/// A send that never reached the daemon leaves no key behind, so the next
/// turn in the same conversation is not reported under the failed send's
/// key.
#[test]
fn a_failed_send_does_not_leak_its_key_onto_the_next_turn() {
    let mut state = WindowState::default().with_open(detail("c1", vec![]));
    state.apply(UiMessage::SubmitPrompt {
        prompt: "lost".to_string(),
        idempotency_key: Some("dead-key".to_string()),
    });
    state.apply(UiMessage::SendFailed {
        conversation_id: "c1".to_string(),
        prompt: "lost".to_string(),
    });
    state.apply(UiMessage::SubmitPrompt {
        prompt: "retry".to_string(),
        idempotency_key: Some("live-key".to_string()),
    });
    state.apply(UiMessage::PromptSent {
        task_id: "task-2".to_string(),
        conversation_id: "c1".to_string(),
        idempotency_key: Some("live-key".to_string()),
    });
    let effects = state.apply(UiMessage::StreamComplete {
        request_id: "req-c1".to_string(),
        full_response: "the answer".to_string(),
    });
    assert_eq!(
        turn_finished(&effects),
        Some(("c1", "req-c1", Some("live-key"), &TurnOutcome::Completed)),
        "the finished turn must report the send that reached the daemon: {effects:?}"
    );
}

/// Every `TurnFinished` in an effect list, sorted by conversation, as
/// (conversation, request id, key, outcome).
fn turns_finished(effects: &[Effect]) -> Vec<(&str, &str, Option<&str>, &TurnOutcome)> {
    let mut found: Vec<_> = effects
        .iter()
        .filter_map(|e| match e {
            Effect::TurnFinished {
                conversation_id,
                request_id,
                idempotency_key,
                outcome,
            } => Some((
                conversation_id.as_str(),
                request_id.as_str(),
                idempotency_key.as_deref(),
                outcome,
            )),
            _ => None,
        })
        .collect();
    found.sort_by_key(|(id, ..)| *id);
    found
}

/// A disconnect ends every turn in flight, in view and backgrounded alike.
#[test]
fn a_disconnect_reports_every_turn_it_ends() {
    let mut state = two_streams_state();
    let effects = state.apply(UiMessage::Disconnected {
        reason: "socket closed".to_string(),
    });
    let lost = TurnOutcome::Failed("Disconnected: socket closed".to_string());
    assert_eq!(
        turns_finished(&effects),
        vec![("c1", "req-c1", None, &lost), ("c2", "req-c2", None, &lost),],
        "a disconnect must report both the backgrounded turn and the one in view: {effects:?}"
    );
}

/// A turn torn down inside the `__pending__` window has no daemon id yet.
/// It still reports, keyed by the send, so the host closes the right span.
#[test]
fn a_disconnect_reports_a_turn_whose_daemon_id_never_arrived() {
    let mut state = WindowState::default().with_open(detail("c1", vec![]));
    state.apply(UiMessage::SubmitPrompt {
        prompt: "hello".to_string(),
        idempotency_key: Some("submit-key".to_string()),
    });
    state.apply(UiMessage::PromptSent {
        task_id: "task-1".to_string(),
        conversation_id: "c1".to_string(),
        idempotency_key: Some("submit-key".to_string()),
    });
    assert!(
        state.stream_unclaimed(),
        "precondition: the daemon id has not arrived yet"
    );
    let effects = state.apply(UiMessage::Disconnected {
        reason: "socket closed".to_string(),
    });
    let lost = TurnOutcome::Failed("Disconnected: socket closed".to_string());
    assert_eq!(
        turns_finished(&effects),
        vec![("c1", "", Some("submit-key"), &lost)],
        "an unclaimed turn reports an empty request id and its send key: {effects:?}"
    );
}

#[test]
fn resetting_streaming_state_reports_every_turn_it_ends() {
    let mut state = two_streams_state();
    let effects = state.reset_streaming_state();
    let lost = TurnOutcome::Failed("Streaming state reset".to_string());
    assert_eq!(
        turns_finished(&effects),
        vec![("c1", "req-c1", None, &lost), ("c2", "req-c2", None, &lost),],
        "a reset must report every turn it drops: {effects:?}"
    );
    assert!(!state.is_streaming(), "and it still drops them");
}

/// The ack that replaces a turn reports the turn it replaced.
#[test]
fn an_ack_that_replaces_a_turn_reports_the_one_it_replaced() {
    let mut state = WindowState::default().with_open(detail("c1", vec![]));
    state.apply(UiMessage::PromptSent {
        task_id: "task-a".to_string(),
        conversation_id: "c1".to_string(),
        idempotency_key: Some("key-a".to_string()),
    });
    state.apply(UiMessage::StreamChunk {
        request_id: "req-a".to_string(),
        chunk: "partial".to_string(),
    });
    let effects = state.apply(UiMessage::PromptSent {
        task_id: "task-b".to_string(),
        conversation_id: "c1".to_string(),
        idempotency_key: Some("key-b".to_string()),
    });
    assert_eq!(
        turn_finished(&effects),
        Some((
            "c1",
            "req-a",
            Some("key-a"),
            &TurnOutcome::Failed("Replaced by a later send".to_string())
        )),
        "the replaced turn must be reported, under its OWN key: {effects:?}"
    );
}

/// Two sends that overlap close two spans, each under the key of the send
/// that opened it. Neither host span is left open, and neither closes under
/// the other's key.
#[test]
fn two_overlapping_sends_report_their_own_keys() {
    let mut state = WindowState::default().with_open(detail("c1", vec![]));
    // Both sends leave before either is acked: the reducer's send gate keys
    // off the stream, and no stream exists until an ack arrives.
    state.apply(UiMessage::SubmitPrompt {
        prompt: "first".to_string(),
        idempotency_key: Some("key-a".to_string()),
    });
    state.apply(UiMessage::SubmitPrompt {
        prompt: "second".to_string(),
        idempotency_key: Some("key-b".to_string()),
    });
    let first_ack = state.apply(UiMessage::PromptSent {
        task_id: "task-a".to_string(),
        conversation_id: "c1".to_string(),
        idempotency_key: Some("key-a".to_string()),
    });
    assert_eq!(
        turn_finished(&first_ack),
        None,
        "the first ack replaces nothing: {first_ack:?}"
    );
    let second_ack = state.apply(UiMessage::PromptSent {
        task_id: "task-b".to_string(),
        conversation_id: "c1".to_string(),
        idempotency_key: Some("key-b".to_string()),
    });
    assert_eq!(
        turn_finished(&second_ack).map(|(_, _, key, _)| key),
        Some(Some("key-a")),
        "the replaced turn closes under key-a, not key-b: {second_ack:?}"
    );
    let done = state.apply(UiMessage::StreamComplete {
        request_id: "req-b".to_string(),
        full_response: "the answer".to_string(),
    });
    assert_eq!(
        turn_finished(&done),
        Some(("c1", "req-b", Some("key-b"), &TurnOutcome::Completed)),
        "the surviving turn closes under key-b: {done:?}"
    );
}

/// The ack carries the key, so the reducer never guesses which send it
/// belongs to. An ack whose send this client did not key reports no key
/// rather than borrowing one from another send in flight.
#[test]
fn an_ack_without_a_key_does_not_borrow_one() {
    let mut state = WindowState::default().with_open(detail("c1", vec![]));
    state.apply(UiMessage::SubmitPrompt {
        prompt: "keyed".to_string(),
        idempotency_key: Some("key-a".to_string()),
    });
    state.apply(UiMessage::PromptSent {
        task_id: "task-x".to_string(),
        conversation_id: "c1".to_string(),
        idempotency_key: None,
    });
    let done = state.apply(UiMessage::StreamComplete {
        request_id: "req-x".to_string(),
        full_response: "the answer".to_string(),
    });
    assert_eq!(
        turn_finished(&done),
        Some(("c1", "req-x", None, &TurnOutcome::Completed)),
        "a keyless ack must not pick up another send's key: {done:?}"
    );
}

/// Teardown with nothing in flight reports nothing.
#[test]
fn a_disconnect_with_no_turn_in_flight_reports_none() {
    let mut state = WindowState::default().with_open(detail("c1", vec![]));
    let effects = state.apply(UiMessage::Disconnected {
        reason: "socket closed".to_string(),
    });
    assert_eq!(
        turns_finished(&effects),
        vec![],
        "no turn was in flight, so none finished: {effects:?}"
    );
}
