//! The embeddings panel.
//!
//! The panel takes the daemon's values and the context they were read in, holds
//! the person's edits, and produces what a view draws and what a client sends.
//!
//! # What a write carries
//!
//! A write replaces all three of connector, model and base URL, and a `None`
//! clears one. What the daemon reports is resolved: a value that is not
//! configured reads as a default, and only of the connector does the daemon say
//! which it was. Therefore:
//!
//! - an edited field is written as typed, trimmed, and a blank clears it;
//! - an unchanged connector that is inherited is written as a clear, so that it
//!   goes on following the main one;
//! - any other unchanged field is written back as it stands, because clearing it
//!   on a guess could drop a configured value.

use vstd::prelude::*;

use crate::api::{
    Command, Config, EmbeddingHealth, EmbeddingsSettingsView, HealthV, LoadedV,
};
use crate::settings;
use crate::settings::{
    ApplyState, ApplyV, ContextV, DaemonContext, Editability, EditabilityV, FieldError,
    FieldErrorV, FieldId, FieldV, FieldValue, FieldView, InstanceId, KindV, PanelId, PanelViewV,
    ReadOnlyReason, ReasonV, RestartState, SettingsError, SettingsErrorV, SettingsPanelView,
    StatusLevel, ValidationKind, ValueV, normalize_optional, validate_base_url,
};
use crate::text;

verus! {

/// The connector whose base URL may be a region rather than a URL.
pub const REGION_STYLE_CONNECTOR: &'static str = "bedrock";

/// The three values that a write carries. `None` clears one.
#[derive(Clone, Debug, PartialEq, Eq)]
pub struct EmbeddingsWrite {
    /// The provider, in lower case.
    pub connector: Option<String>,
    /// The embedding model.
    pub model: Option<String>,
    /// The endpoint.
    pub base_url: Option<String>,
}

/// The value of an [`EmbeddingsWrite`].
#[verifier::ext_equal]
pub struct WriteV {
    pub connector: Option<Seq<char>>,
    pub model: Option<Seq<char>>,
    pub base_url: Option<Seq<char>>,
}

impl View for EmbeddingsWrite {
    type V = WriteV;

    open spec fn view(&self) -> WriteV {
        WriteV {
            connector: text::opt_view(self.connector),
            model: text::opt_view(self.model),
            base_url: text::opt_view(self.base_url),
        }
    }
}

/// The values that a command writes.
pub open spec fn written(c: Command) -> WriteV {
    match c {
        Command::SetEmbeddingsSettings { connector, model, base_url } => WriteV {
            connector: text::opt_view(connector),
            model: text::opt_view(model),
            base_url: text::opt_view(base_url),
        },
    }
}

/// The embeddings panel: the daemon's values, the unapplied edits, and the last
/// failure.
#[derive(Clone, Debug, PartialEq, Eq)]
pub struct EmbeddingsPanel {
    context: DaemonContext,
    loaded: EmbeddingsSettingsView,
    connector_draft: Option<String>,
    model_draft: Option<String>,
    base_url_draft: Option<String>,
    error: Option<SettingsError>,
}

/// The value of an [`EmbeddingsPanel`].
#[verifier::ext_equal]
pub struct PanelV {
    pub context: ContextV,
    pub loaded: LoadedV,
    pub connector_draft: Option<Seq<char>>,
    pub model_draft: Option<Seq<char>>,
    pub base_url_draft: Option<Seq<char>>,
    pub error: Option<SettingsErrorV>,
}

/// Whether a field is a setting.
pub open spec fn is_setting(field: FieldId) -> bool {
    field == FieldId::Connector || field == FieldId::Model || field == FieldId::BaseUrl
}

/// A field's value as the daemon stores it: trimmed, `None` when blank, and a
/// connector in lower case.
pub open spec fn stored_form(field: FieldId, value: Seq<char>) -> Option<Seq<char>> {
    match settings::normalized(value) {
        Some(t) => if field == FieldId::Connector {
            Some(text::unicode_lower(t))
        } else {
            Some(t)
        },
        None => None,
    }
}

/// A connector in ASCII as the daemon stores it: trimmed, `None` when blank, and
/// with its capital letters made small.
pub open spec fn ascii_stored_form(value: Seq<char>) -> Option<Seq<char>> {
    match settings::normalized(value) {
        Some(t) => Some(text::ascii_lower(t)),
        None => None,
    }
}

/// A panel's connector in the form in which it is stored: what it would be if the
/// panel were applied, and what it is.
#[verifier::ext_equal]
pub struct ConnectorV {
    pub now: Option<Seq<char>>,
    pub loaded: Option<Seq<char>>,
}

/// What is wrong with a connector and a base URL that are to be written: a
/// connector of several words, and a base URL that is none, unless the
/// connector takes a region there.
pub open spec fn faults(connector: Option<Seq<char>>, base_url: Option<Seq<char>>) -> Seq<
    FieldErrorV,
> {
    (if connector is Some && text::words(connector->0).len() > 1 {
        seq![
            FieldErrorV {
                field: FieldId::Connector,
                kind: KindV::UnexpectedWhitespace,
                message: "A connector name has no spaces in it."@,
            },
        ]
    } else {
        Seq::empty()
    }) + (if base_url is Some && connector != Some(REGION_STYLE_CONNECTOR@)
        && !settings::is_base_url(base_url->0) {
        seq![
            FieldErrorV {
                field: FieldId::BaseUrl,
                kind: KindV::MalformedUrl,
                message: "Enter a full http:// or https:// address."@,
            },
        ]
    } else {
        Seq::empty()
    })
}

/// The first error of a field.
pub open spec fn first_error(errors: Seq<FieldErrorV>, field: FieldId) -> Option<FieldErrorV>
    decreases errors.len(),
{
    if errors.len() == 0 {
        None
    } else if errors[0].field == field {
        Some(errors[0])
    } else {
        first_error(errors.skip(1), field)
    }
}

/// The health of the backend, as a view draws it.
pub open spec fn drawn_health(health: HealthV) -> ValueV {
    match health {
        HealthV::Healthy => ValueV::Status {
            level: StatusLevel::Working,
            text: "ok"@,
            detail: None,
        },
        HealthV::Disabled => ValueV::Status {
            level: StatusLevel::Info,
            text: "disabled"@,
            detail: None,
        },
        HealthV::Unavailable { reason } => ValueV::Status {
            level: StatusLevel::Warning,
            text: "unavailable"@,
            detail: Some(reason),
        },
        HealthV::Unknown => ValueV::Status {
            level: StatusLevel::Unknown,
            text: "unknown"@,
            detail: None,
        },
    }
}

/// The label of a field.
pub open spec fn label_of(field: FieldId) -> Seq<char> {
    match field {
        FieldId::Connector => "Connector"@,
        FieldId::Model => "Model"@,
        FieldId::BaseUrl => "Base URL"@,
        FieldId::ApiKeyPresent => "API key"@,
        FieldId::Available => "Available"@,
        FieldId::IsDefault => "Inherited"@,
        FieldId::Health => "Health"@,
    }
}

/// The help line of a field.
pub open spec fn help_of(field: FieldId) -> Seq<char> {
    match field {
        FieldId::Connector =>
            "Which provider produces the embeddings. Leave it empty to follow the main model connector."@,
        FieldId::Model =>
            "The embedding model. Leave it empty to use the connector's default."@,
        FieldId::BaseUrl =>
            "Where the connector is reached. Leave it empty to use the connector's default. For Bedrock this is an AWS region."@,
        FieldId::ApiKeyPresent =>
            "Whether a credential is stored for this connector. The value is never shown."@,
        FieldId::Available => "Whether this connector can produce embeddings at all."@,
        FieldId::IsDefault =>
            "Whether the connector follows the main model connector rather than being set here."@,
        FieldId::Health =>
            "What the daemon sees right now. Without a working backend, search falls back to full text."@,
    }
}

impl PanelV {
    /// A panel without edits.
    pub open spec fn clean(context: ContextV, loaded: LoadedV) -> PanelV {
        PanelV {
            context,
            loaded,
            connector_draft: None,
            model_draft: None,
            base_url_draft: None,
            error: None,
        }
    }

    /// What the restart report says about the panel.
    pub open spec fn restart(self) -> RestartState {
        RestartState::of_report(PanelId::Embeddings, self.context.restart_required)
    }

    /// Whether the connection may change the panel.
    pub open spec fn editability(self) -> EditabilityV {
        EditabilityV::of_panel(
            PanelId::Embeddings,
            self.context.caller_capability,
            self.restart(),
        )
    }

    /// The unapplied edit of a field.
    pub open spec fn draft(self, field: FieldId) -> Option<Seq<char>> {
        match field {
            FieldId::Connector => self.connector_draft,
            FieldId::Model => self.model_draft,
            FieldId::BaseUrl => self.base_url_draft,
            _ => None,
        }
    }

    /// The daemon's value of a field.
    pub open spec fn stored(self, field: FieldId) -> Seq<char> {
        match field {
            FieldId::Connector => self.loaded.connector,
            FieldId::Model => self.loaded.model,
            FieldId::BaseUrl => self.loaded.base_url,
            _ => Seq::empty(),
        }
    }

    /// What a field would be if the panel were applied.
    pub open spec fn effective(self, field: FieldId) -> Seq<char> {
        match self.draft(field) {
            Some(d) => d,
            None => self.stored(field),
        }
    }

    /// What a field would be stored as if the panel were applied.
    pub open spec fn outcome(self, field: FieldId) -> Option<Seq<char>> {
        stored_form(field, self.effective(field))
    }

    /// The connector in the form in which it is stored.
    pub open spec fn connector(self) -> ConnectorV {
        ConnectorV {
            now: self.outcome(FieldId::Connector),
            loaded: stored_form(FieldId::Connector, self.stored(FieldId::Connector)),
        }
    }

    /// Whether the connector is in ASCII, as it stands and as it was loaded.
    pub open spec fn has_ascii_connector(self) -> bool {
        &&& text::is_ascii(text::trim(self.effective(FieldId::Connector)))
        &&& text::is_ascii(text::trim(self.stored(FieldId::Connector)))
    }

    /// A connector in ASCII in the form in which it is stored.
    pub open spec fn ascii_connector(self) -> ConnectorV {
        ConnectorV {
            now: ascii_stored_form(self.effective(FieldId::Connector)),
            loaded: ascii_stored_form(self.stored(FieldId::Connector)),
        }
    }

    /// Whether a field carries an edit that would change what is stored, given the
    /// connector's stored form.
    pub open spec fn is_field_dirty_by(self, c: ConnectorV, field: FieldId) -> bool {
        self.draft(field) is Some && if field == FieldId::Connector {
            c.now != c.loaded
        } else {
            self.outcome(field) != stored_form(field, self.stored(field))
        }
    }

    /// Whether any field carries such an edit, given the connector's stored form.
    pub open spec fn is_dirty_by(self, c: ConnectorV) -> bool {
        self.is_field_dirty_by(c, FieldId::Connector) || self.is_field_dirty_by(c, FieldId::Model)
            || self.is_field_dirty_by(c, FieldId::BaseUrl)
    }

    /// Everything wrong with the values, given the connector's stored form.
    pub open spec fn errors_by(self, c: ConnectorV) -> Seq<FieldErrorV> {
        faults(c.now, self.outcome(FieldId::BaseUrl))
    }

    /// Whether there is anything to apply, given the connector's stored form. A
    /// refusal outranks a bad value, and a bad value outranks the lack of changes.
    pub open spec fn apply_state_by(self, c: ConnectorV) -> ApplyV {
        match self.editability() {
            EditabilityV::ReadOnly(reason) => ApplyV::NotPermitted(reason),
            EditabilityV::Editable => if self.errors_by(c).len() > 0 {
                ApplyV::Invalid(self.errors_by(c))
            } else if self.is_dirty_by(c) {
                ApplyV::Ready
            } else {
                ApplyV::NoChanges
            },
        }
    }

    /// The values that a write would carry, given the connector's stored form.
    pub open spec fn pending_write_by(self, c: ConnectorV) -> WriteV {
        WriteV {
            connector: if !self.is_field_dirty_by(c, FieldId::Connector) && self.loaded.is_default {
                None
            } else {
                c.now
            },
            model: self.outcome(FieldId::Model),
            base_url: self.outcome(FieldId::BaseUrl),
        }
    }

    /// Whether a field carries an edit that would change what is stored.
    pub open spec fn is_field_dirty(self, field: FieldId) -> bool {
        self.is_field_dirty_by(self.connector(), field)
    }

    /// Whether any field carries such an edit.
    pub open spec fn is_dirty(self) -> bool {
        self.is_dirty_by(self.connector())
    }

    /// Everything wrong with the values as they stand.
    pub open spec fn errors(self) -> Seq<FieldErrorV> {
        self.errors_by(self.connector())
    }

    /// Whether there is anything to apply.
    pub open spec fn apply_state(self) -> ApplyV {
        self.apply_state_by(self.connector())
    }

    /// The values that a write would carry.
    pub open spec fn pending_write(self) -> WriteV {
        self.pending_write_by(self.connector())
    }

    /// The failure that stands for a refusal to write.
    pub open spec fn refusal(reason: ReasonV) -> SettingsErrorV {
        match reason {
            ReasonV::CapabilityRequired { required, held } => SettingsErrorV::NotAuthorized {
                required,
                held,
                message: reason.message(),
            },
            _ => SettingsErrorV::DaemonNotWritable { message: reason.message() },
        }
    }

    /// The write that applies the panel, or the reason why it cannot be applied,
    /// given the connector's stored form.
    pub open spec fn write_command_by(self, c: ConnectorV) -> Result<WriteV, SettingsErrorV> {
        match self.apply_state_by(c) {
            ApplyV::Invalid(errors) => Err(SettingsErrorV::Validation { errors }),
            ApplyV::NotPermitted(reason) => Err(Self::refusal(reason)),
            _ => Ok(self.pending_write_by(c)),
        }
    }

    /// The write that applies the panel, or the reason why it cannot be applied.
    pub open spec fn write_command(self) -> Result<WriteV, SettingsErrorV> {
        self.write_command_by(self.connector())
    }

    /// A field that is a setting, as a view draws it, given the connector's stored
    /// form.
    pub open spec fn setting_field_by(self, c: ConnectorV, field: FieldId) -> FieldV {
        FieldV {
            id: field,
            label: label_of(field),
            help: Some(help_of(field)),
            value: ValueV::Text(self.effective(field)),
            editability: self.editability(),
            error: first_error(self.errors_by(c), field),
            dirty: self.is_field_dirty_by(c, field),
        }
    }

    /// A field that the daemon reports, as a view draws it.
    pub open spec fn reported_field(field: FieldId, value: ValueV) -> FieldV {
        FieldV {
            id: field,
            label: label_of(field),
            help: Some(help_of(field)),
            value,
            editability: EditabilityV::ReadOnly(ReasonV::Derived),
            error: None,
            dirty: false,
        }
    }

    /// The panel as a view draws it, given the connector's stored form.
    pub open spec fn drawn_by(self, c: ConnectorV) -> PanelViewV {
        PanelViewV {
            instance: self.context.instance,
            panel: PanelId::Embeddings,
            title: PanelId::Embeddings.heading(),
            fields: seq![
                self.setting_field_by(c, FieldId::Connector),
                self.setting_field_by(c, FieldId::Model),
                self.setting_field_by(c, FieldId::BaseUrl),
                Self::reported_field(
                    FieldId::ApiKeyPresent,
                    ValueV::SecretPresence(self.loaded.has_api_key),
                ),
                Self::reported_field(FieldId::Available, ValueV::Flag(self.loaded.available)),
                Self::reported_field(FieldId::IsDefault, ValueV::Flag(self.loaded.is_default)),
                Self::reported_field(FieldId::Health, drawn_health(self.loaded.health)),
            ],
            restart: self.restart(),
            apply: self.apply_state_by(c),
            dirty: self.is_dirty_by(c),
            error: self.error,
        }
    }

    /// The panel as a view draws it.
    pub open spec fn drawn(self) -> PanelViewV {
        self.drawn_by(self.connector())
    }

    /// The panel with a field edited, or the reason why it cannot be. An edit
    /// drops the last failure, which was about other values.
    pub open spec fn edited(self, field: FieldId, value: Seq<char>) -> Result<PanelV, ReasonV> {
        if !is_setting(field) {
            Err(ReasonV::Derived)
        } else {
            match self.editability() {
                EditabilityV::ReadOnly(reason) => Err(reason),
                EditabilityV::Editable => {
                    let panel = PanelV { error: None, ..self };
                    Ok(
                        match field {
                            FieldId::Connector => PanelV {
                                connector_draft: Some(value),
                                ..panel
                            },
                            FieldId::Model => PanelV { model_draft: Some(value), ..panel },
                            _ => PanelV { base_url_draft: Some(value), ..panel },
                        },
                    )
                },
            }
        }
    }

    /// The panel without its edits.
    pub open spec fn reverted(self) -> PanelV {
        PanelV { error: self.error, ..PanelV::clean(self.context, self.loaded) }
    }
}

/// A field's value as the daemon stores it (see [`stored_form`]).
fn to_stored_form(field: FieldId, value: &str) -> (r: Option<String>)
    ensures
        text::opt_view(r) == stored_form(field, value@),
        field == FieldId::Connector && text::is_ascii(text::trim(value@)) ==> text::opt_view(r)
            == ascii_stored_form(value@),
{
    match normalize_optional(value) {
        Some(t) => if field == FieldId::Connector {
            Some(text::to_lowercase(t.as_str()))
        } else {
            Some(t)
        },
        None => None,
    }
}

/// What is wrong with a connector and a base URL that are to be written, both in
/// the form in which the daemon would store them (see [`faults`]).
pub fn find_faults(connector: &Option<String>, base_url: &Option<String>) -> (r: Vec<FieldError>)
    ensures
        settings::field_errors(r@) == faults(text::opt_view(*connector), text::opt_view(*base_url)),
{
    let mut errors: Vec<FieldError> = Vec::new();
    let ghost mut found: Seq<FieldErrorV> = Seq::empty();
    assert(settings::field_errors(errors@) =~= found);
    if let Some(connector) = connector {
        if text::word_count(connector.as_str()) > 1 {
            let error = FieldError {
                field: FieldId::Connector,
                kind: ValidationKind::UnexpectedWhitespace,
                message: "A connector name has no spaces in it.".to_owned(),
            };
            proof {
                found = found.push(error@);
            }
            errors.push(error);
            assert(settings::field_errors(errors@) =~= found);
        }
    }
    let region_style = text::is_some_text(connector, REGION_STYLE_CONNECTOR);
    if let Some(base_url) = base_url {
        if !region_style && validate_base_url(base_url.as_str()).is_err() {
            let error = FieldError {
                field: FieldId::BaseUrl,
                kind: ValidationKind::MalformedUrl,
                message: "Enter a full http:// or https:// address.".to_owned(),
            };
            proof {
                found = found.push(error@);
            }
            errors.push(error);
            assert(settings::field_errors(errors@) =~= found);
        }
    }
    assert(found =~= faults(text::opt_view(*connector), text::opt_view(*base_url)));
    errors
}

/// The first error of a field (see [`first_error`]).
fn error_for(errors: &Vec<FieldError>, field: FieldId) -> (r: Option<FieldError>)
    ensures
        settings::opt_field_error(r) == first_error(settings::field_errors(errors@), field),
{
    let ghost all = settings::field_errors(errors@);
    let mut i: usize = 0;
    assert(all.skip(0) =~= all);
    while i < errors.len()
        invariant
            i <= errors@.len(),
            all == settings::field_errors(errors@),
            first_error(all, field) == first_error(all.skip(i as int), field),
        decreases errors@.len() - i,
    {
        proof {
            assert(all.skip(i as int)[0] == errors@[i as int]@);
            assert(all.skip(i as int).skip(1) =~= all.skip(i + 1));
        }
        if errors[i].field == field {
            return Some(errors[i].clone());
        }
        i += 1;
    }
    None
}

impl EmbeddingsPanel {
    /// The panel's value.
    pub closed spec fn model(&self) -> PanelV {
        PanelV {
            context: self.context@,
            loaded: self.loaded@,
            connector_draft: text::opt_view(self.connector_draft),
            model_draft: text::opt_view(self.model_draft),
            base_url_draft: text::opt_view(self.base_url_draft),
            error: settings::opt_settings_error(self.error),
        }
    }

    /// A panel over the daemon's values and the context they were read in.
    pub fn new(context: DaemonContext, loaded: EmbeddingsSettingsView) -> (r: EmbeddingsPanel)
        ensures
            r.model() == PanelV::clean(context@, loaded@),
    {
        EmbeddingsPanel {
            context,
            loaded,
            connector_draft: None,
            model_draft: None,
            base_url_draft: None,
            error: None,
        }
    }

    /// A panel over the daemon's configuration.
    pub fn from_config(instance: InstanceId, config: &Config) -> (r: EmbeddingsPanel)
        ensures
            r.model() == PanelV::clean(
                (ContextV {
                    instance: instance@,
                    caller_capability: crate::api::opt_capability(config.caller_capability),
                    restart_required: text::views(config.restart_required@),
                }),
                config.embeddings@,
            ),
    {
        EmbeddingsPanel::new(
            DaemonContext::from_config(instance, config),
            config.embeddings.clone(),
        )
    }

    /// Which daemon the panel is bound to.
    pub fn instance(&self) -> (r: &InstanceId)
        ensures
            r@ == self.model().context.instance,
    {
        &self.context.instance
    }

    /// What the restart report says about the panel.
    pub fn restart(&self) -> (r: RestartState)
        ensures
            r == self.model().restart(),
    {
        RestartState::for_panel(PanelId::Embeddings, self.context.restart_required.as_slice())
    }

    /// Record an edit. Refused for a field that is not a setting, and for every
    /// field when the connection may not change the panel.
    pub fn edit(&mut self, field: FieldId, value: &str) -> (r: Result<(), ReadOnlyReason>)
        ensures
            match old(self).model().edited(field, value@) {
                Ok(panel) => r is Ok && final(self).model() == panel,
                Err(reason) => r is Err && r->Err_0@ == reason && final(self).model() == old(
                    self,
                ).model(),
            },
    {
        let is_setting = match field {
            FieldId::Connector | FieldId::Model | FieldId::BaseUrl => true,
            _ => false,
        };
        if !is_setting {
            return Err(ReadOnlyReason::Derived);
        }
        if let Editability::ReadOnly(reason) = self.panel_editability() {
            return Err(reason);
        }
        match field {
            FieldId::Connector => {
                self.connector_draft = Some(value.to_owned());
            },
            FieldId::Model => {
                self.model_draft = Some(value.to_owned());
            },
            _ => {
                self.base_url_draft = Some(value.to_owned());
            },
        }
        self.error = None;
        Ok(())
    }

    /// Discard every edit.
    pub fn revert(&mut self)
        ensures
            final(self).model() == old(self).model().reverted(),
    {
        self.connector_draft = None;
        self.model_draft = None;
        self.base_url_draft = None;
    }

    /// Take the daemon's values again. Discards the edits and the last failure.
    pub fn read_back(&mut self, loaded: EmbeddingsSettingsView)
        ensures
            final(self).model() == PanelV::clean(old(self).model().context, loaded@),
    {
        self.loaded = loaded;
        self.revert();
        self.error = None;
    }

    /// Record the failure of the last write.
    pub fn set_error(&mut self, error: SettingsError)
        ensures
            final(self).model() == (PanelV { error: Some(error@), ..old(self).model() }),
    {
        self.error = Some(error);
    }

    /// Whether any field carries an edit that would change what is stored.
    pub fn is_dirty(&self) -> (r: bool)
        ensures
            r == self.model().is_dirty(),
            self.model().has_ascii_connector() ==> r == self.model().is_dirty_by(
                self.model().ascii_connector(),
            ),
    {
        self.is_field_dirty(FieldId::Connector) || self.is_field_dirty(FieldId::Model)
            || self.is_field_dirty(FieldId::BaseUrl)
    }

    /// Whether a field carries an edit that would change what is stored. Retyping
    /// the stored value with a stray space, or a connector in another case, does
    /// not.
    pub fn is_field_dirty(&self, field: FieldId) -> (r: bool)
        ensures
            r == self.model().is_field_dirty(field),
            self.model().has_ascii_connector() ==> r == self.model().is_field_dirty_by(
                self.model().ascii_connector(),
                field,
            ),
    {
        match self.draft(field) {
            Some(draft) => !text::same_opt(
                &to_stored_form(field, draft),
                &to_stored_form(field, self.stored(field)),
            ),
            None => false,
        }
    }

    fn draft(&self, field: FieldId) -> (r: Option<&str>)
        ensures
            match r {
                Some(d) => self.model().draft(field) == Some(d@),
                None => self.model().draft(field) is None,
            },
    {
        let draft = match field {
            FieldId::Connector => &self.connector_draft,
            FieldId::Model => &self.model_draft,
            FieldId::BaseUrl => &self.base_url_draft,
            _ => {
                return None;
            },
        };
        match draft {
            Some(d) => Some(d.as_str()),
            None => None,
        }
    }

    fn stored(&self, field: FieldId) -> (r: &str)
        ensures
            r@ == self.model().stored(field),
    {
        match field {
            FieldId::Connector => self.loaded.connector.as_str(),
            FieldId::Model => self.loaded.model.as_str(),
            FieldId::BaseUrl => self.loaded.base_url.as_str(),
            _ => {
                proof {
                    reveal_strlit("");
                    assert(""@ =~= Seq::<char>::empty());
                }
                ""
            },
        }
    }

    fn effective(&self, field: FieldId) -> (r: &str)
        ensures
            r@ == self.model().effective(field),
    {
        match self.draft(field) {
            Some(draft) => draft,
            None => self.stored(field),
        }
    }

    fn outcome(&self, field: FieldId) -> (r: Option<String>)
        ensures
            text::opt_view(r) == self.model().outcome(field),
            field == FieldId::Connector && self.model().has_ascii_connector() ==> text::opt_view(r)
                == self.model().ascii_connector().now,
    {
        to_stored_form(field, self.effective(field))
    }

    fn panel_editability(&self) -> (r: Editability)
        ensures
            r@ == self.model().editability(),
    {
        Editability::for_panel(
            PanelId::Embeddings,
            self.context.caller_capability.as_ref(),
            self.restart(),
        )
    }

    fn errors(&self) -> (r: Vec<FieldError>)
        ensures
            settings::field_errors(r@) == self.model().errors(),
            self.model().has_ascii_connector() ==> settings::field_errors(r@)
                == self.model().errors_by(self.model().ascii_connector()),
    {
        find_faults(&self.outcome(FieldId::Connector), &self.outcome(FieldId::BaseUrl))
    }

    /// Whether there is anything to apply, and why not (see
    /// [`PanelV::apply_state_by`]).
    pub fn apply_state(&self) -> (r: ApplyState)
        ensures
            r@ == self.model().apply_state(),
            self.model().has_ascii_connector() ==> r@ == self.model().apply_state_by(
                self.model().ascii_connector(),
            ),
    {
        if let Editability::ReadOnly(reason) = self.panel_editability() {
            return ApplyState::NotPermitted(reason);
        }
        let errors = self.errors();
        if errors.len() > 0 {
            return ApplyState::Invalid(errors);
        }
        if self.is_dirty() {
            ApplyState::Ready
        } else {
            ApplyState::NoChanges
        }
    }

    /// The three values that a write would carry. A connector in ASCII is written
    /// with its capital letters made small.
    pub fn pending_write(&self) -> (r: EmbeddingsWrite)
        ensures
            r@ == self.model().pending_write(),
            self.model().has_ascii_connector() ==> r@ == self.model().pending_write_by(
                self.model().ascii_connector(),
            ),
    {
        EmbeddingsWrite {
            connector: if !self.is_field_dirty(FieldId::Connector) && self.loaded.is_default {
                None
            } else {
                self.outcome(FieldId::Connector)
            },
            model: self.outcome(FieldId::Model),
            base_url: self.outcome(FieldId::BaseUrl),
        }
    }

    /// The command that applies the panel, or the reason why it cannot be
    /// applied. A panel without changes still yields a command: the write is
    /// idempotent.
    pub fn write_command(&self) -> (r: Result<Command, SettingsError>)
        ensures
            match self.model().write_command() {
                Ok(write) => r is Ok && written(r->Ok_0) == write,
                Err(error) => r is Err && r->Err_0@ == error,
            },
            self.model().has_ascii_connector() ==> match self.model().write_command_by(
                self.model().ascii_connector(),
            ) {
                Ok(write) => r is Ok && written(r->Ok_0) == write,
                Err(error) => r is Err && r->Err_0@ == error,
            },
    {
        match self.apply_state() {
            ApplyState::Ready | ApplyState::NoChanges => {
                let write = self.pending_write();
                Ok(
                    Command::SetEmbeddingsSettings {
                        connector: write.connector,
                        model: write.model,
                        base_url: write.base_url,
                    },
                )
            },
            ApplyState::Invalid(errors) => Err(SettingsError::Validation { errors }),
            ApplyState::NotPermitted(reason) => {
                let message = reason.message();
                match reason {
                    ReadOnlyReason::CapabilityRequired { required, held } => Err(
                        SettingsError::NotAuthorized { required, held, message },
                    ),
                    _ => Err(SettingsError::DaemonNotWritable { message }),
                }
            },
        }
    }

    fn setting_field(&self, field: FieldId, errors: &Vec<FieldError>) -> (r: FieldView)
        requires
            settings::field_errors(errors@) == self.model().errors(),
            self.model().has_ascii_connector() ==> settings::field_errors(errors@)
                == self.model().errors_by(self.model().ascii_connector()),
        ensures
            r@ == self.model().setting_field_by(self.model().connector(), field),
            self.model().has_ascii_connector() ==> r@ == self.model().setting_field_by(
                self.model().ascii_connector(),
                field,
            ),
    {
        let (label, help) = labels(field);
        FieldView {
            id: field,
            label,
            help,
            value: FieldValue::Text(self.effective(field).to_owned()),
            editability: self.panel_editability(),
            error: error_for(errors, field),
            dirty: self.is_field_dirty(field),
        }
    }

    /// The panel as one value that a view renders.
    pub fn view(&self) -> (r: SettingsPanelView)
        ensures
            r@ == self.model().drawn(),
            self.model().has_ascii_connector() ==> r@ == self.model().drawn_by(
                self.model().ascii_connector(),
            ),
    {
        let errors = self.errors();
        let fields = vec![
            self.setting_field(FieldId::Connector, &errors),
            self.setting_field(FieldId::Model, &errors),
            self.setting_field(FieldId::BaseUrl, &errors),
            reported_field(
                FieldId::ApiKeyPresent,
                FieldValue::SecretPresence(self.loaded.has_api_key),
            ),
            reported_field(FieldId::Available, FieldValue::Flag(self.loaded.available)),
            reported_field(FieldId::IsDefault, FieldValue::Flag(self.loaded.is_default)),
            reported_field(FieldId::Health, health_value(&self.loaded.health)),
        ];
        assert(settings::fields(fields@) =~= self.model().drawn().fields);
        assert(self.model().has_ascii_connector() ==> settings::fields(fields@)
            =~= self.model().drawn_by(self.model().ascii_connector()).fields);
        SettingsPanelView {
            instance: self.context.instance.clone(),
            panel: PanelId::Embeddings,
            title: PanelId::Embeddings.title(),
            fields,
            restart: self.restart(),
            apply: self.apply_state(),
            dirty: self.is_dirty(),
            error: self.error.clone(),
        }
    }
}

fn reported_field(field: FieldId, value: FieldValue) -> (r: FieldView)
    ensures
        r@ == PanelV::reported_field(field, value@),
{
    let (label, help) = labels(field);
    FieldView {
        id: field,
        label,
        help,
        value,
        editability: Editability::ReadOnly(ReadOnlyReason::Derived),
        error: None,
        dirty: false,
    }
}

/// The health of the backend, as a view draws it. Unknown health is not drawn as
/// switched off.
pub fn health_value(health: &EmbeddingHealth) -> (r: FieldValue)
    ensures
        r@ == drawn_health(health@),
{
    match health {
        EmbeddingHealth::Healthy => FieldValue::Status {
            level: StatusLevel::Working,
            text: "ok".to_owned(),
            detail: None,
        },
        EmbeddingHealth::Disabled => FieldValue::Status {
            level: StatusLevel::Info,
            text: "disabled".to_owned(),
            detail: None,
        },
        EmbeddingHealth::Unavailable { reason } => FieldValue::Status {
            level: StatusLevel::Warning,
            text: "unavailable".to_owned(),
            detail: Some(reason.clone()),
        },
        EmbeddingHealth::Unknown => FieldValue::Status {
            level: StatusLevel::Unknown,
            text: "unknown".to_owned(),
            detail: None,
        },
    }
}

/// The label and the help line of a field.
pub fn labels(field: FieldId) -> (r: (&'static str, Option<&'static str>))
    ensures
        r.0@ == label_of(field),
        r.1 is Some,
        r.1->0@ == help_of(field),
{
    match field {
        FieldId::Connector => (
            "Connector",
            Some(
                "Which provider produces the embeddings. Leave it empty to follow the main model connector.",
            ),
        ),
        FieldId::Model => (
            "Model",
            Some("The embedding model. Leave it empty to use the connector's default."),
        ),
        FieldId::BaseUrl => (
            "Base URL",
            Some(
                "Where the connector is reached. Leave it empty to use the connector's default. For Bedrock this is an AWS region.",
            ),
        ),
        FieldId::ApiKeyPresent => (
            "API key",
            Some("Whether a credential is stored for this connector. The value is never shown."),
        ),
        FieldId::Available => (
            "Available",
            Some("Whether this connector can produce embeddings at all."),
        ),
        FieldId::IsDefault => (
            "Inherited",
            Some(
                "Whether the connector follows the main model connector rather than being set here.",
            ),
        ),
        FieldId::Health => (
            "Health",
            Some(
                "What the daemon sees right now. Without a working backend, search falls back to full text.",
            ),
        ),
    }
}

// ---------------------------------------------------------------------------
// Laws
// ---------------------------------------------------------------------------

/// A panel without edits, whether new, reverted or read back, has no changes.
pub proof fn a_clean_panel_has_no_changes(panel: PanelV, loaded: LoadedV)
    ensures
        !PanelV::clean(panel.context, loaded).is_dirty(),
        !panel.reverted().is_dirty(),
        panel.reverted().loaded == panel.loaded,
        panel.reverted().error == panel.error,
{
}

/// An accepted edit is what the field becomes, leaves the other fields alone,
/// and drops the last failure.
pub proof fn an_edit_changes_its_own_field(
    panel: PanelV,
    field: FieldId,
    value: Seq<char>,
    other: FieldId,
)
    requires
        panel.edited(field, value) is Ok,
        other != field,
    ensures
        ({
            let after = panel.edited(field, value)->Ok_0;
            &&& after.effective(field) == value
            &&& after.effective(other) == panel.effective(other)
            &&& after.is_field_dirty(other) == panel.is_field_dirty(other)
            &&& after.is_field_dirty(field) <==> stored_form(field, value) != stored_form(
                field,
                panel.stored(field),
            )
            &&& after.error is None
        }),
{
}

/// An edit is accepted exactly of a setting that the connection may change.
pub proof fn an_edit_is_accepted_where_a_control_is_offered(
    panel: PanelV,
    field: FieldId,
    value: Seq<char>,
)
    ensures
        panel.edited(field, value) is Ok <==> is_setting(field) && panel.editability() is Editable,
{
}

/// Retyping what is stored, with stray white space around it, is not a change, nor
/// is any value that is stored in the same form.
pub proof fn retyping_is_not_a_change(panel: PanelV, field: FieldId, value: Seq<char>)
    requires
        panel.edited(field, value) is Ok,
        stored_form(field, value) == stored_form(field, panel.stored(field)) || text::trim(value)
            == text::trim(panel.stored(field)),
    ensures
        !(panel.edited(field, value)->Ok_0).is_field_dirty(field),
{
}

/// Retyping a connector in ASCII in another case is not a change.
pub proof fn another_case_is_not_a_change(panel: PanelV, value: Seq<char>)
    requires
        panel.edited(FieldId::Connector, value) is Ok,
        text::is_ascii(text::trim(value)),
        text::is_ascii(text::trim(panel.stored(FieldId::Connector))),
        text::ascii_lower(text::trim(value)) == text::ascii_lower(
            text::trim(panel.stored(FieldId::Connector)),
        ),
    ensures
        ({
            let after = panel.edited(FieldId::Connector, value)->Ok_0;
            &&& after.has_ascii_connector()
            &&& !after.is_field_dirty_by(after.ascii_connector(), FieldId::Connector)
        }),
{
    let stored = text::trim(panel.stored(FieldId::Connector));
    assert(text::ascii_lower(text::trim(value)).len() == text::trim(value).len());
    assert(text::ascii_lower(stored).len() == stored.len());
}

/// The connector that takes a region takes one however its name is capitalized.
pub proof fn a_region_is_taken_in_any_case(panel: PanelV)
    requires
        panel.ascii_connector().now == Some(REGION_STYLE_CONNECTOR@),
    ensures
        first_error(panel.errors_by(panel.ascii_connector()), FieldId::BaseUrl) is None,
{
    reveal_with_fuel(first_error, 3);
}

/// A refusal outranks everything else that could be said of applying a panel,
/// and no command is built then.
pub proof fn a_refusal_outranks_a_bad_value(panel: PanelV)
    requires
        panel.editability() is ReadOnly,
    ensures
        panel.apply_state() is NotPermitted,
        panel.write_command() is Err,
{
}

/// A base URL is judged by the connector that would be applied with it, not by the
/// one that the daemon last reported: a region passes for the connector that takes
/// one, and a URL is asked for with any other.
pub proof fn a_base_url_is_judged_by_the_connector_applied(panel: PanelV)
    ensures
        first_error(panel.errors(), FieldId::BaseUrl) is Some <==> ({
            &&& panel.outcome(FieldId::BaseUrl) is Some
            &&& panel.outcome(FieldId::Connector) != Some(REGION_STYLE_CONNECTOR@)
            &&& !settings::is_base_url(panel.outcome(FieldId::BaseUrl)->0)
        }),
        first_error(panel.errors(), FieldId::Connector) is Some <==> ({
            &&& panel.outcome(FieldId::Connector) is Some
            &&& text::words(panel.outcome(FieldId::Connector)->0).len() > 1
        }),
        first_error(panel.errors(), FieldId::Model) is None,
{
    reveal_with_fuel(first_error, 3);
}

/// A command is built exactly when the panel may be written and nothing is wrong
/// with its values, changed or not.
pub proof fn a_command_is_built_of_valid_values(panel: PanelV)
    ensures
        panel.write_command() is Ok <==> panel.editability() is Editable && panel.errors().len()
            == 0,
{
}

/// A write never clears a model or a base URL that was not edited.
pub proof fn an_untouched_value_is_written_back(panel: PanelV)
    ensures
        panel.model_draft is None ==> panel.pending_write().model == settings::normalized(
            panel.loaded.model,
        ),
        panel.base_url_draft is None ==> panel.pending_write().base_url == settings::normalized(
            panel.loaded.base_url,
        ),
{
}

/// An inherited connector that is not changed stays inherited, and one that is
/// set is written back.
pub proof fn an_unchanged_connector_is_not_pinned(panel: PanelV)
    requires
        !panel.is_field_dirty(FieldId::Connector),
    ensures
        panel.loaded.is_default ==> panel.pending_write().connector is None,
        !panel.loaded.is_default ==> panel.pending_write().connector == stored_form(
            FieldId::Connector,
            panel.loaded.connector,
        ),
{
}

/// A change of an inherited connector pins it.
pub proof fn a_changed_connector_is_pinned(panel: PanelV)
    requires
        panel.is_field_dirty(FieldId::Connector),
    ensures
        panel.pending_write().connector == stored_form(
            FieldId::Connector,
            panel.connector_draft->0,
        ),
{
}

/// Whether the daemon reports of a value what was written: the value itself, in
/// the form in which it is stored, or nothing where it was cleared.
pub open spec fn reports_as_written(
    field: FieldId,
    written: Option<Seq<char>>,
    reported: Seq<char>,
) -> bool {
    match written {
        Some(v) => reported == v && stored_form(field, v) == Some(v),
        None => text::is_blank(reported),
    }
}

/// Writing is idempotent: once the daemon reports what was written, applying the
/// panel again writes the same values. Of the connector it then says whether it is
/// inherited, and a cleared one is.
pub proof fn a_rewrite_changes_nothing(panel: PanelV, loaded: LoadedV)
    requires
        ({
            let written = panel.pending_write();
            &&& reports_as_written(FieldId::Model, written.model, loaded.model)
            &&& reports_as_written(FieldId::BaseUrl, written.base_url, loaded.base_url)
            &&& loaded.is_default <==> written.connector is None
            &&& written.connector is Some ==> reports_as_written(
                FieldId::Connector,
                written.connector,
                loaded.connector,
            )
        }),
    ensures
        PanelV::clean(panel.context, loaded).pending_write() == panel.pending_write(),
{
    text::trim_empty_iff_blank(loaded.model);
    text::trim_empty_iff_blank(loaded.base_url);
}

/// A model or a base URL that is written is in the form in which it is stored.
pub proof fn a_written_value_is_in_stored_form(panel: PanelV)
    ensures
        panel.pending_write().model matches Some(m) ==> stored_form(FieldId::Model, m) == Some(m),
        panel.pending_write().base_url matches Some(u) ==> stored_form(FieldId::BaseUrl, u)
            == Some(u),
{
    text::trim_idempotent(panel.effective(FieldId::Model));
    text::trim_idempotent(panel.effective(FieldId::BaseUrl));
}

/// No field that the daemon reports is offered as a control, and the credential
/// is drawn as present or absent, never as text.
pub proof fn reported_fields_are_read_only(panel: PanelV, i: int)
    requires
        3 <= i < panel.drawn().fields.len(),
    ensures
        panel.drawn().fields[i].editability == EditabilityV::ReadOnly(ReasonV::Derived),
        !is_setting(panel.drawn().fields[i].id),
        !(panel.drawn().fields[i].value is Text),
{
}

/// What is kept of typed text: what is between the white space around it, and nothing
/// where it is all white space.
pub open spec fn kept(typed: Seq<char>) -> Option<Seq<char>> {
    if forall|i: int| 0 <= i < typed.len() ==> text::is_white_space(#[trigger] typed[i]) {
        None
    } else {
        Some(text::trim(typed))
    }
}

/// What is kept of a typed connector: the same, in lower case.
pub open spec fn kept_connector(typed: Seq<char>) -> Option<Seq<char>> {
    match kept(typed) {
        Some(t) => Some(text::unicode_lower(t)),
        None => None,
    }
}

/// A write carries what was typed as the model and as the base URL, without the white
/// space around it, and clears either where nothing but white space was typed; what was
/// not touched goes back as it was loaded.
pub proof fn a_write_carries_what_was_typed(panel: PanelV, c: ConnectorV)
    ensures
        panel.model_draft matches Some(typed) ==> panel.pending_write().model == kept(typed),
        panel.model_draft is None ==> panel.pending_write().model == kept(panel.loaded.model),
        panel.base_url_draft matches Some(typed) ==> panel.pending_write().base_url == kept(typed),
        panel.base_url_draft is None ==> panel.pending_write().base_url == kept(
            panel.loaded.base_url,
        ),
        panel.pending_write_by(c).model == panel.pending_write().model,
        panel.pending_write_by(c).base_url == panel.pending_write().base_url,
{
    text::trim_empty_iff_blank(panel.effective(FieldId::Model));
    text::trim_empty_iff_blank(panel.effective(FieldId::BaseUrl));
}

/// A write carries what was typed as the connector, in lower case and without the white
/// space around it. Only where the connector is inherited and not changed is it left
/// out.
pub proof fn a_write_carries_a_changed_connector(panel: PanelV)
    ensures
        panel.connector_draft is None && panel.loaded.is_default
            ==> panel.pending_write().connector is None,
        panel.connector_draft is None && !panel.loaded.is_default
            ==> panel.pending_write().connector == kept_connector(panel.loaded.connector),
        panel.connector_draft matches Some(typed) ==> panel.pending_write().connector == if (
        panel.loaded.is_default && kept_connector(typed) == kept_connector(
            panel.loaded.connector,
        )) {
            None
        } else {
            kept_connector(typed)
        },
{
    text::trim_empty_iff_blank(panel.effective(FieldId::Connector));
    text::trim_empty_iff_blank(panel.loaded.connector);
}

/// A write of a connector in ASCII carries it with its capital letters made small.
pub proof fn a_write_carries_an_ascii_connector(panel: PanelV, typed: Seq<char>)
    requires
        panel.connector_draft == Some(typed),
        !panel.loaded.is_default,
        text::is_ascii(text::trim(typed)),
        text::is_ascii(text::trim(panel.loaded.connector)),
    ensures
        panel.has_ascii_connector(),
        panel.pending_write_by(panel.ascii_connector()).connector == match kept(typed) {
            Some(t) => Some(text::ascii_lower(t)),
            None => None,
        },
{
    text::trim_empty_iff_blank(typed);
}

/// A field is changed exactly when something was typed into it that would not be kept as
/// what was loaded is; no field that the daemon reports is ever changed.
pub proof fn a_field_is_changed_by_what_is_kept(panel: PanelV)
    ensures
        panel.is_field_dirty(FieldId::Connector) <==> panel.connector_draft is Some
            && kept_connector(panel.connector_draft->0) != kept_connector(panel.loaded.connector),
        panel.is_field_dirty(FieldId::Model) <==> panel.model_draft is Some && kept(
            panel.model_draft->0,
        ) != kept(panel.loaded.model),
        panel.is_field_dirty(FieldId::BaseUrl) <==> panel.base_url_draft is Some && kept(
            panel.base_url_draft->0,
        ) != kept(panel.loaded.base_url),
        !panel.is_field_dirty(FieldId::ApiKeyPresent),
        !panel.is_field_dirty(FieldId::Available),
        !panel.is_field_dirty(FieldId::IsDefault),
        !panel.is_field_dirty(FieldId::Health),
        panel.is_dirty() <==> panel.is_field_dirty(FieldId::Connector) || panel.is_field_dirty(
            FieldId::Model,
        ) || panel.is_field_dirty(FieldId::BaseUrl),
{
    text::trim_empty_iff_blank(panel.effective(FieldId::Connector));
    text::trim_empty_iff_blank(panel.effective(FieldId::Model));
    text::trim_empty_iff_blank(panel.effective(FieldId::BaseUrl));
    text::trim_empty_iff_blank(panel.loaded.connector);
    text::trim_empty_iff_blank(panel.loaded.model);
    text::trim_empty_iff_blank(panel.loaded.base_url);
}

/// Two things can be wrong with a panel's values, and each is told at its own field, the
/// connector's first: a connector of several words, and a base URL that is none while
/// the connector to be written is not the one that takes a region.
pub proof fn two_things_can_be_wrong(panel: PanelV)
    ensures
        ({
            let connector = kept_connector(
                if panel.connector_draft is Some {
                    panel.connector_draft->0
                } else {
                    panel.loaded.connector
                },
            );
            let base_url = kept(
                if panel.base_url_draft is Some {
                    panel.base_url_draft->0
                } else {
                    panel.loaded.base_url
                },
            );
            let spaced = connector is Some && text::words(connector->0).len() > 1;
            let no_url = base_url is Some && connector != Some("bedrock"@)
                && !settings::is_base_url(base_url->0);
            let at_connector = FieldErrorV {
                field: FieldId::Connector,
                kind: KindV::UnexpectedWhitespace,
                message: "A connector name has no spaces in it."@,
            };
            let at_base_url = FieldErrorV {
                field: FieldId::BaseUrl,
                kind: KindV::MalformedUrl,
                message: "Enter a full http:// or https:// address."@,
            };
            panel.errors() == if spaced && no_url {
                seq![at_connector, at_base_url]
            } else if spaced {
                seq![at_connector]
            } else if no_url {
                seq![at_base_url]
            } else {
                Seq::empty()
            }
        }),
{
    text::trim_empty_iff_blank(panel.effective(FieldId::Connector));
    text::trim_empty_iff_blank(panel.effective(FieldId::BaseUrl));
}

/// Whether the connection may change the panel: the report does not say that the file
/// was not loaded, and the connection is an administrator's or of a daemon that reports
/// no capability.
pub open spec fn may_write(panel: PanelV) -> bool {
    &&& forall|i: int|
        0 <= i < panel.context.restart_required.len() ==> #[trigger] panel.context.restart_required[i]
            != "config_load_failed"@
    &&& panel.context.caller_capability is None || panel.context.caller_capability == Some(
        crate::api::CapabilityV::Admin,
    )
}

/// A panel can be applied when the connection may write, nothing is wrong with its
/// values and something was changed; and a command is made of it whenever the first two
/// hold. Otherwise the first of the three that fails is what is told.
pub proof fn a_panel_is_applied_when_it_may_and_can_be(panel: PanelV)
    ensures
        panel.editability() is Editable <==> may_write(panel),
        panel.apply_state() is Ready <==> may_write(panel) && panel.errors().len() == 0
            && panel.is_dirty(),
        panel.apply_state() is NoChanges <==> may_write(panel) && panel.errors().len() == 0
            && !panel.is_dirty(),
        panel.apply_state() is Invalid <==> may_write(panel) && panel.errors().len() > 0,
        panel.apply_state() matches ApplyV::Invalid(errors) ==> errors == panel.errors(),
        panel.apply_state() is NotPermitted <==> !may_write(panel),
        may_write(panel) && panel.errors().len() == 0 ==> panel.write_command() == Ok::<
            WriteV,
            SettingsErrorV,
        >(panel.pending_write()),
        may_write(panel) && panel.errors().len() > 0 ==> panel.write_command() == Err::<
            WriteV,
            SettingsErrorV,
        >(SettingsErrorV::Validation { errors: panel.errors() }),
        !may_write(panel) ==> panel.write_command() is Err,
{
    let report = panel.context.restart_required;
    assert(report.contains("config_load_failed"@) <==> !(forall|i: int|
        0 <= i < report.len() ==> #[trigger] report[i] != "config_load_failed"@));
}

/// Why a panel cannot be applied: the file was not loaded, or else the connection lacks
/// the administrator's capability. Applying it all the same is refused in the same
/// words.
pub proof fn a_refusal_says_why(panel: PanelV)
    ensures
        ({
            let report = panel.context.restart_required;
            let held = panel.context.caller_capability;
            let admin = crate::api::CapabilityV::Admin;
            let lacks = ReasonV::CapabilityRequired { required: admin, held };
            if exists|i: int| 0 <= i < report.len() && #[trigger] report[i]
                == "config_load_failed"@ {
                &&& panel.apply_state() == ApplyV::NotPermitted(ReasonV::ConfigNotLoaded)
                &&& panel.write_command() == Err::<WriteV, SettingsErrorV>(
                    SettingsErrorV::DaemonNotWritable { message: ReasonV::ConfigNotLoaded.message() },
                )
            } else {
                held is Some && held != Some(admin) ==> {
                    &&& panel.apply_state() == ApplyV::NotPermitted(lacks)
                    &&& panel.write_command() == Err::<WriteV, SettingsErrorV>(
                        SettingsErrorV::NotAuthorized {
                            required: admin,
                            held,
                            message: lacks.message(),
                        },
                    )
                }
            }
        }),
{
    let report = panel.context.restart_required;
    assert(report.contains("config_load_failed"@) <==> exists|i: int|
        0 <= i < report.len() && #[trigger] report[i] == "config_load_failed"@);
}

/// An accepted edit is kept as it was typed, in its own field alone, and the last
/// failure is dropped. Nothing else changes.
pub proof fn an_edit_is_kept_as_typed(panel: PanelV, typed: Seq<char>)
    ensures
        may_write(panel) ==> panel.edited(FieldId::Connector, typed) == Ok::<PanelV, ReasonV>(
            PanelV { connector_draft: Some(typed), error: None, ..panel },
        ),
        may_write(panel) ==> panel.edited(FieldId::Model, typed) == Ok::<PanelV, ReasonV>(
            PanelV { model_draft: Some(typed), error: None, ..panel },
        ),
        may_write(panel) ==> panel.edited(FieldId::BaseUrl, typed) == Ok::<PanelV, ReasonV>(
            PanelV { base_url_draft: Some(typed), error: None, ..panel },
        ),
        panel.edited(FieldId::ApiKeyPresent, typed) == Err::<PanelV, ReasonV>(ReasonV::Derived),
        panel.edited(FieldId::Available, typed) == Err::<PanelV, ReasonV>(ReasonV::Derived),
        panel.edited(FieldId::IsDefault, typed) == Err::<PanelV, ReasonV>(ReasonV::Derived),
        panel.edited(FieldId::Health, typed) == Err::<PanelV, ReasonV>(ReasonV::Derived),
        !may_write(panel) ==> {
            &&& panel.edited(FieldId::Connector, typed) is Err
            &&& panel.edited(FieldId::Model, typed) is Err
            &&& panel.edited(FieldId::BaseUrl, typed) is Err
        },
{
    a_panel_is_applied_when_it_may_and_can_be(panel);
}

/// Reverting takes back the edits and nothing else, and taking the daemon's values anew
/// takes back the last failure too.
pub proof fn reverting_takes_back_the_edits(panel: PanelV, loaded: LoadedV)
    ensures
        panel.reverted().connector_draft is None,
        panel.reverted().model_draft is None,
        panel.reverted().base_url_draft is None,
        panel.reverted().context == panel.context,
        panel.reverted().loaded == panel.loaded,
        panel.reverted().error == panel.error,
        PanelV::clean(panel.context, loaded) == (PanelV {
            context: panel.context,
            loaded,
            connector_draft: None,
            model_draft: None,
            base_url_draft: None,
            error: None,
        }),
{
}

/// A panel is drawn as seven fields: the three settings, each with what was typed or
/// else what was loaded, then what the daemon reports, each as it was reported.
pub proof fn seven_fields_are_drawn(panel: PanelV)
    ensures
        ({
            let drawn = panel.drawn();
            let f = drawn.fields;
            &&& drawn.instance == panel.context.instance
            &&& drawn.title == "Embeddings"@
            &&& drawn.apply == panel.apply_state()
            &&& drawn.dirty == panel.is_dirty()
            &&& drawn.error == panel.error
            &&& drawn.restart == RestartState::of_report(
                PanelId::Embeddings,
                panel.context.restart_required,
            )
            &&& f.len() == 7
            &&& f[0].id == FieldId::Connector && f[0].label == "Connector"@
            &&& f[1].id == FieldId::Model && f[1].label == "Model"@
            &&& f[2].id == FieldId::BaseUrl && f[2].label == "Base URL"@
            &&& f[3].id == FieldId::ApiKeyPresent && f[3].label == "API key"@
            &&& f[4].id == FieldId::Available && f[4].label == "Available"@
            &&& f[5].id == FieldId::IsDefault && f[5].label == "Inherited"@
            &&& f[6].id == FieldId::Health && f[6].label == "Health"@
            &&& f[0].value == ValueV::Text(
                if panel.connector_draft is Some {
                    panel.connector_draft->0
                } else {
                    panel.loaded.connector
                },
            )
            &&& f[1].value == ValueV::Text(
                if panel.model_draft is Some {
                    panel.model_draft->0
                } else {
                    panel.loaded.model
                },
            )
            &&& f[2].value == ValueV::Text(
                if panel.base_url_draft is Some {
                    panel.base_url_draft->0
                } else {
                    panel.loaded.base_url
                },
            )
            &&& f[3].value == ValueV::SecretPresence(panel.loaded.has_api_key)
            &&& f[4].value == ValueV::Flag(panel.loaded.available)
            &&& f[5].value == ValueV::Flag(panel.loaded.is_default)
            &&& f[6].value == drawn_health(panel.loaded.health)
        }),
{
}

/// A setting is drawn with its own error and its own mark of change, and as a control
/// where the connection may write; a reported field has neither error nor change and is
/// never a control.
pub proof fn a_setting_is_drawn_with_its_state(panel: PanelV, i: int)
    requires
        0 <= i < 7,
    ensures
        ({
            let f = panel.drawn().fields[i];
            &&& f.editability is Editable <==> i < 3 && may_write(panel)
            &&& f.dirty == panel.is_field_dirty(f.id)
            &&& i < 3 ==> f.editability == panel.editability()
            &&& i >= 3 ==> f.editability == EditabilityV::ReadOnly(ReasonV::Derived)
            &&& f.error matches Some(e) ==> e.field == f.id && panel.errors().contains(e)
            &&& f.error is None ==> forall|j: int|
                0 <= j < panel.errors().len() ==> (#[trigger] panel.errors()[j]).field != f.id
            &&& f.help is Some
        }),
{
    a_panel_is_applied_when_it_may_and_can_be(panel);
    two_things_can_be_wrong(panel);
    reveal_with_fuel(first_error, 3);
    let errors = panel.errors();
    assert(errors.len() > 0 ==> errors.contains(errors[0]));
    assert(errors.len() > 1 ==> errors.contains(errors[1]));
    assert(errors.len() > 1 ==> errors.skip(1)[0] == errors[1]);
}

/// How the health of the backend is drawn: only an outage is a warning, it alone carries
/// a detail, which is the daemon's reason, and no two states look alike.
pub proof fn health_is_drawn_as_it_is(a: HealthV, b: HealthV)
    ensures
        drawn_health(a) matches ValueV::Status { level, text, detail } && {
            &&& level == StatusLevel::Working <==> a is Healthy
            &&& level == StatusLevel::Info <==> a is Disabled
            &&& level == StatusLevel::Warning <==> a is Unavailable
            &&& level == StatusLevel::Unknown <==> a is Unknown
            &&& text == (match a {
                HealthV::Healthy => "ok"@,
                HealthV::Disabled => "disabled"@,
                HealthV::Unavailable { .. } => "unavailable"@,
                HealthV::Unknown => "unknown"@,
            })
            &&& detail == match a {
                HealthV::Unavailable { reason } => Some(reason),
                _ => None,
            }
        },
        drawn_health(a) == drawn_health(b) ==> a == b,
{
}

/// Each of the two faults is found by what is to be written alone, wherever that came
/// from, and neither hides the other.
pub proof fn faults_are_found_apart(connector: Option<Seq<char>>, base_url: Option<Seq<char>>)
    ensures
        ({
            let found = faults(connector, base_url);
            let spaced = connector is Some && text::words(connector->0).len() > 1;
            let no_url = base_url is Some && connector != Some("bedrock"@)
                && !settings::is_base_url(base_url->0);
            let both = (if spaced {
                1int
            } else {
                0
            }) + (if no_url {
                1int
            } else {
                0
            });
            &&& found.len() == both
            &&& spaced ==> found[0].field == FieldId::Connector && found[0].kind
                == KindV::UnexpectedWhitespace
            &&& no_url ==> found.last().field == FieldId::BaseUrl && found.last().kind
                == KindV::MalformedUrl
        }),
{
}

/// Each field is explained in its own words.
pub proof fn each_field_is_explained()
    ensures
        help_of(FieldId::Connector)
            == "Which provider produces the embeddings. Leave it empty to follow the main model connector."@,
        help_of(FieldId::Model)
            == "The embedding model. Leave it empty to use the connector's default."@,
        help_of(FieldId::BaseUrl)
            == "Where the connector is reached. Leave it empty to use the connector's default. For Bedrock this is an AWS region."@,
        help_of(FieldId::ApiKeyPresent)
            == "Whether a credential is stored for this connector. The value is never shown."@,
        help_of(FieldId::Available)
            == "Whether this connector can produce embeddings at all."@,
        help_of(FieldId::IsDefault)
            == "Whether the connector follows the main model connector rather than being set here."@,
        help_of(FieldId::Health)
            == "What the daemon sees right now. Without a working backend, search falls back to full text."@,
{
}

} // verus!
