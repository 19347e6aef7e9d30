//! The daemon's settings panels as plain data.
//!
//! A panel is one value, [`SettingsPanelView`], that describes its fields, their
//! values, what is wrong with each, whether each can be edited, what needs a
//! restart, and which daemon it is about. A view renders that description. The
//! host reads the daemon, hands the values in, and sends back the command that a
//! panel builds.
//!
//! This layer decides what a value must look like, which controls a connection
//! may change, what a restart report means for one panel, how a failure is
//! classified, what a write carries, and whether there is anything to apply. The
//! daemon stays the authority: a value that passes here can still be refused.

use vstd::prelude::*;

use crate::api;
use crate::api::{Capability, CapabilityV, Config, ErrorCode, ErrorDetail};
use crate::text;

pub mod embeddings;

verus! {

// ---------------------------------------------------------------------------
// Which daemon, which panel
// ---------------------------------------------------------------------------

/// Which daemon a panel is bound to: whatever identifier the host uses for the
/// connection. It is carried and never parsed.
#[derive(Debug, PartialEq, Eq, Hash)]
pub struct InstanceId(String);

impl View for InstanceId {
    type V = Seq<char>;

    closed spec fn view(&self) -> Seq<char> {
        self.0@
    }
}

impl Clone for InstanceId {
    fn clone(&self) -> (r: Self)
        ensures
            r@ == self@,
    {
        InstanceId(self.0.clone())
    }
}

impl InstanceId {
    /// Wrap the host's identifier.
    pub fn new(id: &str) -> (r: Self)
        ensures
            r@ == id@,
    {
        InstanceId(id.to_owned())
    }

    /// The identifier, verbatim.
    pub fn as_str(&self) -> (r: &str)
        ensures
            r@ == self@,
    {
        self.0.as_str()
    }

    /// The identifier, verbatim.
    pub fn to_string(&self) -> (r: String)
        ensures
            r@ == self@,
    {
        self.0.clone()
    }
}

/// Which panel a value describes.
#[derive(Clone, Copy, Debug, PartialEq, Eq, Hash, Structural)]
pub enum PanelId {
    /// The embedding backend.
    Embeddings,
}

impl PanelId {
    /// The panel's heading.
    pub open spec fn heading(self) -> Seq<char> {
        match self {
            PanelId::Embeddings => "Embeddings"@,
        }
    }

    /// The capability that a write to the panel needs.
    pub open spec fn required(self) -> CapabilityV {
        match self {
            PanelId::Embeddings => CapabilityV::Admin,
        }
    }

    /// The area of the configuration that speaks for the panel.
    pub open spec fn area(self) -> AreaV {
        match self {
            PanelId::Embeddings => AreaV::Embeddings,
        }
    }

    /// The field that a refused URL belongs to.
    pub open spec fn url_field_spec(self) -> Option<FieldId> {
        match self {
            PanelId::Embeddings => Some(FieldId::BaseUrl),
        }
    }

    /// The panel's heading.
    pub fn title(self) -> (r: &'static str)
        ensures
            r@ == self.heading(),
    {
        match self {
            PanelId::Embeddings => "Embeddings",
        }
    }

    /// The capability that a write to the panel needs.
    pub fn write_capability(self) -> (r: Capability)
        ensures
            r@ == self.required(),
    {
        match self {
            PanelId::Embeddings => Capability::Admin,
        }
    }

    /// The area of the configuration whose restart report speaks for the panel.
    pub fn config_area(self) -> (r: ConfigArea)
        ensures
            r@ == self.area(),
    {
        match self {
            PanelId::Embeddings => ConfigArea::Embeddings,
        }
    }

    /// The field that a refused URL belongs to, when the panel has one.
    pub fn url_field(self) -> (r: Option<FieldId>)
        ensures
            r == self.url_field_spec(),
    {
        match self {
            PanelId::Embeddings => Some(FieldId::BaseUrl),
        }
    }
}

// ---------------------------------------------------------------------------
// Restart report
// ---------------------------------------------------------------------------

/// An area of the daemon's configuration file. A key that this build does not
/// know is kept rather than dropped: dropping it would tell somebody that their
/// edit is live when it is not.
#[derive(Clone, Debug, PartialEq, Eq)]
pub enum ConfigArea {
    /// The whole file would not load, so nothing in it is in force.
    ConfigLoadFailed,
    Database,
    Embeddings,
    WsAuth,
    Tls,
    Authz,
    Recall,
    /// An unknown area, verbatim.
    Other(String),
}

/// The value of a [`ConfigArea`].
#[verifier::ext_equal]
pub enum AreaV {
    ConfigLoadFailed,
    Database,
    Embeddings,
    WsAuth,
    Tls,
    Authz,
    Recall,
    Other(Seq<char>),
}

impl View for ConfigArea {
    type V = AreaV;

    open spec fn view(&self) -> AreaV {
        match *self {
            ConfigArea::ConfigLoadFailed => AreaV::ConfigLoadFailed,
            ConfigArea::Database => AreaV::Database,
            ConfigArea::Embeddings => AreaV::Embeddings,
            ConfigArea::WsAuth => AreaV::WsAuth,
            ConfigArea::Tls => AreaV::Tls,
            ConfigArea::Authz => AreaV::Authz,
            ConfigArea::Recall => AreaV::Recall,
            ConfigArea::Other(key) => AreaV::Other(key@),
        }
    }
}

impl AreaV {
    /// The area that a key of the restart report names.
    pub open spec fn of_key(key: Seq<char>) -> AreaV {
        if key == "config_load_failed"@ {
            AreaV::ConfigLoadFailed
        } else if key == "database"@ {
            AreaV::Database
        } else if key == "embeddings"@ {
            AreaV::Embeddings
        } else if key == "ws_auth"@ {
            AreaV::WsAuth
        } else if key == "tls"@ {
            AreaV::Tls
        } else if key == "authz"@ {
            AreaV::Authz
        } else if key == "recall"@ {
            AreaV::Recall
        } else {
            AreaV::Other(key)
        }
    }

    /// The key of an area.
    pub open spec fn key(self) -> Seq<char> {
        match self {
            AreaV::ConfigLoadFailed => "config_load_failed"@,
            AreaV::Database => "database"@,
            AreaV::Embeddings => "embeddings"@,
            AreaV::WsAuth => "ws_auth"@,
            AreaV::Tls => "tls"@,
            AreaV::Authz => "authz"@,
            AreaV::Recall => "recall"@,
            AreaV::Other(key) => key,
        }
    }
}

impl ConfigArea {
    /// The area that a key of the restart report names.
    pub fn from_key(key: &str) -> (r: ConfigArea)
        ensures
            r@ == AreaV::of_key(key@),
    {
        if text::same(key, "config_load_failed") {
            ConfigArea::ConfigLoadFailed
        } else if text::same(key, "database") {
            ConfigArea::Database
        } else if text::same(key, "embeddings") {
            ConfigArea::Embeddings
        } else if text::same(key, "ws_auth") {
            ConfigArea::WsAuth
        } else if text::same(key, "tls") {
            ConfigArea::Tls
        } else if text::same(key, "authz") {
            ConfigArea::Authz
        } else if text::same(key, "recall") {
            ConfigArea::Recall
        } else {
            ConfigArea::Other(key.to_owned())
        }
    }

    /// The daemon's stable key for this area.
    pub fn as_key(&self) -> (r: &str)
        ensures
            r@ == self@.key(),
    {
        match self {
            ConfigArea::ConfigLoadFailed => "config_load_failed",
            ConfigArea::Database => "database",
            ConfigArea::Embeddings => "embeddings",
            ConfigArea::WsAuth => "ws_auth",
            ConfigArea::Tls => "tls",
            ConfigArea::Authz => "authz",
            ConfigArea::Recall => "recall",
            ConfigArea::Other(key) => key.as_str(),
        }
    }
}

/// What the restart report says about one panel.
#[derive(Clone, Copy, Debug, PartialEq, Eq, Structural)]
pub enum RestartState {
    /// Everything the panel configures is in force.
    InForce,
    /// A restart applies what the panel configures.
    RestartRequired,
    /// The configuration file did not load, so nothing in it is in force.
    ConfigNotLoaded,
}

impl RestartState {
    /// What a restart report says about a panel. A file that did not load
    /// outranks a pending area.
    pub open spec fn of_report(panel: PanelId, report: Seq<Seq<char>>) -> RestartState {
        if report.contains(AreaV::ConfigLoadFailed.key()) {
            RestartState::ConfigNotLoaded
        } else if report.contains(panel.area().key()) {
            RestartState::RestartRequired
        } else {
            RestartState::InForce
        }
    }

    /// What a restart report says about a panel.
    pub fn for_panel(panel: PanelId, report: &[String]) -> (r: RestartState)
        ensures
            r == Self::of_report(panel, text::views(report@)),
    {
        if reports(report, "config_load_failed") {
            RestartState::ConfigNotLoaded
        } else if reports(report, panel.config_area().as_key()) {
            RestartState::RestartRequired
        } else {
            RestartState::InForce
        }
    }

    /// The text to show, or `None` when there is nothing to say.
    pub fn message(self) -> (r: Option<&'static str>)
        ensures
            match self {
                RestartState::InForce => r is None,
                RestartState::RestartRequired => r is Some && r->0@
                    == "This is configured but not running. Restart the daemon to apply it."@,
                RestartState::ConfigNotLoaded => r is Some && r->0@
                    == "The daemon could not read its config file, so it is running built-in defaults. The values here are the file's, not the running ones. Repair the file to make them live."@,
            },
    {
        match self {
            RestartState::InForce => None,
            RestartState::RestartRequired => Some(
                "This is configured but not running. Restart the daemon to apply it.",
            ),
            RestartState::ConfigNotLoaded => Some(
                "The daemon could not read its config file, so it is running built-in defaults. The values here are the file's, not the running ones. Repair the file to make them live.",
            ),
        }
    }
}

/// Whether a restart report holds a key.
fn reports(report: &[String], key: &str) -> (r: bool)
    ensures
        r == text::views(report@).contains(key@),
{
    let mut i: usize = 0;
    while i < report.len()
        invariant
            i <= report@.len(),
            forall|j: int| 0 <= j < i ==> (#[trigger] text::views(report@)[j]) != key@,
        decreases report@.len() - i,
    {
        assert(text::views(report@)[i as int] == report@[i as int]@);
        if text::same(report[i].as_str(), key) {
            return true;
        }
        i += 1;
    }
    false
}

// ---------------------------------------------------------------------------
// Fields
// ---------------------------------------------------------------------------

/// One field of a panel.
#[derive(Clone, Copy, Debug, PartialEq, Eq, Hash, Structural)]
pub enum FieldId {
    Connector,
    Model,
    BaseUrl,
    /// Whether a credential is stored; never the credential.
    ApiKeyPresent,
    /// Whether the backend is usable at all.
    Available,
    /// Whether the value is inherited.
    IsDefault,
    /// The backend's live health.
    Health,
}

impl FieldId {
    /// The field's stable key.
    pub open spec fn key(self) -> Seq<char> {
        match self {
            FieldId::Connector => "connector"@,
            FieldId::Model => "model"@,
            FieldId::BaseUrl => "base_url"@,
            FieldId::ApiKeyPresent => "api_key_present"@,
            FieldId::Available => "available"@,
            FieldId::IsDefault => "is_default"@,
            FieldId::Health => "health"@,
        }
    }

    /// The field's stable key, for a view to route input by.
    pub fn as_key(self) -> (r: &'static str)
        ensures
            r@ == self.key(),
    {
        match self {
            FieldId::Connector => "connector",
            FieldId::Model => "model",
            FieldId::BaseUrl => "base_url",
            FieldId::ApiKeyPresent => "api_key_present",
            FieldId::Available => "available",
            FieldId::IsDefault => "is_default",
            FieldId::Health => "health",
        }
    }
}

/// How serious a reported state is.
#[derive(Clone, Copy, Debug, PartialEq, Eq, Structural)]
pub enum StatusLevel {
    /// Working as configured.
    Working,
    /// A plain fact, such as off by design.
    Info,
    /// Configured but not working.
    Warning,
    /// Not determined, which is not the same as off.
    Unknown,
}

/// The value of one field. No panel puts a secret in one: a credential is
/// reported as present or not.
#[derive(Clone, Debug, PartialEq, Eq)]
pub enum FieldValue {
    /// Text that the person edits.
    Text(String),
    /// A fact.
    Flag(bool),
    /// Whether a credential is stored.
    SecretPresence(bool),
    /// A state that the daemon reports.
    Status { level: StatusLevel, text: String, detail: Option<String> },
}

/// The value of a [`FieldValue`].
#[verifier::ext_equal]
pub enum ValueV {
    Text(Seq<char>),
    Flag(bool),
    SecretPresence(bool),
    Status { level: StatusLevel, text: Seq<char>, detail: Option<Seq<char>> },
}

impl View for FieldValue {
    type V = ValueV;

    open spec fn view(&self) -> ValueV {
        match *self {
            FieldValue::Text(t) => ValueV::Text(t@),
            FieldValue::Flag(b) => ValueV::Flag(b),
            FieldValue::SecretPresence(b) => ValueV::SecretPresence(b),
            FieldValue::Status { level, text, detail } => ValueV::Status {
                level,
                text: text@,
                detail: text::opt_view(detail),
            },
        }
    }
}

/// Why a field cannot be changed here.
#[derive(Debug, PartialEq, Eq)]
pub enum ReadOnlyReason {
    /// The daemon reports it; it is not a setting.
    Derived,
    /// The connection lacks a capability.
    CapabilityRequired {
        required: Capability,
        /// What the connection holds, when the daemon said.
        held: Option<Capability>,
    },
    /// The daemon did not load its configuration file.
    ConfigNotLoaded,
}

/// The value of a [`ReadOnlyReason`].
#[verifier::ext_equal]
pub enum ReasonV {
    Derived,
    CapabilityRequired { required: CapabilityV, held: Option<CapabilityV> },
    ConfigNotLoaded,
}

impl View for ReadOnlyReason {
    type V = ReasonV;

    open spec fn view(&self) -> ReasonV {
        match *self {
            ReadOnlyReason::Derived => ReasonV::Derived,
            ReadOnlyReason::CapabilityRequired { required, held } =>
                ReasonV::CapabilityRequired {
                    required: required@,
                    held: api::opt_capability(held),
                },
            ReadOnlyReason::ConfigNotLoaded => ReasonV::ConfigNotLoaded,
        }
    }
}

impl Clone for ReadOnlyReason {
    fn clone(&self) -> (r: Self)
        ensures
            r == *self,
    {
        match self {
            ReadOnlyReason::Derived => ReadOnlyReason::Derived,
            ReadOnlyReason::CapabilityRequired { required, held } =>
                ReadOnlyReason::CapabilityRequired {
                    required: required.clone(),
                    held: held.clone(),
                },
            ReadOnlyReason::ConfigNotLoaded => ReadOnlyReason::ConfigNotLoaded,
        }
    }
}

impl ReasonV {
    /// The text to show.
    pub open spec fn message(self) -> Seq<char> {
        match self {
            ReasonV::Derived => "The daemon reports this. It is not a setting you can change."@,
            ReasonV::CapabilityRequired { required, held } => match held {
                Some(held) => "Changing this needs the "@ + required.label()
                    + " capability. This connection has "@ + held.label() + "."@,
                None => "Changing this needs the "@ + required.label() + " capability."@,
            },
            ReasonV::ConfigNotLoaded =>
                "The daemon could not read its config file and is running built-in defaults. Repair the file before you change these settings."@,
        }
    }
}

impl ReadOnlyReason {
    /// The text to show.
    pub fn message(&self) -> (r: String)
        ensures
            r@ == self@.message(),
    {
        match self {
            ReadOnlyReason::Derived =>
                "The daemon reports this. It is not a setting you can change.".to_owned(),
            ReadOnlyReason::CapabilityRequired { required, held } => {
                let mut s = text::concat("Changing this needs the ", required.label());
                match held {
                    Some(held) => {
                        s.append(" capability. This connection has ");
                        s.append(held.label());
                        s.append(".");
                    },
                    None => {
                        s.append(" capability.");
                    },
                }
                s
            },
            ReadOnlyReason::ConfigNotLoaded =>
                "The daemon could not read its config file and is running built-in defaults. Repair the file before you change these settings.".to_owned(),
        }
    }
}

/// Whether a view offers a control for a field.
#[derive(Debug, PartialEq, Eq)]
pub enum Editability {
    /// Offer it.
    Editable,
    /// Show the value, and say why it cannot be changed.
    ReadOnly(ReadOnlyReason),
}

/// The value of an [`Editability`].
#[verifier::ext_equal]
pub enum EditabilityV {
    Editable,
    ReadOnly(ReasonV),
}

impl View for Editability {
    type V = EditabilityV;

    open spec fn view(&self) -> EditabilityV {
        match *self {
            Editability::Editable => EditabilityV::Editable,
            Editability::ReadOnly(reason) => EditabilityV::ReadOnly(reason@),
        }
    }
}

impl Clone for Editability {
    fn clone(&self) -> (r: Self)
        ensures
            r == *self,
    {
        match self {
            Editability::Editable => Editability::Editable,
            Editability::ReadOnly(reason) => Editability::ReadOnly(reason.clone()),
        }
    }
}

impl EditabilityV {
    /// Whether a connection that holds `held` may write a panel.
    ///
    /// A daemon running on defaults is read-only for everybody. A daemon that
    /// reports no capability predates capabilities and takes the write.
    pub open spec fn of_panel(
        panel: PanelId,
        held: Option<CapabilityV>,
        restart: RestartState,
    ) -> EditabilityV {
        if restart == RestartState::ConfigNotLoaded {
            EditabilityV::ReadOnly(ReasonV::ConfigNotLoaded)
        } else if held is None || held->0.permits(panel.required()) {
            EditabilityV::Editable
        } else {
            EditabilityV::ReadOnly(
                ReasonV::CapabilityRequired { required: panel.required(), held },
            )
        }
    }
}

impl Editability {
    /// Whether a view offers a control.
    pub fn is_editable(&self) -> (r: bool)
        ensures
            r == (self@ is Editable),
    {
        match self {
            Editability::Editable => true,
            Editability::ReadOnly(_) => false,
        }
    }

    /// Whether a connection that holds `held` may write a panel (see
    /// [`EditabilityV::of_panel`]).
    pub fn for_panel(panel: PanelId, held: Option<&Capability>, restart: RestartState) -> (r:
        Editability)
        ensures
            r@ == EditabilityV::of_panel(
                panel,
                match held {
                    Some(c) => Some(c@),
                    None => None,
                },
                restart,
            ),
    {
        if restart == RestartState::ConfigNotLoaded {
            return Editability::ReadOnly(ReadOnlyReason::ConfigNotLoaded);
        }
        let required = panel.write_capability();
        match held {
            None => Editability::Editable,
            Some(held) => if held.permits(&required) {
                Editability::Editable
            } else {
                Editability::ReadOnly(
                    ReadOnlyReason::CapabilityRequired { required, held: Some(held.clone()) },
                )
            },
        }
    }
}

// ---------------------------------------------------------------------------
// Validation
// ---------------------------------------------------------------------------

/// Why a value was rejected.
#[derive(Debug, PartialEq, Eq)]
pub enum ValidationKind {
    /// Not an absolute `http` or `https` URL.
    MalformedUrl,
    /// White space where none is allowed.
    UnexpectedWhitespace,
    /// The daemon refused it, with this code.
    RefusedByDaemon(String),
}

/// The value of a [`ValidationKind`].
#[verifier::ext_equal]
pub enum KindV {
    MalformedUrl,
    UnexpectedWhitespace,
    RefusedByDaemon(Seq<char>),
}

impl View for ValidationKind {
    type V = KindV;

    open spec fn view(&self) -> KindV {
        match *self {
            ValidationKind::MalformedUrl => KindV::MalformedUrl,
            ValidationKind::UnexpectedWhitespace => KindV::UnexpectedWhitespace,
            ValidationKind::RefusedByDaemon(code) => KindV::RefusedByDaemon(code@),
        }
    }
}

impl Clone for ValidationKind {
    fn clone(&self) -> (r: Self)
        ensures
            r == *self,
    {
        match self {
            ValidationKind::MalformedUrl => ValidationKind::MalformedUrl,
            ValidationKind::UnexpectedWhitespace => ValidationKind::UnexpectedWhitespace,
            ValidationKind::RefusedByDaemon(code) => ValidationKind::RefusedByDaemon(
                code.clone(),
            ),
        }
    }
}

/// What is wrong with one field's value.
#[derive(Debug, PartialEq, Eq)]
pub struct FieldError {
    pub field: FieldId,
    pub kind: ValidationKind,
    /// The text to show.
    pub message: String,
}

/// The value of a [`FieldError`].
#[verifier::ext_equal]
pub struct FieldErrorV {
    pub field: FieldId,
    pub kind: KindV,
    pub message: Seq<char>,
}

impl View for FieldError {
    type V = FieldErrorV;

    open spec fn view(&self) -> FieldErrorV {
        FieldErrorV { field: self.field, kind: self.kind@, message: self.message@ }
    }
}

impl Clone for FieldError {
    fn clone(&self) -> (r: Self)
        ensures
            r == *self,
    {
        FieldError {
            field: self.field,
            kind: self.kind.clone(),
            message: self.message.clone(),
        }
    }
}

/// The values of a list of field errors.
pub open spec fn field_errors(s: Seq<FieldError>) -> Seq<FieldErrorV> {
    s.map_values(|e: FieldError| e@)
}

/// A copy of a list of field errors.
fn copied(errors: &Vec<FieldError>) -> (r: Vec<FieldError>)
    ensures
        field_errors(r@) == field_errors(errors@),
{
    let r = errors.clone();
    assert(field_errors(r@) =~= field_errors(errors@));
    r
}

/// The value of an optional field error.
pub open spec fn opt_field_error(e: Option<FieldError>) -> Option<FieldErrorV> {
    match e {
        Some(x) => Some(x@),
        None => None,
    }
}

/// A typed value as the daemon stores it: trimmed, and `None` when blank.
pub open spec fn normalized(s: Seq<char>) -> Option<Seq<char>> {
    if text::trim(s).len() == 0 {
        None
    } else {
        Some(text::trim(s))
    }
}

/// A typed value as the daemon stores it: trimmed, and `None` when blank, which
/// clears the setting.
pub fn normalize_optional(value: &str) -> (r: Option<String>)
    ensures
        text::opt_view(r) == normalized(value@),
{
    let trimmed = text::trimmed(value);
    if trimmed.as_str().is_empty() {
        None
    } else {
        Some(trimmed)
    }
}

/// Whether a character ends the host of a URL.
pub open spec fn ends_host(c: char) -> bool {
    c == '/' || c == '?' || c == '#'
}

/// The host of a URL without its scheme: everything up to the first `/`, `?` or
/// `#`.
pub open spec fn host(s: Seq<char>) -> Seq<char>
    decreases s.len(),
{
    if s.len() == 0 || ends_host(s[0]) {
        Seq::empty()
    } else {
        seq![s[0]] + host(s.skip(1))
    }
}

/// What follows the scheme of an `http` or `https` URL, in lower case.
pub open spec fn after_scheme(s: Seq<char>) -> Option<Seq<char>> {
    let lower = text::ascii_lower(text::trim(s));
    if text::begins(lower, "http://"@) {
        Some(lower.skip("http://"@.len() as int))
    } else if text::begins(lower, "https://"@) {
        Some(lower.skip("https://"@.len() as int))
    } else {
        None
    }
}

/// Whether text is an absolute `http` or `https` URL with a host.
pub open spec fn is_base_url(s: Seq<char>) -> bool {
    match after_scheme(s) {
        Some(rest) => {
            &&& host(rest).len() > 0
            &&& forall|i: int|
                0 <= i < host(rest).len() ==> !text::is_white_space(#[trigger] host(rest)[i])
        },
        None => false,
    }
}

/// Whether the host that begins at `from` is there and free of white space.
fn has_host(s: &Vec<char>, from: usize) -> (r: bool)
    requires
        from <= s@.len(),
    ensures
        r == {
            let h = host(s@.skip(from as int));
            &&& h.len() > 0
            &&& forall|i: int| 0 <= i < h.len() ==> !text::is_white_space(#[trigger] h[i])
        },
{
    let ghost rest = s@.skip(from as int);
    let ghost h = host(rest);
    let mut i: usize = from;
    assert(rest.skip(0) =~= rest);
    assert(h =~= rest.take(0) + host(rest.skip(0)));
    while i < s.len() && s[i] != '/' && s[i] != '?' && s[i] != '#'
        invariant
            from <= i <= s@.len(),
            rest == s@.skip(from as int),
            h == host(rest),
            h == rest.take(i - from) + host(rest.skip(i - from)),
            forall|j: int|
                0 <= j < i - from ==> !text::is_white_space(#[trigger] rest[j]),
        decreases s@.len() - i,
    {
        proof {
            let k = i - from;
            assert(rest.skip(k)[0] == s@[i as int]);
            assert(rest[k] == s@[i as int]);
            assert(rest.skip(k).skip(1) =~= rest.skip(k + 1));
            assert(h =~= rest.take(k + 1) + host(rest.skip(k + 1)));
            assert(h[k] == s@[i as int]);
        }
        if s[i].is_whitespace() {
            return false;
        }
        i += 1;
    }
    proof {
        let k = i - from;
        assert(i < s@.len() ==> rest.skip(k)[0] == s@[i as int]);
        assert(host(rest.skip(k)) =~= Seq::empty());
        assert(h =~= rest.take(k));
    }
    i > from
}

/// Accept an absolute `http` or `https` URL with a host. This never widens what
/// the daemon accepts; it catches a missing scheme, and one that is not the
/// web's.
pub fn validate_base_url(value: &str) -> (r: Result<(), ValidationKind>)
    ensures
        r is Ok <==> is_base_url(value@),
        r matches Err(kind) ==> kind@ == KindV::MalformedUrl,
{
    let lower = text::chars_of(text::lower(text::trimmed(value).as_str()).as_str());
    proof {
        reveal_strlit("http://");
        reveal_strlit("https://");
    }
    let accepted = if text::begins_with(&lower, "http://") {
        has_host(&lower, 7)
    } else if text::begins_with(&lower, "https://") {
        has_host(&lower, 8)
    } else {
        false
    };
    if accepted {
        Ok(())
    } else {
        Err(ValidationKind::MalformedUrl)
    }
}

// ---------------------------------------------------------------------------
// What a view renders
// ---------------------------------------------------------------------------

/// One field of a panel, as a view draws it.
#[derive(Clone, Debug, PartialEq, Eq)]
pub struct FieldView {
    pub id: FieldId,
    pub label: &'static str,
    pub help: Option<&'static str>,
    /// The person's edit when there is one, else the daemon's value.
    pub value: FieldValue,
    pub editability: Editability,
    pub error: Option<FieldError>,
    /// Whether the field carries an unapplied edit.
    pub dirty: bool,
}

/// The value of a [`FieldView`].
#[verifier::ext_equal]
pub struct FieldV {
    pub id: FieldId,
    pub label: Seq<char>,
    pub help: Option<Seq<char>>,
    pub value: ValueV,
    pub editability: EditabilityV,
    pub error: Option<FieldErrorV>,
    pub dirty: bool,
}

/// The text of an optional literal.
pub open spec fn opt_str(s: Option<&'static str>) -> Option<Seq<char>> {
    match s {
        Some(t) => Some(t@),
        None => None,
    }
}

impl View for FieldView {
    type V = FieldV;

    open spec fn view(&self) -> FieldV {
        FieldV {
            id: self.id,
            label: self.label@,
            help: opt_str(self.help),
            value: self.value@,
            editability: self.editability@,
            error: opt_field_error(self.error),
            dirty: self.dirty,
        }
    }
}

/// The values of a list of fields.
pub open spec fn fields(s: Seq<FieldView>) -> Seq<FieldV> {
    s.map_values(|f: FieldView| f@)
}

/// Whether there is anything to apply, and why not.
#[derive(Clone, Debug, PartialEq, Eq)]
pub enum ApplyState {
    /// There are valid changes.
    Ready,
    /// Nothing was changed.
    NoChanges,
    /// A field is invalid.
    Invalid(Vec<FieldError>),
    /// The connection may not write the panel.
    NotPermitted(ReadOnlyReason),
}

/// The value of an [`ApplyState`].
#[verifier::ext_equal]
pub enum ApplyV {
    Ready,
    NoChanges,
    Invalid(Seq<FieldErrorV>),
    NotPermitted(ReasonV),
}

impl View for ApplyState {
    type V = ApplyV;

    open spec fn view(&self) -> ApplyV {
        match *self {
            ApplyState::Ready => ApplyV::Ready,
            ApplyState::NoChanges => ApplyV::NoChanges,
            ApplyState::Invalid(errors) => ApplyV::Invalid(field_errors(errors@)),
            ApplyState::NotPermitted(reason) => ApplyV::NotPermitted(reason@),
        }
    }
}

impl ApplyState {
    /// Whether a view enables its apply control.
    pub fn is_ready(&self) -> (r: bool)
        ensures
            r == (self@ is Ready),
    {
        match self {
            ApplyState::Ready => true,
            _ => false,
        }
    }
}

/// One panel, as one value.
#[derive(Clone, Debug, PartialEq, Eq)]
pub struct SettingsPanelView {
    pub instance: InstanceId,
    pub panel: PanelId,
    pub title: &'static str,
    /// The editable fields, then the reported ones, in a fixed order.
    pub fields: Vec<FieldView>,
    pub restart: RestartState,
    pub apply: ApplyState,
    /// Whether any field carries an unapplied edit.
    pub dirty: bool,
    /// The last failure that the host reported, if any.
    pub error: Option<SettingsError>,
}

/// The value of a [`SettingsPanelView`].
#[verifier::ext_equal]
pub struct PanelViewV {
    pub instance: Seq<char>,
    pub panel: PanelId,
    pub title: Seq<char>,
    pub fields: Seq<FieldV>,
    pub restart: RestartState,
    pub apply: ApplyV,
    pub dirty: bool,
    pub error: Option<SettingsErrorV>,
}

impl View for SettingsPanelView {
    type V = PanelViewV;

    open spec fn view(&self) -> PanelViewV {
        PanelViewV {
            instance: self.instance@,
            panel: self.panel,
            title: self.title@,
            fields: fields(self.fields@),
            restart: self.restart,
            apply: self.apply@,
            dirty: self.dirty,
            error: opt_settings_error(self.error),
        }
    }
}

// ---------------------------------------------------------------------------
// Failures
// ---------------------------------------------------------------------------

/// A settings failure, classified by what would have to change for the request
/// to succeed.
#[derive(Debug, PartialEq, Eq)]
pub enum SettingsError {
    /// No answer, or one that cannot be classified.
    Transport { message: String, retryable: bool },
    /// The caller lacks the capability.
    NotAuthorized {
        required: Capability,
        /// What the connection holds, when the daemon said.
        held: Option<Capability>,
        message: String,
    },
    /// A value was rejected, here or by the daemon.
    Validation { errors: Vec<FieldError> },
    /// The daemon does not implement the command, or has it switched off.
    Unsupported { message: String },
    /// The daemon cannot take the write until its configuration file is
    /// repaired.
    DaemonNotWritable { message: String },
}

/// The value of a [`SettingsError`].
#[verifier::ext_equal]
pub enum SettingsErrorV {
    Transport { message: Seq<char>, retryable: bool },
    NotAuthorized { required: CapabilityV, held: Option<CapabilityV>, message: Seq<char> },
    Validation { errors: Seq<FieldErrorV> },
    Unsupported { message: Seq<char> },
    DaemonNotWritable { message: Seq<char> },
}

impl View for SettingsError {
    type V = SettingsErrorV;

    open spec fn view(&self) -> SettingsErrorV {
        match *self {
            SettingsError::Transport { message, retryable } => SettingsErrorV::Transport {
                message: message@,
                retryable,
            },
            SettingsError::NotAuthorized { required, held, message } =>
                SettingsErrorV::NotAuthorized {
                    required: required@,
                    held: api::opt_capability(held),
                    message: message@,
                },
            SettingsError::Validation { errors } => SettingsErrorV::Validation {
                errors: field_errors(errors@),
            },
            SettingsError::Unsupported { message } => SettingsErrorV::Unsupported {
                message: message@,
            },
            SettingsError::DaemonNotWritable { message } => SettingsErrorV::DaemonNotWritable {
                message: message@,
            },
        }
    }
}

impl Clone for SettingsError {
    fn clone(&self) -> (r: Self)
        ensures
            r@ == self@,
    {
        match self {
            SettingsError::Transport { message, retryable } => SettingsError::Transport {
                message: message.clone(),
                retryable: *retryable,
            },
            SettingsError::NotAuthorized { required, held, message } =>
                SettingsError::NotAuthorized {
                    required: required.clone(),
                    held: held.clone(),
                    message: message.clone(),
                },
            SettingsError::Validation { errors } => SettingsError::Validation {
                errors: copied(errors),
            },
            SettingsError::Unsupported { message } => SettingsError::Unsupported {
                message: message.clone(),
            },
            SettingsError::DaemonNotWritable { message } => SettingsError::DaemonNotWritable {
                message: message.clone(),
            },
        }
    }
}

/// The value of an optional failure.
pub open spec fn opt_settings_error(e: Option<SettingsError>) -> Option<SettingsErrorV> {
    match e {
        Some(x) => Some(x@),
        None => None,
    }
}

/// The kind of a [`SettingsError`].
#[derive(Clone, Copy, Debug, PartialEq, Eq, Structural)]
pub enum SettingsErrorKind {
    Transport,
    NotAuthorized,
    Validation,
    Unsupported,
    DaemonNotWritable,
}

impl SettingsErrorKind {
    /// The kind's stable identifier.
    pub open spec fn name(self) -> Seq<char> {
        match self {
            SettingsErrorKind::Transport => "transport"@,
            SettingsErrorKind::NotAuthorized => "not_authorized"@,
            SettingsErrorKind::Validation => "validation"@,
            SettingsErrorKind::Unsupported => "unsupported"@,
            SettingsErrorKind::DaemonNotWritable => "daemon_not_writable"@,
        }
    }

    /// The kind's stable identifier.
    pub fn as_str(self) -> (r: &'static str)
        ensures
            r@ == self.name(),
    {
        match self {
            SettingsErrorKind::Transport => "transport",
            SettingsErrorKind::NotAuthorized => "not_authorized",
            SettingsErrorKind::Validation => "validation",
            SettingsErrorKind::Unsupported => "unsupported",
            SettingsErrorKind::DaemonNotWritable => "daemon_not_writable",
        }
    }
}

/// Whether an error code comes from the daemon's policy on URLs.
pub open spec fn is_url_code(code: Seq<char>) -> bool {
    ||| code == "url_malformed"@
    ||| code == "url_scheme_not_allowed"@
    ||| code == "url_insecure_scheme"@
    ||| code == "url_target_blocked"@
}

/// Whether an error code comes from the daemon's policy on URLs.
pub fn is_url_policy_code(code: &str) -> (r: bool)
    ensures
        r == is_url_code(code@),
{
    text::same(code, "url_malformed") || text::same(code, "url_scheme_not_allowed")
        || text::same(code, "url_insecure_scheme") || text::same(code, "url_target_blocked")
}

/// The messages of field errors.
pub open spec fn error_messages(s: Seq<FieldErrorV>) -> Seq<Seq<char>> {
    s.map_values(|e: FieldErrorV| e.message)
}

impl SettingsErrorV {
    /// The failure's kind.
    pub open spec fn kind(self) -> SettingsErrorKind {
        match self {
            SettingsErrorV::Transport { .. } => SettingsErrorKind::Transport,
            SettingsErrorV::NotAuthorized { .. } => SettingsErrorKind::NotAuthorized,
            SettingsErrorV::Validation { .. } => SettingsErrorKind::Validation,
            SettingsErrorV::Unsupported { .. } => SettingsErrorKind::Unsupported,
            SettingsErrorV::DaemonNotWritable { .. } => SettingsErrorKind::DaemonNotWritable,
        }
    }

    /// Whether repeating the request could succeed.
    pub open spec fn retryable(self) -> bool {
        match self {
            SettingsErrorV::Transport { retryable, .. } => retryable,
            _ => false,
        }
    }

    /// The text to show.
    pub open spec fn message(self) -> Seq<char> {
        match self {
            SettingsErrorV::Transport { message, .. } => message,
            SettingsErrorV::NotAuthorized { message, .. } => message,
            SettingsErrorV::Validation { errors } => text::joined(error_messages(errors), " "@),
            SettingsErrorV::Unsupported { message } => message,
            SettingsErrorV::DaemonNotWritable { message } => message,
        }
    }

    /// The classification of a daemon error. A refused URL is a judgement on a
    /// value, and lands on the panel's URL field.
    pub open spec fn of_daemon(
        detail: ErrorDetail,
        panel: PanelId,
        held: Option<CapabilityV>,
    ) -> SettingsErrorV {
        match detail.code {
            ErrorCode::NotAuthorized => SettingsErrorV::NotAuthorized {
                required: panel.required(),
                held,
                message: detail.message@,
            },
            ErrorCode::Unsupported => SettingsErrorV::Unsupported { message: detail.message@ },
            ErrorCode::NotFound => SettingsErrorV::Transport {
                message: detail.message@,
                retryable: detail.retryable,
            },
            ErrorCode::Other(code) => if is_url_code(code@) && panel.url_field_spec() is Some {
                SettingsErrorV::Validation {
                    errors: seq![
                        FieldErrorV {
                            field: panel.url_field_spec()->0,
                            kind: KindV::RefusedByDaemon(code@),
                            message: detail.message@,
                        },
                    ],
                }
            } else {
                SettingsErrorV::Transport {
                    message: detail.message@,
                    retryable: detail.retryable,
                }
            },
        }
    }
}

impl SettingsError {
    /// Classify a daemon error for `panel`. `held` is what the daemon last
    /// reported for the connection.
    pub fn from_daemon(detail: &ErrorDetail, panel: PanelId, held: Option<&Capability>) -> (r:
        SettingsError)
        ensures
            r@ == SettingsErrorV::of_daemon(
                *detail,
                panel,
                match held {
                    Some(c) => Some(c@),
                    None => None,
                },
            ),
    {
        let message = detail.message.clone();
        match &detail.code {
            ErrorCode::NotAuthorized => SettingsError::NotAuthorized {
                required: panel.write_capability(),
                held: match held {
                    Some(c) => Some(c.clone()),
                    None => None,
                },
                message,
            },
            ErrorCode::Unsupported => SettingsError::Unsupported { message },
            ErrorCode::NotFound => SettingsError::Transport {
                message,
                retryable: detail.retryable,
            },
            ErrorCode::Other(code) => {
                if is_url_policy_code(code.as_str()) {
                    if let Some(field) = panel.url_field() {
                        let errors = vec![
                            FieldError {
                                field,
                                kind: ValidationKind::RefusedByDaemon(code.clone()),
                                message,
                            },
                        ];
                        assert(field_errors(errors@) =~= seq![errors@[0]@]);
                        return SettingsError::Validation { errors };
                    }
                }
                SettingsError::Transport { message, retryable: detail.retryable }
            },
        }
    }

    /// A failure without an answer: the link broke. Retrying can help.
    pub fn from_link_failure(message: &str) -> (r: SettingsError)
        ensures
            r@ == (SettingsErrorV::Transport { message: message@, retryable: true }),
    {
        SettingsError::Transport { message: message.to_owned(), retryable: true }
    }

    /// The failure's kind.
    pub fn kind(&self) -> (r: SettingsErrorKind)
        ensures
            r == self@.kind(),
    {
        match self {
            SettingsError::Transport { .. } => SettingsErrorKind::Transport,
            SettingsError::NotAuthorized { .. } => SettingsErrorKind::NotAuthorized,
            SettingsError::Validation { .. } => SettingsErrorKind::Validation,
            SettingsError::Unsupported { .. } => SettingsErrorKind::Unsupported,
            SettingsError::DaemonNotWritable { .. } => SettingsErrorKind::DaemonNotWritable,
        }
    }

    /// Whether repeating the request could succeed. Only a transport failure's
    /// repetition can.
    pub fn retryable(&self) -> (r: bool)
        ensures
            r == self@.retryable(),
    {
        match self {
            SettingsError::Transport { message: _, retryable } => *retryable,
            _ => false,
        }
    }

    /// The text to show.
    pub fn message(&self) -> (r: String)
        ensures
            r@ == self@.message(),
    {
        match self {
            SettingsError::Transport { message, retryable: _ } => message.clone(),
            SettingsError::NotAuthorized { required: _, held: _, message } => message.clone(),
            SettingsError::Unsupported { message } => message.clone(),
            SettingsError::DaemonNotWritable { message } => message.clone(),
            SettingsError::Validation { errors } => {
                let mut parts: Vec<String> = Vec::new();
                let ghost all = error_messages(field_errors(errors@));
                let mut i: usize = 0;
                assert(text::views(parts@) =~= all.take(0));
                while i < errors.len()
                    invariant
                        i <= errors@.len(),
                        all == error_messages(field_errors(errors@)),
                        text::views(parts@) == all.take(i as int),
                    decreases errors@.len() - i,
                {
                    let ghost done = text::views(parts@);
                    parts.push(errors[i].message.clone());
                    proof {
                        assert(text::views(parts@) == done.push(errors@[i as int].message@));
                        assert(all[i as int] == errors@[i as int].message@);
                        assert(all.take(i + 1) == all.take(i as int).push(all[i as int]));
                    }
                    i += 1;
                }
                assert(all.take(all.len() as int) == all);
                text::join(&parts, " ")
            },
        }
    }

    /// The kind and the message, for a log.
    pub fn to_string(&self) -> (r: String)
        ensures
            r@ == self@.kind().name() + ": "@ + self@.message(),
    {
        let mut s = text::concat(self.kind().as_str(), ": ");
        s.append(self.message().as_str());
        s
    }
}

// ---------------------------------------------------------------------------
// Context
// ---------------------------------------------------------------------------

/// What a panel needs to know about its daemon besides the values.
#[derive(Clone, Debug, PartialEq, Eq)]
pub struct DaemonContext {
    pub instance: InstanceId,
    /// What the connection may do. `None` is a claim about the daemon, that it
    /// reports no capability; not that nobody asked.
    pub caller_capability: Option<Capability>,
    /// The restart report, verbatim.
    pub restart_required: Vec<String>,
}

/// The value of a [`DaemonContext`].
#[verifier::ext_equal]
pub struct ContextV {
    pub instance: Seq<char>,
    pub caller_capability: Option<CapabilityV>,
    pub restart_required: Seq<Seq<char>>,
}

impl View for DaemonContext {
    type V = ContextV;

    open spec fn view(&self) -> ContextV {
        ContextV {
            instance: self.instance@,
            caller_capability: api::opt_capability(self.caller_capability),
            restart_required: text::views(self.restart_required@),
        }
    }
}

impl DaemonContext {
    /// Read the context out of the daemon's configuration.
    pub fn from_config(instance: InstanceId, config: &Config) -> (r: DaemonContext)
        ensures
            r@ == (ContextV {
                instance: instance@,
                caller_capability: api::opt_capability(config.caller_capability),
                restart_required: text::views(config.restart_required@),
            }),
    {
        let restart_required = config.restart_required.clone();
        assert(text::views(restart_required@) =~= text::views(config.restart_required@));
        DaemonContext {
            instance,
            caller_capability: config.caller_capability.clone(),
            restart_required,
        }
    }
}

// ---------------------------------------------------------------------------
// Laws
// ---------------------------------------------------------------------------

/// Reading a key and asking for it again gives the key, known or not.
pub proof fn area_keys_are_kept(key: Seq<char>)
    ensures
        AreaV::of_key(key).key() == key,
{
}

/// A known area is read back from its key.
pub proof fn known_areas_are_read_back(area: AreaV)
    requires
        !(area is Other),
    ensures
        AreaV::of_key(area.key()) == area,
{
    reveal_strlit("config_load_failed");
    reveal_strlit("database");
    reveal_strlit("embeddings");
    reveal_strlit("ws_auth");
    reveal_strlit("tls");
    reveal_strlit("authz");
    reveal_strlit("recall");
    assert("config_load_failed"@.len() == 18);
    assert("database"@.len() == 8);
    assert("embeddings"@.len() == 10);
    assert("ws_auth"@.len() == 7);
    assert("tls"@.len() == 3);
    assert("authz"@.len() == 5);
    assert("recall"@.len() == 6);
}

/// No two fields share a key.
pub proof fn field_keys_are_distinct(a: FieldId, b: FieldId)
    requires
        a.key() == b.key(),
    ensures
        a == b,
{
    reveal_strlit("connector");
    reveal_strlit("model");
    reveal_strlit("base_url");
    reveal_strlit("api_key_present");
    reveal_strlit("available");
    reveal_strlit("is_default");
    reveal_strlit("health");
    assert(FieldId::Connector.key()[0] == 'c');
    assert(FieldId::Model.key()[0] == 'm');
    assert(FieldId::BaseUrl.key()[0] == 'b');
    assert(FieldId::ApiKeyPresent.key()[1] == 'p');
    assert(FieldId::ApiKeyPresent.key()[0] == 'a');
    assert(FieldId::Available.key()[1] == 'v');
    assert(FieldId::Available.key()[0] == 'a');
    assert(FieldId::IsDefault.key()[0] == 'i');
    assert(FieldId::Health.key()[0] == 'h');
}

/// No two kinds of failure share an identifier.
pub proof fn kind_names_are_distinct(a: SettingsErrorKind, b: SettingsErrorKind)
    requires
        a.name() == b.name(),
    ensures
        a == b,
{
    reveal_strlit("transport");
    reveal_strlit("not_authorized");
    reveal_strlit("validation");
    reveal_strlit("unsupported");
    reveal_strlit("daemon_not_writable");
    assert(SettingsErrorKind::Transport.name()[0] == 't');
    assert(SettingsErrorKind::NotAuthorized.name()[0] == 'n');
    assert(SettingsErrorKind::Validation.name()[0] == 'v');
    assert(SettingsErrorKind::Unsupported.name()[0] == 'u');
    assert(SettingsErrorKind::DaemonNotWritable.name()[0] == 'd');
}

/// Only a transport failure can be worth retrying.
pub proof fn only_transport_failures_are_retryable(error: SettingsErrorV)
    requires
        error.retryable(),
    ensures
        error.kind() == SettingsErrorKind::Transport,
{
}

/// A daemon that runs on defaults is read-only whatever the connection holds. On
/// any other, an administrator may write and a tenant may not, an unknown
/// capability grants nothing, and a daemon that reports no capability takes the
/// write.
pub proof fn editability_rules(panel: PanelId, held: Option<CapabilityV>, restart: RestartState)
    ensures
        EditabilityV::of_panel(panel, held, RestartState::ConfigNotLoaded)
            == EditabilityV::ReadOnly(ReasonV::ConfigNotLoaded),
        held is Some && held->0 is Other ==> EditabilityV::of_panel(
            panel,
            held,
            restart,
        ) is ReadOnly,
        restart != RestartState::ConfigNotLoaded ==> EditabilityV::of_panel(
            panel,
            None,
            restart,
        ) is Editable,
        EditabilityV::of_panel(panel, held, RestartState::RestartRequired)
            == EditabilityV::of_panel(panel, held, RestartState::InForce),
        restart != RestartState::ConfigNotLoaded ==> EditabilityV::of_panel(
            panel,
            Some(CapabilityV::Admin),
            restart,
        ) is Editable,
        restart != RestartState::ConfigNotLoaded ==> EditabilityV::of_panel(
            panel,
            Some(CapabilityV::Tenant),
            restart,
        ) == EditabilityV::ReadOnly(
            ReasonV::CapabilityRequired {
                required: CapabilityV::Admin,
                held: Some(CapabilityV::Tenant),
            },
        ),
{
}

/// A panel's own area asks for a restart, no other area does, and a file that did
/// not load outranks both, wherever in the report they stand.
pub proof fn restart_rules(panel: PanelId, report: Seq<Seq<char>>, area: AreaV)
    requires
        report.contains(area.key()),
    ensures
        area == AreaV::ConfigLoadFailed ==> RestartState::of_report(panel, report)
            == RestartState::ConfigNotLoaded,
        area == panel.area() ==> RestartState::of_report(panel, report) != RestartState::InForce,
        (forall|key: Seq<char>|
            #[trigger] report.contains(key) ==> AreaV::of_key(key) != panel.area() && AreaV::of_key(
                key,
            ) != AreaV::ConfigLoadFailed) ==> RestartState::of_report(panel, report)
            == RestartState::InForce,
{
    known_areas_are_read_back(AreaV::ConfigLoadFailed);
    known_areas_are_read_back(panel.area());
}

/// A value in the form in which it is stored is stored as it is.
pub proof fn normalizing_is_idempotent(value: Seq<char>)
    requires
        normalized(value) is Some,
    ensures
        normalized(normalized(value)->0) == normalized(value),
{
    text::trim_idempotent(value);
}

/// A blank value clears the setting, and no other does.
pub proof fn a_blank_value_clears(value: Seq<char>)
    ensures
        normalized(value) is None <==> text::is_blank(value),
{
    text::trim_empty_iff_blank(value);
}

/// Whether text can be read as a host and what follows it: a host holds none of the
/// three characters that end one, and what follows is empty or begins with one.
pub open spec fn parts_at_host(h: Seq<char>, rest: Seq<char>) -> bool {
    &&& forall|i: int|
        0 <= i < h.len() ==> (#[trigger] h[i]) != '/' && h[i] != '?' && h[i] != '#'
    &&& rest.len() > 0 ==> rest[0] == '/' || rest[0] == '?' || rest[0] == '#'
}

/// Text without its scheme has one reading as a host and what follows it.
pub proof fn a_host_is_parted_in_one_way(h: Seq<char>, rest: Seq<char>)
    requires
        parts_at_host(h, rest),
    ensures
        host(h + rest) == h,
    decreases h.len(),
{
    if h.len() == 0 {
        assert(h + rest =~= rest);
    } else {
        assert((h + rest)[0] == h[0]);
        assert((h + rest).skip(1) =~= h.skip(1) + rest);
        assert forall|i: int| 0 <= i < h.skip(1).len() implies (#[trigger] h.skip(1)[i]) != '/'
            && h.skip(1)[i] != '?' && h.skip(1)[i] != '#' by {
            assert(h.skip(1)[i] == h[i + 1]);
        }
        a_host_is_parted_in_one_way(h.skip(1), rest);
        assert(seq![h[0]] + h.skip(1) =~= h);
    }
}

/// Any text without its scheme can be read as a host and what follows it.
pub proof fn every_text_is_parted_at_its_host(s: Seq<char>)
    ensures
        host(s).len() <= s.len(),
        s == host(s) + s.skip(host(s).len() as int),
        parts_at_host(host(s), s.skip(host(s).len() as int)),
    decreases s.len(),
{
    if s.len() == 0 || ends_host(s[0]) {
        assert(s.skip(0) =~= s);
        assert(host(s) + s =~= s);
    } else {
        let t = s.skip(1);
        every_text_is_parted_at_its_host(t);
        let n = host(t).len() as int;
        assert(s.skip(n + 1) =~= t.skip(n));
        assert(s =~= seq![s[0]] + t);
        assert(host(s) + s.skip(n + 1) =~= seq![s[0]] + (host(t) + t.skip(n)));
        assert forall|i: int| 0 <= i < host(s).len() implies (#[trigger] host(s)[i]) != '/'
            && host(s)[i] != '?' && host(s)[i] != '#' by {
            if i > 0 {
                assert(host(s)[i] == host(t)[i - 1]);
            }
        }
    }
}

/// Whether text is one of the two web schemes, a host free of white space, and
/// anything that begins with a character that ends a host.
pub open spec fn is_spelled_out(
    s: Seq<char>,
    scheme: Seq<char>,
    h: Seq<char>,
    rest: Seq<char>,
) -> bool {
    &&& s == scheme + h + rest
    &&& scheme == "http://"@ || scheme == "https://"@
    &&& h.len() > 0
    &&& parts_at_host(h, rest)
    &&& forall|i: int| 0 <= i < h.len() ==> !text::is_white_space(#[trigger] h[i])
}

/// A value is a base URL exactly when it can be spelled out, white space around it and
/// the case of its letters aside, as one of the two web schemes, a host and a
/// remainder.
pub proof fn a_base_url_can_be_spelled_out(
    value: Seq<char>,
    scheme: Seq<char>,
    h: Seq<char>,
    rest: Seq<char>,
)
    ensures
        is_spelled_out(text::ascii_lower(text::trim(value)), scheme, h, rest) ==> is_base_url(
            value,
        ),
        is_base_url(value) ==> exists|scheme: Seq<char>, h: Seq<char>, rest: Seq<char>|
            is_spelled_out(text::ascii_lower(text::trim(value)), scheme, h, rest),
{
    let s = text::ascii_lower(text::trim(value));
    reveal_strlit("http://");
    reveal_strlit("https://");
    if is_spelled_out(s, scheme, h, rest) {
        assert(s =~= scheme + (h + rest));
        text::a_prefix_can_be_completed(scheme, h + rest, s);
        assert(s.skip(scheme.len() as int) =~= h + rest);
        a_host_is_parted_in_one_way(h, rest);
        if scheme == "https://"@ {
            assert(s[4] == 's');
            assert(s.take(7)[4] != "http://"@[4]);
        }
    }
    if is_base_url(value) {
        let after = after_scheme(value)->0;
        let scheme1 = if text::begins(s, "http://"@) {
            "http://"@
        } else {
            "https://"@
        };
        text::a_prefix_can_be_completed(scheme1, Seq::empty(), s);
        every_text_is_parted_at_its_host(after);
        let rest1 = after.skip(host(after).len() as int);
        assert(s =~= scheme1 + host(after) + rest1);
        assert(is_spelled_out(s, scheme1, host(after), rest1));
    }
}

/// Only an administrator, or any connection of a daemon that reports no capability,
/// may write the panel, and nobody while the configuration file is not loaded.
/// Whoever may not is told what is needed and what is held.
pub proof fn the_panel_is_written_by_administrators(
    held: Option<CapabilityV>,
    restart: RestartState,
)
    ensures
        EditabilityV::of_panel(PanelId::Embeddings, held, restart) == if restart
            == RestartState::ConfigNotLoaded {
            EditabilityV::ReadOnly(ReasonV::ConfigNotLoaded)
        } else if held is None || held == Some(CapabilityV::Admin) {
            EditabilityV::Editable
        } else {
            EditabilityV::ReadOnly(
                ReasonV::CapabilityRequired { required: CapabilityV::Admin, held },
            )
        },
{
}

/// The restart report speaks of the panel by one key and of the file by another, and
/// by no other key.
pub proof fn two_keys_speak_of_the_panel(report: Seq<Seq<char>>)
    ensures
        ({
            let state = RestartState::of_report(PanelId::Embeddings, report);
            let failed = exists|i: int| 0 <= i < report.len() && #[trigger] report[i]
                == "config_load_failed"@;
            let pending = exists|i: int| 0 <= i < report.len() && #[trigger] report[i]
                == "embeddings"@;
            &&& state == RestartState::ConfigNotLoaded <==> failed
            &&& state == RestartState::RestartRequired <==> !failed && pending
        }),
{
    let (file, own) = ("config_load_failed"@, "embeddings"@);
    assert(report.contains(file) <==> exists|i: int|
        0 <= i < report.len() && #[trigger] report[i] == file);
    assert(report.contains(own) <==> exists|i: int|
        0 <= i < report.len() && #[trigger] report[i] == own);
}

/// What each kind of daemon error becomes. Only one of the four codes on URLs is a
/// judgement on a value, and only it is shown at a field; whatever is said, the
/// daemon's own words are kept.
pub proof fn daemon_errors_are_told_apart(detail: ErrorDetail, held: Option<CapabilityV>)
    ensures
        ({
            let error = SettingsErrorV::of_daemon(detail, PanelId::Embeddings, held);
            let words = detail.message@;
            match detail.code {
                ErrorCode::NotAuthorized => error == (SettingsErrorV::NotAuthorized {
                    required: CapabilityV::Admin,
                    held,
                    message: words,
                }),
                ErrorCode::Unsupported => error == (SettingsErrorV::Unsupported { message: words }),
                ErrorCode::NotFound => error == (SettingsErrorV::Transport {
                    message: words,
                    retryable: detail.retryable,
                }),
                ErrorCode::Other(code) => if code@ == "url_malformed"@ || code@
                    == "url_scheme_not_allowed"@ || code@ == "url_insecure_scheme"@ || code@
                    == "url_target_blocked"@ {
                    error == (SettingsErrorV::Validation {
                        errors: seq![
                            FieldErrorV {
                                field: FieldId::BaseUrl,
                                kind: KindV::RefusedByDaemon(code@),
                                message: words,
                            },
                        ],
                    })
                } else {
                    error == (SettingsErrorV::Transport {
                        message: words,
                        retryable: detail.retryable,
                    })
                },
            }
        }),
        SettingsErrorV::of_daemon(detail, PanelId::Embeddings, held).message() == detail.message@,
        SettingsErrorV::of_daemon(detail, PanelId::Embeddings, held).retryable() ==> detail.retryable,
{
    let error = SettingsErrorV::of_daemon(detail, PanelId::Embeddings, held);
    if error is Validation {
        let parts = error_messages(error->errors);
        assert(parts =~= seq![detail.message@]);
    }
}

/// A failure shows its own words; one about values shows the words of each, in order,
/// with a space between.
pub proof fn a_failure_shows_its_words(words: Seq<char>, first: Seq<FieldErrorV>, last: FieldErrorV)
    ensures
        forall|b: bool|
            #![auto]
            (SettingsErrorV::Transport { message: words, retryable: b }).message() == words && (
            SettingsErrorV::Transport { message: words, retryable: b }).retryable() == b,
        forall|r: CapabilityV, h: Option<CapabilityV>|
            #![auto]
            (SettingsErrorV::NotAuthorized { required: r, held: h, message: words }).message()
                == words,
        (SettingsErrorV::Unsupported { message: words }).message() == words,
        (SettingsErrorV::DaemonNotWritable { message: words }).message() == words,
        (SettingsErrorV::Validation { errors: first.push(last) }).message() == if first.len() == 0 {
            last.message
        } else {
            (SettingsErrorV::Validation { errors: first }).message() + " "@ + last.message
        },
        (SettingsErrorV::Validation { errors: Seq::empty() }).message() == Seq::<char>::empty(),
        !(SettingsErrorV::Unsupported { message: words }).retryable(),
        !(SettingsErrorV::DaemonNotWritable { message: words }).retryable(),
        !(SettingsErrorV::Validation { errors: first }).retryable(),
{
    let all = error_messages(first.push(last));
    assert(all.drop_last() =~= error_messages(first));
    assert(all.last() == last.message);
    assert(error_messages(Seq::<FieldErrorV>::empty()) =~= Seq::empty());
}

/// Whoever may not write is told which capability is needed and, where the daemon said,
/// which one is held.
pub proof fn a_refusal_names_the_capabilities(required: Seq<char>, held: Seq<char>)
    ensures
        (ReasonV::CapabilityRequired {
            required: CapabilityV::Other(required),
            held: Some(CapabilityV::Other(held)),
        }).message() == "Changing this needs the "@ + required
            + " capability. This connection has "@ + held + "."@,
        (ReasonV::CapabilityRequired {
            required: CapabilityV::Other(required),
            held: None,
        }).message() == "Changing this needs the "@ + required + " capability."@,
        (ReasonV::CapabilityRequired {
            required: CapabilityV::Admin,
            held: Some(CapabilityV::Tenant),
        }).message() == "Changing this needs the "@ + "admin"@
            + " capability. This connection has "@ + "tenant"@ + "."@,
{
}

/// The keys of the restart report, each with its area, and no others: a key that is
/// none of them is kept as it is.
pub proof fn each_key_has_its_area(key: Seq<char>)
    ensures
        AreaV::of_key(key) is ConfigLoadFailed <==> key == "config_load_failed"@,
        AreaV::of_key(key) is Database <==> key == "database"@,
        AreaV::of_key(key) is Embeddings <==> key == "embeddings"@,
        AreaV::of_key(key) is WsAuth <==> key == "ws_auth"@,
        AreaV::of_key(key) is Tls <==> key == "tls"@,
        AreaV::of_key(key) is Authz <==> key == "authz"@,
        AreaV::of_key(key) is Recall <==> key == "recall"@,
        AreaV::of_key(key) is Other ==> AreaV::of_key(key) == AreaV::Other(key),
{
    known_areas_are_read_back(AreaV::ConfigLoadFailed);
    known_areas_are_read_back(AreaV::Database);
    known_areas_are_read_back(AreaV::Embeddings);
    known_areas_are_read_back(AreaV::WsAuth);
    known_areas_are_read_back(AreaV::Tls);
    known_areas_are_read_back(AreaV::Authz);
    known_areas_are_read_back(AreaV::Recall);
}

/// A typed value is stored without the white space around it, and a value of nothing
/// but white space is not stored.
pub proof fn a_typed_value_is_stored_trimmed(before: Seq<char>, value: Seq<char>, after: Seq<char>)
    requires
        forall|i: int| 0 <= i < before.len() ==> text::is_white_space(#[trigger] before[i]),
        forall|i: int| 0 <= i < after.len() ==> text::is_white_space(#[trigger] after[i]),
        value.len() > 0 ==> !text::is_white_space(value[0]),
        value.len() > 0 ==> !text::is_white_space(value.last()),
    ensures
        normalized(before + value + after) == if value.len() == 0 {
            None
        } else {
            Some(value)
        },
{
    text::trim_ignores_what_is_around(before, value, after);
}

/// A field's key and a failure's identifier are words that a client can store.
pub proof fn keys_and_identifiers_are_stable()
    ensures
        FieldId::Connector.key() == "connector"@,
        FieldId::Model.key() == "model"@,
        FieldId::BaseUrl.key() == "base_url"@,
        FieldId::ApiKeyPresent.key() == "api_key_present"@,
        FieldId::Available.key() == "available"@,
        FieldId::IsDefault.key() == "is_default"@,
        FieldId::Health.key() == "health"@,
        SettingsErrorKind::Transport.name() == "transport"@,
        SettingsErrorKind::NotAuthorized.name() == "not_authorized"@,
        SettingsErrorKind::Validation.name() == "validation"@,
        SettingsErrorKind::Unsupported.name() == "unsupported"@,
        SettingsErrorKind::DaemonNotWritable.name() == "daemon_not_writable"@,
{
}

/// A failure is of the kind that it is.
pub proof fn a_failure_has_its_kind(error: SettingsErrorV)
    ensures
        error.kind() == SettingsErrorKind::Transport <==> error is Transport,
        error.kind() == SettingsErrorKind::NotAuthorized <==> error is NotAuthorized,
        error.kind() == SettingsErrorKind::Validation <==> error is Validation,
        error.kind() == SettingsErrorKind::Unsupported <==> error is Unsupported,
        error.kind() == SettingsErrorKind::DaemonNotWritable <==> error is DaemonNotWritable,
{
}

/// What is said to whoever finds a field read-only.
pub proof fn a_read_only_field_says_why()
    ensures
        ReasonV::Derived.message()
            == "The daemon reports this. It is not a setting you can change."@,
        ReasonV::ConfigNotLoaded.message()
            == "The daemon could not read its config file and is running built-in defaults. Repair the file before you change these settings."@,
{
}

} // verus!
