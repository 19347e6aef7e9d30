//! The rows of the MCP-servers panel.
//!
//! The panel merges the servers that the daemon runs with those that the client
//! runs, external or compiled in. The host resolves both into plain data; this
//! module tags, sanitizes, sorts and filters.
//!
//! The transport chip reports the real transport, never a guess at "local" or
//! "remote", and a runner's label names a host only when the link is remote.

use vstd::prelude::*;

use crate::api::McpServerView;
use crate::text;
use crate::text::Side;

verus! {

/// Where an MCP server runs.
#[derive(Clone, Copy, Debug, PartialEq, Eq, Structural)]
pub enum Runner {
    /// In the client.
    Client,
    /// In the daemon, or on its behalf.
    Daemon,
}

impl Runner {
    /// The rank that orders rows of one name.
    pub open spec fn rank(self) -> u8 {
        match self {
            Runner::Daemon => 0,
            Runner::Client => 1,
        }
    }

    /// The rank that orders rows of one name: the daemon's come first.
    pub fn sort_rank(self) -> (r: u8)
        ensures
            r == self.rank(),
    {
        match self {
            Runner::Daemon => 0,
            Runner::Client => 1,
        }
    }
}

/// Which rows the panel shows.
#[derive(Clone, Copy, Debug, PartialEq, Eq, Default, Structural)]
pub enum RunnerFilter {
    /// Every row.
    #[default]
    All,
    /// The daemon's rows.
    Daemon,
    /// The client's rows.
    Client,
}

impl RunnerFilter {
    /// Whether the filter lets a runner's rows through.
    pub open spec fn admits(self, runner: Runner) -> bool {
        match self {
            RunnerFilter::All => true,
            RunnerFilter::Daemon => runner == Runner::Daemon,
            RunnerFilter::Client => runner == Runner::Client,
        }
    }
}

/// How an MCP server is hosted.
#[derive(Clone, Copy, Debug, PartialEq, Eq, Structural)]
pub enum ServerKind {
    /// A process speaking MCP over stdio.
    Stdio,
    /// An endpoint speaking MCP over HTTP.
    Http,
    /// Compiled into the client.
    BuiltIn,
}

impl ServerKind {
    /// The kind of an external server, by its transport.
    pub open spec fn of_transport(transport: Seq<char>) -> ServerKind {
        if transport == "http"@ {
            ServerKind::Http
        } else {
            ServerKind::Stdio
        }
    }

    /// The chip text of a kind.
    pub open spec fn label(self) -> Seq<char> {
        match self {
            ServerKind::Stdio => "stdio"@,
            ServerKind::Http => "http"@,
            ServerKind::BuiltIn => "built-in"@,
        }
    }

    /// The kind of an external server: HTTP when its transport is `"http"`, stdio
    /// otherwise.
    pub fn from_transport(transport: &str) -> (r: ServerKind)
        ensures
            r == Self::of_transport(transport@),
    {
        if text::same(transport, "http") {
            ServerKind::Http
        } else {
            ServerKind::Stdio
        }
    }
}

/// One external server that the client runs.
#[derive(Clone, Debug, PartialEq, Eq)]
pub struct ClientServerDto {
    pub name: String,
    /// `"stdio"` or `"http"`.
    pub transport: String,
    pub status: String,
    pub tool_count: u32,
}

/// One server compiled into the client.
#[derive(Clone, Debug, PartialEq, Eq)]
pub struct BuiltinServerDto {
    /// The server's name, which an external server of the same name overrides.
    pub name: String,
    /// The namespace of its tools.
    pub namespace: String,
    pub tool_count: u32,
    /// The external server that overrides this one, if one does.
    pub overridden_by: Option<String>,
    /// Whether the client's configuration turns this server off. Takes
    /// precedence over an override in the displayed reason.
    pub disabled_by_config: bool,
}

/// One row of the panel.
#[derive(Debug, PartialEq, Eq)]
pub struct ServerRow {
    pub name: String,
    pub runner: Runner,
    /// See [`transport_chip`].
    pub transport: String,
    pub status: String,
    pub tool_count: u32,
    pub detail: Option<String>,
    /// See [`kind_label`].
    pub kind: ServerKind,
    /// Why the row is disabled; `None` when it is active.
    pub disabled_reason: Option<String>,
    /// What the server calls itself, sanitized. See [`display_name`].
    pub title: Option<String>,
    /// What the server says it offers, sanitized.
    pub description: Option<String>,
    /// The server's home page, when it is an `http` or `https` URL.
    pub website_url: Option<String>,
}

/// The value of a [`ServerRow`].
#[verifier::ext_equal]
pub struct RowV {
    pub name: Seq<char>,
    pub runner: Runner,
    pub transport: Seq<char>,
    pub status: Seq<char>,
    pub tool_count: u32,
    pub detail: Option<Seq<char>>,
    pub kind: ServerKind,
    pub disabled_reason: Option<Seq<char>>,
    pub title: Option<Seq<char>>,
    pub description: Option<Seq<char>>,
    pub website_url: Option<Seq<char>>,
}

impl View for ServerRow {
    type V = RowV;

    open spec fn view(&self) -> RowV {
        RowV {
            name: self.name@,
            runner: self.runner,
            transport: self.transport@,
            status: self.status@,
            tool_count: self.tool_count,
            detail: text::opt_view(self.detail),
            kind: self.kind,
            disabled_reason: text::opt_view(self.disabled_reason),
            title: text::opt_view(self.title),
            description: text::opt_view(self.description),
            website_url: text::opt_view(self.website_url),
        }
    }
}

impl Clone for ServerRow {
    fn clone(&self) -> (r: Self)
        ensures
            r == *self,
    {
        ServerRow {
            name: self.name.clone(),
            runner: self.runner,
            transport: self.transport.clone(),
            status: self.status.clone(),
            tool_count: self.tool_count,
            detail: self.detail.clone(),
            kind: self.kind,
            disabled_reason: self.disabled_reason.clone(),
            title: self.title.clone(),
            description: self.description.clone(),
            website_url: self.website_url.clone(),
        }
    }
}

/// The values of a list of rows.
pub open spec fn rows(s: Seq<ServerRow>) -> Seq<RowV> {
    s.map_values(|r: ServerRow| r@)
}

// ---------------------------------------------------------------------------
// Declared text
// ---------------------------------------------------------------------------

/// The greatest length of a declared text, in characters. The text is authored
/// by the server, and must not push the rest of a row off the screen.
pub const MAX_DESCRIPTION_CHARS: usize = 200;

/// Text without control codes other than white space.
pub open spec fn cleaned(s: Seq<char>) -> Seq<char> {
    s.filter(|c: char| text::is_white_space(c) || !text::is_control_code(c))
}

/// The first `max` characters.
pub open spec fn clamped(s: Seq<char>, max: nat) -> Seq<char> {
    if s.len() <= max {
        s
    } else {
        s.take(max as int)
    }
}

/// A declared text as it is displayed: every run of white space is one space,
/// other control codes are gone, at most `max` characters are left, and the ends
/// are trimmed. `None` when nothing is left.
pub open spec fn declared(s: Seq<char>, max: nat) -> Option<Seq<char>> {
    let t = text::trim(clamped(text::squeezed(cleaned(s)), max));
    if t.len() == 0 {
        None
    } else {
        Some(t)
    }
}

/// An optional declared text as it is displayed.
pub open spec fn opt_declared(s: Option<Seq<char>>) -> Option<Seq<char>> {
    match s {
        Some(t) => declared(t, MAX_DESCRIPTION_CHARS as nat),
        None => None,
    }
}

/// Whether text begins like an `http` or `https` URL, in either case.
pub open spec fn is_web_address(s: Seq<char>) -> bool {
    text::begins(text::ascii_lower(s), "http://"@) || text::begins(
        text::ascii_lower(s),
        "https://"@,
    )
}

/// A declared website, when it is an `http` or `https` URL.
pub open spec fn website(s: Option<Seq<char>>) -> Option<Seq<char>> {
    match opt_declared(s) {
        Some(t) => if is_web_address(t) {
            Some(t)
        } else {
            None
        },
        None => None,
    }
}

/// Sanitize a declared text for display (see [`declared`]).
pub fn sanitize_declared(value: &str, max_chars: usize) -> (r: Option<String>)
    ensures
        text::opt_view(r) == declared(value@, max_chars as nat),
{
    let chars = text::chars_of(value);
    let mut kept: Vec<char> = Vec::new();
    let mut i: usize = 0;
    let ghost keep = |c: char| text::is_white_space(c) || !text::is_control_code(c);
    assert(value@.take(0).filter(keep) =~= Seq::<char>::empty()) by {
        reveal_with_fuel(Seq::filter, 1);
    }
    while i < chars.len()
        invariant
            i <= chars@.len(),
            chars@ == value@,
            keep == (|c: char| text::is_white_space(c) || !text::is_control_code(c)),
            kept@ == value@.take(i as int).filter(keep),
        decreases chars@.len() - i,
    {
        let c = chars[i];
        proof {
            reveal_with_fuel(Seq::filter, 1);
            assert(value@.take(i + 1).drop_last() == value@.take(i as int));
            assert(value@.take(i + 1).last() == c);
        }
        if c.is_whitespace() || !c.is_control() {
            kept.push(c);
        }
        i += 1;
    }
    assert(value@.take(value@.len() as int) == value@);
    let squeezed = text::squeeze(&kept);
    let to: usize = if squeezed.len() <= max_chars {
        squeezed.len()
    } else {
        max_chars
    };
    let clamped = text::from_chars(&squeezed, 0, to);
    assert(clamped@ =~= self::clamped(squeezed@, max_chars as nat));
    let out = text::trimmed(clamped.as_str());
    if out.as_str().is_empty() {
        None
    } else {
        Some(out)
    }
}

fn opt_sanitized(value: &Option<String>) -> (r: Option<String>)
    ensures
        text::opt_view(r) == opt_declared(text::opt_view(*value)),
{
    match value {
        Some(t) => sanitize_declared(t.as_str(), MAX_DESCRIPTION_CHARS),
        None => None,
    }
}

/// Sanitize a declared website: only an `http` or `https` URL is accepted, so
/// that nothing else becomes a link.
pub fn sanitized_website(value: &str) -> (r: Option<String>)
    ensures
        text::opt_view(r) == website(Some(value@)),
{
    match sanitize_declared(value, MAX_DESCRIPTION_CHARS) {
        Some(url) => {
            let lower = text::chars_of(text::lower(url.as_str()).as_str());
            if text::begins_with(&lower, "http://") || text::begins_with(&lower, "https://") {
                Some(url)
            } else {
                None
            }
        },
        None => None,
    }
}

// ---------------------------------------------------------------------------
// Labels
// ---------------------------------------------------------------------------

/// The label of a row: the server's declared title, or its name without one.
pub fn display_name(row: &ServerRow) -> (r: &str)
    ensures
        r@ == (match row@.title {
            Some(t) => t,
            None => row@.name,
        }),
{
    match &row.title {
        Some(t) => t.as_str(),
        None => row.name.as_str(),
    }
}

/// The label of a runner: `"client"`, `"daemon"`, or the daemon with its host
/// when the link to it is remote and the host is known.
pub fn runner_label(runner: Runner, is_remote: bool, host: Option<&str>) -> (r: String)
    ensures
        r@ == (match runner {
            Runner::Client => "client"@,
            Runner::Daemon => if is_remote && host is Some {
                "daemon · "@ + host->0@
            } else {
                "daemon"@
            },
        }),
{
    match runner {
        Runner::Client => "client".to_owned(),
        Runner::Daemon => match (is_remote, host) {
            (true, Some(host)) => text::concat("daemon · ", host),
            _ => "daemon".to_owned(),
        },
    }
}

/// The chip text of a transport.
pub open spec fn chip(transport: Seq<char>) -> Seq<char> {
    if transport == "http"@ {
        "http"@
    } else {
        "stdio"@
    }
}

/// The chip text of a transport: `"http"`, or `"stdio"` for anything else.
pub fn transport_chip(transport: &str) -> (r: &'static str)
    ensures
        r@ == chip(transport@),
{
    if text::same(transport, "http") {
        "http"
    } else {
        "stdio"
    }
}

/// The chip text of a kind: `"stdio"`, `"http"` or `"built-in"`.
pub fn kind_label(kind: ServerKind) -> (r: &'static str)
    ensures
        r@ == kind.label(),
{
    match kind {
        ServerKind::Stdio => "stdio",
        ServerKind::Http => "http",
        ServerKind::BuiltIn => "built-in",
    }
}

// ---------------------------------------------------------------------------
// Rows
// ---------------------------------------------------------------------------

/// The row of a server that the daemon runs.
pub open spec fn daemon_row(d: McpServerView) -> RowV {
    RowV {
        name: d.name@,
        runner: Runner::Daemon,
        transport: d.transport@,
        status: d.status@,
        tool_count: d.tool_count,
        detail: text::opt_view(d.detail),
        kind: ServerKind::of_transport(d.transport@),
        disabled_reason: None,
        title: opt_declared(text::opt_view(d.title)),
        description: opt_declared(text::opt_view(d.description)),
        website_url: website(text::opt_view(d.website_url)),
    }
}

/// The row of an external server that the client runs.
pub open spec fn client_row(c: ClientServerDto) -> RowV {
    RowV {
        name: c.name@,
        runner: Runner::Client,
        transport: c.transport@,
        status: c.status@,
        tool_count: c.tool_count,
        detail: None,
        kind: ServerKind::of_transport(c.transport@),
        disabled_reason: None,
        title: None,
        description: None,
        website_url: None,
    }
}

/// Why a server compiled into the client is disabled, if it is.
pub open spec fn builtin_disabled_reason(b: BuiltinServerDto) -> Option<Seq<char>> {
    if b.disabled_by_config {
        Some("disabled in this client's config"@)
    } else {
        match b.overridden_by {
            Some(n) => Some("overridden by the external \""@ + n@ + "\""@),
            None => None,
        }
    }
}

/// The row of a server compiled into the client.
pub open spec fn builtin_row(b: BuiltinServerDto) -> RowV {
    RowV {
        name: b.name@,
        runner: Runner::Client,
        transport: "builtin"@,
        status: if builtin_disabled_reason(b) is Some {
            "disabled"@
        } else {
            "running"@
        },
        tool_count: b.tool_count,
        detail: None,
        kind: ServerKind::BuiltIn,
        disabled_reason: builtin_disabled_reason(b),
        title: None,
        description: None,
        website_url: None,
    }
}

/// The rows before sorting: the daemon's, the client's, the built-in ones.
pub open spec fn unsorted_rows(
    daemon: Seq<McpServerView>,
    client: Seq<ClientServerDto>,
    builtins: Seq<BuiltinServerDto>,
) -> Seq<RowV> {
    daemon.map_values(|d: McpServerView| daemon_row(d)) + client.map_values(
        |c: ClientServerDto| client_row(c),
    ) + builtins.map_values(|b: BuiltinServerDto| builtin_row(b))
}

/// Whether `a` belongs strictly before `b`: by name without regard to ASCII
/// case, then by the runner's rank.
pub open spec fn belongs_before(a: RowV, b: RowV) -> bool {
    let x = text::ascii_lower(a.name);
    let y = text::ascii_lower(b.name);
    text::precedes(x, y) || (x == y && a.runner.rank() < b.runner.rank())
}

/// A sorted list with `row` inserted behind every row it does not belong
/// before.
pub open spec fn inserted(s: Seq<RowV>, row: RowV) -> Seq<RowV>
    decreases s.len(),
{
    if s.len() > 0 && belongs_before(row, s.last()) {
        inserted(s.drop_last(), row).push(s.last())
    } else {
        s.push(row)
    }
}

/// The rows in panel order. The sort is stable.
pub open spec fn sorted(s: Seq<RowV>) -> Seq<RowV>
    decreases s.len(),
{
    if s.len() == 0 {
        s
    } else {
        inserted(sorted(s.drop_last()), s.last())
    }
}

fn row_of_daemon(d: &McpServerView) -> (r: ServerRow)
    ensures
        r@ == daemon_row(*d),
{
    ServerRow {
        name: d.name.clone(),
        runner: Runner::Daemon,
        transport: d.transport.clone(),
        status: d.status.clone(),
        tool_count: d.tool_count,
        detail: d.detail.clone(),
        kind: ServerKind::from_transport(d.transport.as_str()),
        disabled_reason: None,
        title: opt_sanitized(&d.title),
        description: opt_sanitized(&d.description),
        website_url: match &d.website_url {
            Some(u) => sanitized_website(u.as_str()),
            None => None,
        },
    }
}

fn row_of_client(c: &ClientServerDto) -> (r: ServerRow)
    ensures
        r@ == client_row(*c),
{
    ServerRow {
        name: c.name.clone(),
        runner: Runner::Client,
        transport: c.transport.clone(),
        status: c.status.clone(),
        tool_count: c.tool_count,
        detail: None,
        kind: ServerKind::from_transport(c.transport.as_str()),
        disabled_reason: None,
        title: None,
        description: None,
        website_url: None,
    }
}

fn row_of_builtin(b: &BuiltinServerDto) -> (r: ServerRow)
    ensures
        r@ == builtin_row(*b),
{
    let disabled_reason = if b.disabled_by_config {
        Some("disabled in this client's config".to_owned())
    } else {
        match &b.overridden_by {
            Some(n) => {
                let mut reason = text::concat("overridden by the external \"", n.as_str());
                reason.append("\"");
                Some(reason)
            },
            None => None,
        }
    };
    let status = if disabled_reason.is_some() {
        "disabled"
    } else {
        "running"
    };
    ServerRow {
        name: b.name.clone(),
        runner: Runner::Client,
        transport: "builtin".to_owned(),
        status: status.to_owned(),
        tool_count: b.tool_count,
        detail: None,
        kind: ServerKind::BuiltIn,
        disabled_reason,
        title: None,
        description: None,
        website_url: None,
    }
}

/// Whether `a` belongs strictly before `b` (see [`belongs_before`]).
fn goes_before(a: &ServerRow, b: &ServerRow) -> (r: bool)
    ensures
        r == belongs_before(a@, b@),
{
    let x = text::lower(a.name.as_str());
    let y = text::lower(b.name.as_str());
    proof {
        text::precedes_irreflexive(x@);
        if text::precedes(x@, y@) && text::precedes(y@, x@) {
            text::precedes_transitive(x@, y@, x@);
        }
    }
    match text::side(x.as_str(), y.as_str()) {
        Side::Before => true,
        Side::Equal => a.runner.sort_rank() < b.runner.sort_rank(),
        Side::After => false,
    }
}

/// Insert a row into sorted rows (see [`inserted`]).
fn insert_row(list: &mut Vec<ServerRow>, row: ServerRow)
    ensures
        rows(final(list)@) == inserted(rows(old(list)@), row@),
{
    let ghost all = rows(list@);
    let mut at: usize = list.len();
    assert(all.take(all.len() as int) == all);
    assert(all.skip(all.len() as int) =~= Seq::<RowV>::empty());
    assert(inserted(all, row@) =~= inserted(all, row@) + Seq::<RowV>::empty());
    while at > 0 && goes_before(&row, &list[at - 1])
        invariant
            at <= list@.len(),
            all == rows(list@),
            inserted(all, row@) == inserted(all.take(at as int), row@) + all.skip(at as int),
        decreases at,
    {
        proof {
            let s = all.take(at as int);
            assert(s.last() == list@[at - 1]@);
            assert(s.drop_last() == all.take(at - 1));
            assert(inserted(all.take(at - 1), row@).push(s.last()) + all.skip(at as int)
                =~= inserted(all.take(at - 1), row@) + all.skip(at - 1));
        }
        at -= 1;
    }
    proof {
        let s = all.take(at as int);
        assert(at > 0 ==> s.last() == list@[at - 1]@);
        assert(inserted(s, row@) == s.push(row@));
    }
    list.insert(at, row);
    assert(rows(list@) =~= inserted(all, row@));
}

proof fn sorted_push(s: Seq<RowV>, row: RowV)
    ensures
        sorted(s.push(row)) == inserted(sorted(s), row),
{
    assert(s.push(row).drop_last() =~= s);
}

/// The panel's rows for the servers that the daemon and the client run. The same
/// as [`server_rows_with_builtins`] without built-in servers.
pub fn server_rows(daemon: &[McpServerView], client: &[ClientServerDto]) -> (r: Vec<ServerRow>)
    ensures
        rows(r@) == sorted(unsorted_rows(daemon@, client@, Seq::empty())),
{
    let builtins: Vec<BuiltinServerDto> = Vec::new();
    server_rows_with_builtins(daemon, client, builtins.as_slice())
}

/// The panel's rows for the servers that the daemon runs, those that the client
/// runs, and those compiled into the client.
///
/// They are sorted by name without regard to ASCII case, the daemon's before the
/// client's on a tie. The sort is stable, so a built-in server stands behind the
/// external one that overrides it.
pub fn server_rows_with_builtins(
    daemon: &[McpServerView],
    client: &[ClientServerDto],
    builtins: &[BuiltinServerDto],
) -> (r: Vec<ServerRow>)
    ensures
        rows(r@) == sorted(unsorted_rows(daemon@, client@, builtins@)),
{
    let ghost ds = daemon@.map_values(|d: McpServerView| daemon_row(d));
    let ghost cs = client@.map_values(|c: ClientServerDto| client_row(c));
    let ghost bs = builtins@.map_values(|b: BuiltinServerDto| builtin_row(b));
    let mut out: Vec<ServerRow> = Vec::new();
    assert(rows(out@) =~= Seq::<RowV>::empty());
    assert(ds.take(0) =~= Seq::<RowV>::empty());
    let mut i: usize = 0;
    while i < daemon.len()
        invariant
            i <= daemon@.len(),
            ds == daemon@.map_values(|d: McpServerView| daemon_row(d)),
            rows(out@) == sorted(ds.take(i as int)),
        decreases daemon@.len() - i,
    {
        insert_row(&mut out, row_of_daemon(&daemon[i]));
        proof {
            sorted_push(ds.take(i as int), ds[i as int]);
            assert(ds.take(i as int).push(ds[i as int]) =~= ds.take(i + 1));
        }
        i += 1;
    }
    assert(ds.take(ds.len() as int) + cs.take(0) =~= ds);
    assert(ds.take(ds.len() as int) =~= ds);
    let mut j: usize = 0;
    while j < client.len()
        invariant
            j <= client@.len(),
            cs == client@.map_values(|c: ClientServerDto| client_row(c)),
            rows(out@) == sorted(ds + cs.take(j as int)),
        decreases client@.len() - j,
    {
        insert_row(&mut out, row_of_client(&client[j]));
        proof {
            sorted_push(ds + cs.take(j as int), cs[j as int]);
            assert((ds + cs.take(j as int)).push(cs[j as int]) =~= ds + cs.take(j + 1));
        }
        j += 1;
    }
    assert(cs.take(cs.len() as int) =~= cs);
    assert(ds + cs + bs.take(0) =~= ds + cs);
    let mut k: usize = 0;
    while k < builtins.len()
        invariant
            k <= builtins@.len(),
            bs == builtins@.map_values(|b: BuiltinServerDto| builtin_row(b)),
            rows(out@) == sorted(ds + cs + bs.take(k as int)),
        decreases builtins@.len() - k,
    {
        insert_row(&mut out, row_of_builtin(&builtins[k]));
        proof {
            sorted_push(ds + cs + bs.take(k as int), bs[k as int]);
            assert((ds + cs + bs.take(k as int)).push(bs[k as int]) =~= ds + cs + bs.take(k + 1));
        }
        k += 1;
    }
    assert(bs.take(bs.len() as int) =~= bs);
    out
}

/// The rows that a filter lets through, in their order.
pub fn filter_rows(list: &[ServerRow], filter: RunnerFilter) -> (r: Vec<ServerRow>)
    ensures
        rows(r@) == rows(list@).filter(|row: RowV| filter.admits(row.runner)),
{
    let ghost all = rows(list@);
    let ghost keep = |row: RowV| filter.admits(row.runner);
    let mut out: Vec<ServerRow> = Vec::new();
    let mut i: usize = 0;
    assert(all.take(0).filter(keep) =~= Seq::<RowV>::empty()) by {
        reveal_with_fuel(Seq::filter, 1);
    }
    while i < list.len()
        invariant
            i <= list@.len(),
            all == rows(list@),
            keep == (|row: RowV| filter.admits(row.runner)),
            rows(out@) == all.take(i as int).filter(keep),
        decreases list@.len() - i,
    {
        proof {
            reveal_with_fuel(Seq::filter, 1);
            assert(all.take(i + 1).drop_last() == all.take(i as int));
            assert(all.take(i + 1).last() == list@[i as int]@);
        }
        let admitted = match filter {
            RunnerFilter::All => true,
            RunnerFilter::Daemon => list[i].runner == Runner::Daemon,
            RunnerFilter::Client => list[i].runner == Runner::Client,
        };
        if admitted {
            let ghost done = rows(out@);
            out.push(list[i].clone());
            assert(rows(out@) == done.push(list@[i as int]@));
        }
        i += 1;
    }
    assert(all.take(all.len() as int) == all);
    out
}

// ---------------------------------------------------------------------------
// Laws
// ---------------------------------------------------------------------------

/// Whether no row belongs before a row that stands ahead of it.
pub open spec fn in_order(s: Seq<RowV>) -> bool {
    forall|i: int, j: int| 0 <= i < j < s.len() ==> !belongs_before(#[trigger] s[j], #[trigger] s[i])
}

/// Whether two rows tie: the same name without regard to ASCII case, and the
/// same runner.
pub open spec fn ties(a: RowV, b: RowV) -> bool {
    text::ascii_lower(a.name) == text::ascii_lower(b.name) && a.runner == b.runner
}

proof fn not_before_is_transitive(a: RowV, b: RowV, c: RowV)
    requires
        !belongs_before(b, a),
        !belongs_before(c, b),
    ensures
        !belongs_before(c, a),
{
    let x = text::ascii_lower(a.name);
    let y = text::ascii_lower(b.name);
    let z = text::ascii_lower(c.name);
    text::precedes_total(x, y);
    text::precedes_total(y, z);
    text::precedes_irreflexive(x);
    if text::precedes(z, x) {
        if text::precedes(x, y) {
            text::precedes_transitive(z, x, y);
        }
    }
    if z == x && text::precedes(x, y) && text::precedes(y, z) {
        text::precedes_transitive(x, y, z);
    }
}

proof fn before_is_asymmetric(a: RowV, b: RowV)
    requires
        belongs_before(a, b),
    ensures
        !belongs_before(b, a),
{
    let x = text::ascii_lower(a.name);
    let y = text::ascii_lower(b.name);
    text::precedes_irreflexive(x);
    if text::precedes(x, y) && text::precedes(y, x) {
        text::precedes_transitive(x, y, x);
    }
}

proof fn inserted_laws(s: Seq<RowV>, row: RowV)
    requires
        in_order(s),
    ensures
        in_order(inserted(s, row)),
        inserted(s, row).to_multiset() == s.to_multiset().insert(row),
        forall|x: RowV| #[trigger]
            inserted(s, row).contains(x) ==> s.contains(x) || x == row,
    decreases s.len(),
{
    broadcast use vstd::seq_lib::group_to_multiset_ensures;

    let out = inserted(s, row);
    if s.len() > 0 && belongs_before(row, s.last()) {
        let rest = s.drop_last();
        let last = s.last();
        assert(in_order(rest));
        inserted_laws(rest, row);
        let head = inserted(rest, row);
        assert(out == head.push(last));
        assert(s =~= rest.push(last));
        assert(out.to_multiset() =~= s.to_multiset().insert(row));
        assert forall|i: int, j: int| 0 <= i < j < out.len() implies !belongs_before(
            #[trigger] out[j],
            #[trigger] out[i],
        ) by {
            if j == out.len() - 1 {
                assert(out[i] == head[i]);
                assert(head.contains(head[i]));
                if head[i] == row {
                    before_is_asymmetric(row, last);
                } else {
                    let k = rest.index_of(head[i]);
                    assert(s[k] == head[i]);
                    assert(s[s.len() - 1] == last);
                }
            } else {
                assert(out[i] == head[i]);
                assert(out[j] == head[j]);
            }
        }
        assert forall|x: RowV| #[trigger] out.contains(x) implies s.contains(x) || x == row by {
            let k = out.index_of(x);
            if k < head.len() {
                assert(head[k] == x);
                assert(head.contains(x));
                if x != row {
                    let m = rest.index_of(x);
                    assert(s[m] == x);
                }
            } else {
                assert(s[s.len() - 1] == x);
            }
        }
    } else {
        assert(out == s.push(row));
        assert forall|i: int, j: int| 0 <= i < j < out.len() implies !belongs_before(
            #[trigger] out[j],
            #[trigger] out[i],
        ) by {
            if j == out.len() - 1 {
                if i < s.len() - 1 {
                    assert(!belongs_before(s[s.len() - 1], s[i]));
                    not_before_is_transitive(s[i], s.last(), row);
                }
            }
        }
        assert forall|x: RowV| #[trigger] out.contains(x) implies s.contains(x) || x == row by {
            let k = out.index_of(x);
            if k < s.len() {
                assert(s[k] == x);
            }
        }
    }
}

/// The panel's rows are in order, and they are the rows that went in.
pub proof fn rows_are_sorted_and_kept(s: Seq<RowV>)
    ensures
        in_order(sorted(s)),
        sorted(s).to_multiset() == s.to_multiset(),
    decreases s.len(),
{
    broadcast use vstd::seq_lib::group_to_multiset_ensures;

    if s.len() > 0 {
        rows_are_sorted_and_kept(s.drop_last());
        inserted_laws(sorted(s.drop_last()), s.last());
        assert(s =~= s.drop_last().push(s.last()));
    }
}

proof fn inserted_keeps_ties(s: Seq<RowV>, row: RowV, key: RowV)
    ensures
        inserted(s, row).filter(|r: RowV| ties(r, key)) == s.push(row).filter(
            |r: RowV| ties(r, key),
        ),
    decreases s.len(),
{
    let tied = |r: RowV| ties(r, key);
    reveal_with_fuel(Seq::filter, 2);
    if s.len() > 0 && belongs_before(row, s.last()) {
        let rest = s.drop_last();
        let last = s.last();
        inserted_keeps_ties(rest, row, key);
        let head = inserted(rest, row);
        assert(head.push(last).drop_last() =~= head);
        assert(rest.push(row).drop_last() =~= rest);
        assert(s.push(row).drop_last() =~= s);
        text::precedes_irreflexive(text::ascii_lower(row.name));
        assert(!(ties(row, key) && ties(last, key)));
        if ties(last, key) {
            assert(head.push(last).filter(tied) == head.filter(tied).push(last));
            assert(rest.push(row).filter(tied) == rest.filter(tied));
            assert(s.filter(tied) == rest.filter(tied).push(last));
        } else {
            assert(head.push(last).filter(tied) == head.filter(tied));
            assert(s.filter(tied) == rest.filter(tied));
        }
    }
}

/// Rows that tie keep the order in which they went in.
pub proof fn ties_keep_their_order(s: Seq<RowV>, key: RowV)
    ensures
        sorted(s).filter(|r: RowV| ties(r, key)) == s.filter(|r: RowV| ties(r, key)),
    decreases s.len(),
{
    let tied = |r: RowV| ties(r, key);
    reveal_with_fuel(Seq::filter, 2);
    if s.len() > 0 {
        let rest = s.drop_last();
        ties_keep_their_order(rest, key);
        inserted_keeps_ties(sorted(rest), s.last(), key);
        assert(sorted(rest).push(s.last()).drop_last() =~= sorted(rest));
    }
}

/// The chip of an external server is the same by its kind as by its transport, and
/// no external server is taken for a built-in one.
pub proof fn chips_agree(transport: Seq<char>)
    ensures
        ServerKind::of_transport(transport).label() == chip(transport),
        ServerKind::of_transport(transport) != ServerKind::BuiltIn,
{
}

/// The two runners' filters part the rows, and the third one lets all through.
pub proof fn filters_part_the_rows(s: Seq<RowV>)
    ensures
        s.filter(|r: RowV| RunnerFilter::All.admits(r.runner)) == s,
        s.filter(|r: RowV| RunnerFilter::Daemon.admits(r.runner)).to_multiset().add(
            s.filter(|r: RowV| RunnerFilter::Client.admits(r.runner)).to_multiset(),
        ) == s.to_multiset(),
    decreases s.len(),
{
    broadcast use vstd::seq_lib::group_to_multiset_ensures;

    let all = |r: RowV| RunnerFilter::All.admits(r.runner);
    let daemon = |r: RowV| RunnerFilter::Daemon.admits(r.runner);
    let client = |r: RowV| RunnerFilter::Client.admits(r.runner);
    reveal_with_fuel(Seq::filter, 1);
    if s.len() > 0 {
        let rest = s.drop_last();
        filters_part_the_rows(rest);
        assert(s =~= rest.push(s.last()));
        assert(s.to_multiset() == rest.to_multiset().insert(s.last()));
        if daemon(s.last()) {
            assert(s.filter(daemon) == rest.filter(daemon).push(s.last()));
            assert(s.filter(client) == rest.filter(client));
        } else {
            assert(s.filter(client) == rest.filter(client).push(s.last()));
            assert(s.filter(daemon) == rest.filter(daemon));
        }
        assert(s.filter(daemon).to_multiset().add(s.filter(client).to_multiset())
            =~= s.to_multiset());
    } else {
        assert(s.filter(all) =~= s);
        assert(s.filter(daemon).to_multiset().add(s.filter(client).to_multiset())
            =~= s.to_multiset());
    }
}

/// Whether text can be displayed in a row as it is: no control codes, and no
/// white space but single spaces inside.
pub open spec fn is_tidy(s: Seq<char>) -> bool {
    &&& s.len() > 0
    &&& !text::is_white_space(s[0])
    &&& !text::is_white_space(s.last())
    &&& forall|i: int|
        0 <= i < s.len() ==> !text::is_control_code(#[trigger] s[i]) && (text::is_white_space(s[i])
            ==> s[i] == ' ')
    &&& forall|i: int, j: int|
        0 <= i < s.len() && j == i + 1 && j < s.len() ==> !(text::is_white_space(#[trigger] s[i])
            && text::is_white_space(#[trigger] s[j]))
}

proof fn joined_ends_bare(parts: Seq<Seq<char>>)
    requires
        forall|j: int| 0 <= j < parts.len() ==> is_plain_word(#[trigger] parts[j]),
        forall|j: int| 0 <= j < parts.len() ==> (#[trigger] parts[j]).len() > 0,
        parts.len() > 0,
    ensures
        text::joined(parts, seq![' ']).len() > 0,
        !text::is_white_space(text::joined(parts, seq![' ']).last()),
{
    let last = parts[parts.len() - 1];
    assert(is_plain_word(last));
    assert(last.len() > 0);
    if parts.len() == 1 {
        assert(last == parts[0]);
    } else {
        let whole = text::joined(parts, seq![' ']);
        assert(whole[whole.len() - 1] == last[last.len() - 1]);
    }
}

proof fn joined_has_single_spaces(parts: Seq<Seq<char>>, i: int)
    requires
        forall|j: int| 0 <= j < parts.len() ==> is_plain_word(#[trigger] parts[j]),
        forall|j: int| 0 <= j < parts.len() ==> (#[trigger] parts[j]).len() > 0,
        0 <= i < text::joined(parts, seq![' ']).len() - 1,
    ensures
        ({
            let s = text::joined(parts, seq![' ']);
            !(text::is_white_space(s[i]) && text::is_white_space(s[i + 1]))
        }),
    decreases parts.len(),
{
    if parts.len() == 1 {
        assert(is_plain_word(parts[0]));
    } else if parts.len() > 1 {
        let rest = parts.drop_last();
        let head = text::joined(rest, seq![' ']);
        let last = parts[parts.len() - 1];
        assert(is_plain_word(last));
        assert(last.len() > 0);
        joined_ends_bare(rest);
        if i + 1 < head.len() {
            joined_has_single_spaces(rest, i);
        }
    }
}

proof fn squeezed_is_plain(s: Seq<char>, i: int)
    requires
        forall|k: int|
            0 <= k < s.len() ==> text::is_white_space(#[trigger] s[k]) || !text::is_control_code(
                s[k],
            ),
        0 <= i < text::squeezed(s).len(),
    ensures
        ({
            let c = text::squeezed(s)[i];
            !text::is_control_code(c) && (text::is_white_space(c) ==> c == ' ')
        }),
        i + 1 < text::squeezed(s).len() ==> !(text::is_white_space(text::squeezed(s)[i])
            && text::is_white_space(text::squeezed(s)[i + 1])),
{
    words_are_plain(s);
    text::words_nonempty(s);
    joined_is_plain(text::words(s), i);
    if i + 1 < text::squeezed(s).len() {
        joined_has_single_spaces(text::words(s), i);
    }
}

spec fn is_plain_word(w: Seq<char>) -> bool {
    forall|i: int|
        0 <= i < w.len() ==> !text::is_control_code(#[trigger] w[i]) && !text::is_white_space(w[i])
}

proof fn words_are_plain(s: Seq<char>)
    requires
        forall|k: int|
            0 <= k < s.len() ==> text::is_white_space(#[trigger] s[k]) || !text::is_control_code(
                s[k],
            ),
    ensures
        forall|j: int| 0 <= j < text::words(s).len() ==> is_plain_word(#[trigger] text::words(s)[j]),
    decreases s.len(),
{
    if s.len() > 0 {
        let rest = s.drop_last();
        assert forall|k: int| 0 <= k < rest.len() implies text::is_white_space(#[trigger] rest[k])
            || !text::is_control_code(rest[k]) by {
            assert(rest[k] == s[k]);
        }
        words_are_plain(rest);
        let before = text::words(rest);
        let c = s.last();
        assert(c == s[s.len() - 1]);
        text::words_nonempty(rest);
        if !text::is_white_space(c) && !(s.len() == 1 || text::is_white_space(s[s.len() - 2])) {
            assert(rest.last() == s[s.len() - 2]);
            assert(is_plain_word(before[before.len() - 1]));
        }
    }
}

proof fn joined_is_plain(parts: Seq<Seq<char>>, i: int)
    requires
        forall|j: int| 0 <= j < parts.len() ==> is_plain_word(#[trigger] parts[j]),
        0 <= i < text::joined(parts, seq![' ']).len(),
    ensures
        ({
            let c = text::joined(parts, seq![' '])[i];
            !text::is_control_code(c) && (text::is_white_space(c) ==> c == ' ')
        }),
    decreases parts.len(),
{
    if parts.len() == 1 {
        assert(is_plain_word(parts[0]));
    } else if parts.len() > 1 {
        let rest = parts.drop_last();
        let head = text::joined(rest, seq![' ']);
        assert(is_plain_word(parts[parts.len() - 1]));
        if i < head.len() {
            joined_is_plain(rest, i);
        }
    }
}

/// A declared text that is displayed is tidy and no longer than it may be.
pub proof fn displayed_text_is_tidy(s: Seq<char>, max: nat)
    requires
        declared(s, max) is Some,
    ensures
        is_tidy(declared(s, max)->0),
        declared(s, max)->0.len() <= max,
{
    let keep = |c: char| text::is_white_space(c) || !text::is_control_code(c);
    let kept = cleaned(s);
    assert forall|k: int| 0 <= k < kept.len() implies text::is_white_space(#[trigger] kept[k])
        || !text::is_control_code(kept[k]) by {
        s.lemma_filter_pred(keep, k);
    }
    let squeezed = text::squeezed(kept);
    let cut = clamped(squeezed, max);
    let out = text::trim(cut);
    text::trim_has_bare_ends(cut);
    text::trim_is_a_part(cut);
    let from = choose|from: int|
        0 <= from && from + out.len() <= cut.len() && out == #[trigger] cut.subrange(
            from,
            from + out.len(),
        );
    assert forall|i: int| 0 <= i < out.len() implies !text::is_control_code(#[trigger] out[i]) && (
    text::is_white_space(out[i]) ==> out[i] == ' ') by {
        assert(out[i] == cut[from + i]);
        assert(cut[from + i] == squeezed[from + i]);
        squeezed_is_plain(kept, from + i);
    }
    assert forall|i: int, j: int| 0 <= i < out.len() && j == i + 1 && j < out.len() implies !(
    text::is_white_space(#[trigger] out[i]) && text::is_white_space(#[trigger] out[j])) by {
        assert(out[i] == squeezed[from + i]);
        assert(out[j] == squeezed[from + i + 1]);
        squeezed_is_plain(kept, from + i);
    }
}

/// Whether text begins bare, and its white space is single spaces.
spec fn is_single_spaced(s: Seq<char>) -> bool {
    &&& s.len() > 0 ==> !text::is_white_space(s[0])
    &&& forall|i: int| 0 <= i < s.len() && text::is_white_space(#[trigger] s[i]) ==> s[i] == ' '
    &&& forall|i: int, j: int|
        0 <= i < s.len() && j == i + 1 && j < s.len() ==> !(text::is_white_space(#[trigger] s[i])
            && text::is_white_space(#[trigger] s[j]))
}

proof fn single_spaced_is_squeezed(s: Seq<char>)
    requires
        is_single_spaced(s),
    ensures
        s == text::squeezed(s) + (if s.len() > 0 && text::is_white_space(s.last()) {
            seq![' ']
        } else {
            Seq::empty()
        }),
    decreases s.len(),
{
    let gap = seq![' '];
    if s.len() > 0 {
        let t = s.drop_last();
        let c = s.last();
        assert(c == s[s.len() - 1]);
        assert forall|i: int, j: int| 0 <= i < t.len() && j == i + 1 && j < t.len() implies !(
        text::is_white_space(#[trigger] t[i]) && text::is_white_space(#[trigger] t[j])) by {
            assert(t[i] == s[i] && t[j] == s[j]);
        }
        assert forall|i: int| 0 <= i < t.len() && text::is_white_space(#[trigger] t[i]) implies t[i]
            == ' ' by {
            assert(t[i] == s[i]);
        }
        single_spaced_is_squeezed(t);
        text::words_nonempty(t);
        let w = text::words(t);
        if t.len() > 0 {
            assert(t.last() == s[s.len() - 2]);
            assert(t[0] == s[0]);
            assert(!text::is_blank(t));
        }
        if text::is_white_space(c) {
            assert(text::words(s) == w);
            assert(s =~= text::squeezed(s) + gap);
        } else if t.len() > 0 && !text::is_white_space(t.last()) {
            let grown = w.drop_last().push(w.last().push(c));
            assert(text::words(s) == grown);
            assert(grown.drop_last() =~= w.drop_last());
            assert(text::joined(grown, gap) =~= text::joined(w, gap).push(c));
            assert(s =~= text::squeezed(s));
        } else {
            let grown = w.push(seq![c]);
            assert(text::words(s) == grown);
            assert(grown.drop_last() =~= w);
            assert(s =~= text::squeezed(s));
        }
    } else {
        assert(s =~= text::squeezed(s));
    }
}

/// A declared text that is tidy already, and not too long, is displayed as it is.
pub proof fn tidy_text_is_displayed_as_it_is(s: Seq<char>, max: nat)
    requires
        is_tidy(s),
        s.len() <= max,
    ensures
        declared(s, max) == Some(s),
{
    let keep = |c: char| text::is_white_space(c) || !text::is_control_code(c);
    keeping_all(s, keep);
    assert(s[0] == s.first());
    single_spaced_is_squeezed(s);
    assert(text::squeezed(s) =~= s);
}

proof fn keeping_all(s: Seq<char>, keep: spec_fn(char) -> bool)
    requires
        forall|i: int| 0 <= i < s.len() ==> keep(#[trigger] s[i]),
    ensures
        s.filter(keep) == s,
    decreases s.len(),
{
    reveal_with_fuel(Seq::filter, 1);
    if s.len() > 0 {
        let t = s.drop_last();
        assert forall|i: int| 0 <= i < t.len() implies keep(#[trigger] t[i]) by {
            assert(t[i] == s[i]);
        }
        keeping_all(t, keep);
        assert(keep(s[s.len() - 1]));
        assert(s =~= t.push(s.last()));
    } else {
        assert(s.filter(keep) =~= s);
    }
}

/// A displayed website is tidy and begins like an `http` or `https` URL.
pub proof fn a_displayed_website_is_a_web_address(s: Option<Seq<char>>)
    requires
        website(s) is Some,
    ensures
        is_web_address(website(s)->0),
        is_tidy(website(s)->0),
{
    displayed_text_is_tidy(s->0, MAX_DESCRIPTION_CHARS as nat);
}

proof fn joined_begins_bare(parts: Seq<Seq<char>>)
    requires
        forall|j: int| 0 <= j < parts.len() ==> is_plain_word(#[trigger] parts[j]),
        forall|j: int| 0 <= j < parts.len() ==> (#[trigger] parts[j]).len() > 0,
        parts.len() > 0,
    ensures
        text::joined(parts, seq![' ']).len() > 0,
        !text::is_white_space(text::joined(parts, seq![' '])[0]),
    decreases parts.len(),
{
    assert(is_plain_word(parts[0]));
    assert(parts[0].len() > 0);
    if parts.len() > 1 {
        joined_begins_bare(parts.drop_last());
    }
}

/// What is displayed of a declared text is its words with one space between them,
/// once the control codes that are not white space are gone. Where that is too
/// long it is cut at the limit, and a space at the cut is left out.
pub proof fn a_declared_text_keeps_its_words(s: Seq<char>, max: nat)
    ensures
        ({
            let kept = s.filter(|c: char| text::is_white_space(c) || !text::is_control_code(c));
            let full = text::joined(text::words(kept), seq![' ']);
            if max == 0 || full.len() == 0 {
                declared(s, max) is None
            } else if full.len() <= max {
                declared(s, max) == Some(full)
            } else if text::is_white_space(full[max - 1]) {
                declared(s, max) == Some(full.take(max - 1))
            } else {
                declared(s, max) == Some(full.take(max as int))
            }
        }),
{
    let keep = |c: char| text::is_white_space(c) || !text::is_control_code(c);
    let kept = s.filter(keep);
    assert forall|k: int| 0 <= k < kept.len() implies text::is_white_space(#[trigger] kept[k])
        || !text::is_control_code(kept[k]) by {
        s.lemma_filter_pred(keep, k);
    }
    let parts = text::words(kept);
    let full = text::joined(parts, seq![' ']);
    words_are_plain(kept);
    text::words_nonempty(kept);
    if full.len() > 0 {
        joined_begins_bare(parts);
        joined_ends_bare(parts);
        if full.len() > max && max > 0 {
            let cut = full.take(max as int);
            assert(cut[0] == full[0]);
            assert(cut.last() == full[max - 1]);
            if text::is_white_space(full[max - 1]) {
                squeezed_is_plain(kept, max - 2);
                text::trim_of_a_blank_tail(cut);
                assert(cut.drop_last() =~= full.take(max - 1));
                assert(full.take(max - 1).last() == full[max - 2]);
                assert(full.take(max - 1)[0] == full[0]);
            }
        } else if max == 0 {
            assert(clamped(full, 0) =~= Seq::empty());
        }
    }
}

/// What the sources say of their servers: the daemon's, the client's external ones,
/// and those compiled in.
pub open spec fn told_rows(
    daemon: Seq<McpServerView>,
    client: Seq<ClientServerDto>,
    builtins: Seq<BuiltinServerDto>,
) -> Seq<RowV> {
    Seq::new(
        daemon.len(),
        |i: int|
            RowV {
                name: daemon[i].name@,
                runner: Runner::Daemon,
                transport: daemon[i].transport@,
                status: daemon[i].status@,
                tool_count: daemon[i].tool_count,
                detail: match daemon[i].detail {
                    Some(t) => Some(t@),
                    None => None,
                },
                kind: if daemon[i].transport@ == "http"@ {
                    ServerKind::Http
                } else {
                    ServerKind::Stdio
                },
                disabled_reason: None,
                title: match daemon[i].title {
                    Some(t) => declared(t@, 200),
                    None => None,
                },
                description: match daemon[i].description {
                    Some(t) => declared(t@, 200),
                    None => None,
                },
                website_url: match daemon[i].website_url {
                    Some(t) => website(Some(t@)),
                    None => None,
                },
            },
    ) + Seq::new(
        client.len(),
        |i: int|
            RowV {
                name: client[i].name@,
                runner: Runner::Client,
                transport: client[i].transport@,
                status: client[i].status@,
                tool_count: client[i].tool_count,
                detail: None,
                kind: if client[i].transport@ == "http"@ {
                    ServerKind::Http
                } else {
                    ServerKind::Stdio
                },
                disabled_reason: None,
                title: None,
                description: None,
                website_url: None,
            },
    ) + Seq::new(
        builtins.len(),
        |i: int|
            RowV {
                name: builtins[i].name@,
                runner: Runner::Client,
                transport: "builtin"@,
                status: if builtins[i].disabled_by_config || builtins[i].overridden_by is Some {
                    "disabled"@
                } else {
                    "running"@
                },
                tool_count: builtins[i].tool_count,
                detail: None,
                kind: ServerKind::BuiltIn,
                disabled_reason: if builtins[i].disabled_by_config {
                    Some("disabled in this client's config"@)
                } else {
                    match builtins[i].overridden_by {
                        Some(n) => Some("overridden by the external \""@ + n@ + "\""@),
                        None => None,
                    }
                },
                title: None,
                description: None,
                website_url: None,
            },
    )
}

/// The rows of the panel are one for each server, and no others: each tells what its
/// server's source says of it, and the client's two kinds carry no declared texts.
pub proof fn every_server_has_its_own_row(
    daemon: Seq<McpServerView>,
    client: Seq<ClientServerDto>,
    builtins: Seq<BuiltinServerDto>,
)
    ensures
        sorted(unsorted_rows(daemon, client, builtins)).to_multiset() == told_rows(daemon, client, builtins).to_multiset(),
{
    rows_are_sorted_and_kept(unsorted_rows(daemon, client, builtins));
    assert(unsorted_rows(daemon, client, builtins) =~= told_rows(daemon, client, builtins));
}

/// A website is displayed when it is declared as a text that, in either case, begins
/// with one of the two web schemes; it is then that text.
pub proof fn a_website_is_displayed_when_it_is_one(t: Seq<char>)
    ensures
        website(Some(t)) is Some <==> declared(t, 200) is Some && ({
            let low = text::ascii_lower(declared(t, 200)->0);
            ||| exists|rest: Seq<char>| low == #[trigger] ("http://"@ + rest)
            ||| exists|rest: Seq<char>| low == #[trigger] ("https://"@ + rest)
        }),
        website(Some(t)) is Some ==> website(Some(t)) == declared(t, 200),
        website(None) is None,
{
    if declared(t, 200) is Some {
        let low = text::ascii_lower(declared(t, 200)->0);
        text::a_prefix_can_be_completed("http://"@, Seq::empty(), low);
        text::a_prefix_can_be_completed("https://"@, Seq::empty(), low);
        if exists|rest: Seq<char>| low == #[trigger] ("http://"@ + rest) {
            let rest = choose|rest: Seq<char>| low == #[trigger] ("http://"@ + rest);
            text::a_prefix_can_be_completed("http://"@, rest, low);
        }
        if exists|rest: Seq<char>| low == #[trigger] ("https://"@ + rest) {
            let rest = choose|rest: Seq<char>| low == #[trigger] ("https://"@ + rest);
            text::a_prefix_can_be_completed("https://"@, rest, low);
        }
    }
}

/// Of two rows the one ahead has the lesser name, without regard to the case of
/// ASCII letters; where the names are the same so, no client's row stands ahead of
/// a daemon's.
pub proof fn rows_go_by_name_and_runner(s: Seq<RowV>, i: int, j: int)
    requires
        0 <= i < j < s.len(),
    ensures
        ({
            let (a, b) = (sorted(s)[i], sorted(s)[j]);
            let (x, y) = (text::ascii_lower(a.name), text::ascii_lower(b.name));
            &&& x == y || text::precedes(x, y)
            &&& x == y ==> !(a.runner is Client && b.runner is Daemon)
        }),
{
    rows_are_sorted_and_kept(s);
    broadcast use vstd::seq_lib::to_multiset_len;

    assert(sorted(s).to_multiset().len() == s.to_multiset().len());
    let (a, b) = (sorted(s)[i], sorted(s)[j]);
    assert(!belongs_before(b, a));
    text::precedes_total(text::ascii_lower(a.name), text::ascii_lower(b.name));
}

/// Rows of one name, without regard to the case of ASCII letters, and of one runner
/// keep the order in which they went in.
pub proof fn rows_of_one_name_and_runner_keep_their_order(
    s: Seq<RowV>,
    name: Seq<char>,
    runner: Runner,
)
    ensures
        sorted(s).filter(
            |r: RowV| text::ascii_lower(r.name) == text::ascii_lower(name) && r.runner == runner,
        ) == s.filter(
            |r: RowV| text::ascii_lower(r.name) == text::ascii_lower(name) && r.runner == runner,
        ),
{
    let key = RowV {
        name,
        runner,
        transport: Seq::empty(),
        status: Seq::empty(),
        tool_count: 0,
        detail: None,
        kind: ServerKind::Stdio,
        disabled_reason: None,
        title: None,
        description: None,
        website_url: None,
    };
    ties_keep_their_order(s, key);
    assert((|r: RowV| ties(r, key)) =~= (|r: RowV|
        text::ascii_lower(r.name) == text::ascii_lower(name) && r.runner == runner));
}

/// A filter keeps a row exactly when it asks for all rows or for the row's runner.
pub proof fn a_filter_asks_for_its_runner(filter: RunnerFilter, runner: Runner)
    ensures
        filter.admits(runner) <==> filter is All || (filter is Daemon && runner is Daemon) || (
        filter is Client && runner is Client),
{
}

/// A server is taken for one over HTTP by one transport alone, and for one over stdio by
/// every other; its chip says which.
pub proof fn a_transport_says_how_a_server_is_reached(transport: Seq<char>)
    ensures
        transport == "http"@ ==> chip(transport) == "http"@ && ServerKind::of_transport(
            transport,
        ) is Http,
        transport != "http"@ ==> chip(transport) == "stdio"@ && ServerKind::of_transport(
            transport,
        ) is Stdio,
        ServerKind::Http.label() == "http"@,
        ServerKind::Stdio.label() == "stdio"@,
        ServerKind::BuiltIn.label() == "built-in"@,
{
}

} // verus!
