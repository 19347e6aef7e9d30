//! The rows of the MCP-servers panel.

use client_ui_common::api::McpServerView;
use client_ui_common::mcp_servers::{
    display_name, filter_rows, kind_label, runner_label, server_rows, server_rows_with_builtins,
    transport_chip, BuiltinServerDto, ClientServerDto, Runner, RunnerFilter, ServerKind, ServerRow,
    MAX_DESCRIPTION_CHARS,
};
/// A daemon [`McpServerView`] with only the fields this module reads set.
fn dv(name: &str, transport: &str, status: &str, tools: u32) -> McpServerView {
    McpServerView {
        name: name.to_string(),
        transport: transport.to_string(),
        status: status.to_string(),
        tool_count: tools,
        ..Default::default()
    }
}

fn cv(name: &str, transport: &str, status: &str, tools: u32) -> ClientServerDto {
    ClientServerDto {
        name: name.to_string(),
        transport: transport.to_string(),
        status: status.to_string(),
        tool_count: tools,
    }
}

/// A daemon view that declared all three optional `serverInfo` fields.
fn described(name: &str) -> McpServerView {
    McpServerView {
        title: Some("Weather Service".into()),
        description: Some("Live weather and forecasts.".into()),
        website_url: Some("https://example.com/weather".into()),
        ..dv(name, "stdio", "running", 3)
    }
}

#[test]
fn server_rows_carry_server_metadata() {
    let rows = server_rows(&[described("weather")], &[]);
    assert_eq!(rows[0].title.as_deref(), Some("Weather Service"));
    assert_eq!(
        rows[0].description.as_deref(),
        Some("Live weather and forecasts.")
    );
    assert_eq!(
        rows[0].website_url.as_deref(),
        Some("https://example.com/weather")
    );
}

#[test]
fn server_rows_leave_metadata_absent_when_unset() {
    let rows = server_rows(&[dv("weather", "stdio", "running", 3)], &[]);
    assert_eq!(rows[0].title, None);
    assert_eq!(rows[0].description, None);
    assert_eq!(rows[0].website_url, None);
}

/// Only a daemon row has an `initialize` handshake behind it, so only a
/// daemon row can carry anything a server declared.
#[test]
fn client_and_builtin_rows_have_no_declared_metadata() {
    let rows = server_rows_with_builtins(
        &[],
        &[cv("local", "stdio", "running", 1)],
        &[BuiltinServerDto {
            name: "fileio".into(),
            namespace: "fileio".into(),
            tool_count: 5,
            overridden_by: None,
            disabled_by_config: false,
        }],
    );
    assert_eq!(rows.len(), 2);
    for row in &rows {
        assert_eq!(row.title, None, "{} must not declare a title", row.name);
        assert_eq!(row.description, None);
        assert_eq!(row.website_url, None);
    }
}

#[test]
fn display_name_prefers_title_over_name() {
    let row = &server_rows(&[described("weather")], &[])[0];
    assert_eq!(display_name(row), "Weather Service");
}

#[test]
fn display_name_falls_back_to_name_when_title_absent() {
    let row = &server_rows(&[dv("weather", "stdio", "running", 3)], &[])[0];
    assert_eq!(display_name(row), "weather");
}

/// A server sending a blank title must not produce an empty row label.
#[test]
fn display_name_falls_back_to_name_when_title_is_blank() {
    let view = McpServerView {
        title: Some("   ".into()),
        ..dv("weather", "stdio", "running", 3)
    };
    let row = &server_rows(&[view], &[])[0];
    assert_eq!(display_name(row), "weather");
}

/// Untrusted input: a long or newline-laden description must not break the
/// row layout.
#[test]
fn description_is_clamped_and_stripped_of_control_characters() {
    let hostile = format!("line one\nline\ttwo\r\n{}", "x".repeat(1000));
    let view = McpServerView {
        description: Some(hostile),
        ..dv("weather", "stdio", "running", 3)
    };
    let row = &server_rows(&[view], &[])[0];
    let rendered = row.description.as_deref().expect("description present");
    assert!(
        !rendered.contains('\n') && !rendered.contains('\r') && !rendered.contains('\t'),
        "control characters must be stripped: {rendered:?}"
    );
    assert!(
        rendered.chars().count() <= MAX_DESCRIPTION_CHARS,
        "description must be clamped, got {} chars",
        rendered.chars().count()
    );
}

#[test]
fn website_url_rejects_non_http_schemes() {
    for hostile in [
        "javascript:alert(1)",
        "file:///etc/passwd",
        "data:text/html,<script>",
        "/relative/path",
        "example.com",
    ] {
        let view = McpServerView {
            website_url: Some(hostile.to_string()),
            ..dv("weather", "stdio", "running", 3)
        };
        let row = &server_rows(&[view], &[])[0];
        assert_eq!(
            row.website_url, None,
            "{hostile:?} must not survive as a link"
        );
    }
}

#[test]
fn website_url_accepts_http_and_https() {
    for ok in ["http://example.com", "https://example.com/weather"] {
        let view = McpServerView {
            website_url: Some(ok.to_string()),
            ..dv("weather", "stdio", "running", 3)
        };
        let row = &server_rows(&[view], &[])[0];
        assert_eq!(row.website_url.as_deref(), Some(ok));
    }
}

/// A [`BuiltinServerDto`] for a compiled-in server. `overridden_by` is the
/// external server name shadowing it, or `None` when the built-in is active.
/// Not disabled-by-config; use [`bv_disabled`] for that case.
fn bv(name: &str, tools: u32, overridden_by: Option<&str>) -> BuiltinServerDto {
    BuiltinServerDto {
        name: name.to_string(),
        namespace: name.to_string(),
        tool_count: tools,
        overridden_by: overridden_by.map(str::to_string),
        disabled_by_config: false,
    }
}

/// A [`BuiltinServerDto`] explicitly disabled for the surface via client config.
/// `overridden_by` may still be set to exercise the both-reasons precedence.
fn bv_disabled(name: &str, tools: u32, overridden_by: Option<&str>) -> BuiltinServerDto {
    BuiltinServerDto {
        name: name.to_string(),
        namespace: name.to_string(),
        tool_count: tools,
        overridden_by: overridden_by.map(str::to_string),
        disabled_by_config: true,
    }
}

#[test]
fn runner_enum_and_serverrow_construct() {
    let row = ServerRow {
        name: "fileio".to_string(),
        runner: Runner::Daemon,
        transport: "stdio".to_string(),
        status: "running".to_string(),
        tool_count: 5,
        detail: None,
        kind: ServerKind::Stdio,
        disabled_reason: None,
        title: None,
        description: None,
        website_url: None,
    };
    assert_eq!(row.runner, Runner::Daemon);
    assert_ne!(Runner::Daemon, Runner::Client);
    assert_eq!(row.name, "fileio");
    assert_eq!(row.tool_count, 5);
    assert_eq!(row.transport, "stdio");
    assert_eq!(row.detail, None);
    assert_eq!(row.kind, ServerKind::Stdio);
    assert_eq!(row.disabled_reason, None);

    // Runner is Copy: using it after a bind does not move it.
    let r = Runner::Client;
    let r2 = r;
    assert_eq!(r, r2);

    // ServerKind is Copy too.
    let k = ServerKind::BuiltIn;
    let k2 = k;
    assert_eq!(k, k2);
    assert_ne!(ServerKind::Stdio, ServerKind::Http);
}

#[test]
fn runner_label_client_daemon_and_remote_host() {
    // Client tools run locally: remote/host are irrelevant.
    assert_eq!(runner_label(Runner::Client, false, None), "client");
    assert_eq!(
        runner_label(Runner::Client, true, Some("lab-host")),
        "client"
    );

    // Co-located daemon: no host suffix, even if a host string is supplied.
    assert_eq!(runner_label(Runner::Daemon, false, None), "daemon");
    assert_eq!(
        runner_label(Runner::Daemon, false, Some("lab-host")),
        "daemon"
    );

    // Remote daemon but host unknown: stays plain.
    assert_eq!(runner_label(Runner::Daemon, true, None), "daemon");

    // Remote daemon with a known host: host suffix appears.
    assert_eq!(
        runner_label(Runner::Daemon, true, Some("lab-host")),
        "daemon · lab-host"
    );
}

#[test]
fn transport_chip_is_stdio_or_http() {
    assert_eq!(transport_chip("stdio"), "stdio");
    assert_eq!(transport_chip("http"), "http");

    for t in ["stdio", "http"] {
        let chip = transport_chip(t);
        assert!(chip == "stdio" || chip == "http");
        assert_ne!(chip, "local");
        assert_ne!(chip, "remote");
    }
}

#[test]
fn server_rows_tags_runner_per_source() {
    let daemon = vec![McpServerView {
        name: "alpha".to_string(),
        transport: "stdio".to_string(),
        status: "error".to_string(),
        tool_count: 0,
        detail: Some("boom".to_string()),
        ..Default::default()
    }];
    let client = vec![cv("beta", "http", "running", 1)];

    let rows = server_rows(&daemon, &client);
    assert_eq!(rows.len(), 2);

    let alpha = rows
        .iter()
        .find(|r| r.name == "alpha")
        .expect("alpha row present");
    let beta = rows
        .iter()
        .find(|r| r.name == "beta")
        .expect("beta row present");

    assert_eq!(alpha.runner, Runner::Daemon);
    assert_eq!(alpha.transport, "stdio");
    assert_eq!(alpha.status, "error");
    assert_eq!(alpha.detail.as_deref(), Some("boom"));
    // Kind is derived from transport for daemon/client rows.
    assert_eq!(alpha.kind, ServerKind::Stdio);
    assert_eq!(alpha.disabled_reason, None);

    assert_eq!(beta.runner, Runner::Client);
    assert_eq!(beta.transport, "http");
    assert_eq!(beta.kind, ServerKind::Http);
    assert_eq!(beta.disabled_reason, None);
    // Client rows never carry a daemon-side detail.
    assert_eq!(beta.detail, None);
}

#[test]
fn server_rows_sorted_alphabetically_case_insensitive() {
    let daemon = vec![
        dv("Zeta", "stdio", "running", 1),
        dv("alpha", "stdio", "running", 1),
        dv("github", "http", "running", 2),
    ];
    let client = vec![
        cv("Beta", "http", "running", 1),
        cv("github", "stdio", "running", 1),
    ];

    let rows = server_rows(&daemon, &client);
    let names: Vec<&str> = rows.iter().map(|r| r.name.as_str()).collect();
    assert_eq!(names, vec!["alpha", "Beta", "github", "github", "Zeta"]);

    // Equal (case-insensitive) names break ties by runner: daemon first.
    let github_runners: Vec<Runner> = rows
        .iter()
        .filter(|r| r.name.eq_ignore_ascii_case("github"))
        .map(|r| r.runner)
        .collect();
    assert_eq!(github_runners, vec![Runner::Daemon, Runner::Client]);
}

#[test]
fn server_rows_merges_daemon_and_client_ordered() {
    let daemon = vec![
        dv("git", "http", "running", 2),
        dv("time", "stdio", "running", 1),
    ];
    let client = vec![cv("browser", "stdio", "running", 3)];

    let rows = server_rows(&daemon, &client);
    assert_eq!(rows.len(), 3);
    let names: Vec<&str> = rows.iter().map(|r| r.name.as_str()).collect();
    assert_eq!(names, vec!["browser", "git", "time"]);
}

#[test]
fn server_rows_handles_empty_sources() {
    assert!(server_rows(&[], &[]).is_empty());

    let only_daemon = server_rows(&[dv("alpha", "stdio", "running", 1)], &[]);
    assert_eq!(only_daemon.len(), 1);
    assert_eq!(only_daemon[0].runner, Runner::Daemon);

    let only_client = server_rows(&[], &[cv("beta", "http", "running", 1)]);
    assert_eq!(only_client.len(), 1);
    assert_eq!(only_client[0].runner, Runner::Client);

    let only_builtin = server_rows_with_builtins(&[], &[], &[bv("notes", 2, None)]);
    assert_eq!(only_builtin.len(), 1);
    assert_eq!(only_builtin[0].runner, Runner::Client);
    assert_eq!(only_builtin[0].kind, ServerKind::BuiltIn);
}

#[test]
fn filter_rows_all_daemon_client() {
    let daemon = vec![dv("alpha", "stdio", "running", 1)];
    let client = vec![cv("beta", "http", "running", 1)];
    // A built-in is client-runner, so it rides the Client filter with the
    // external client rows and is excluded by the Daemon filter.
    let builtins = vec![bv("notes", 2, None)];
    let rows = server_rows_with_builtins(&daemon, &client, &builtins);

    assert_eq!(RunnerFilter::default(), RunnerFilter::All);
    assert_eq!(filter_rows(&rows, RunnerFilter::All).len(), 3);

    let daemon_only = filter_rows(&rows, RunnerFilter::Daemon);
    assert_eq!(daemon_only.len(), 1);
    assert!(daemon_only.iter().all(|r| r.runner == Runner::Daemon));

    let client_only = filter_rows(&rows, RunnerFilter::Client);
    assert_eq!(client_only.len(), 2);
    assert!(client_only.iter().all(|r| r.runner == Runner::Client));
}

#[test]
fn builtin_row_has_builtin_kind_and_client_runner() {
    let rows = server_rows_with_builtins(&[], &[], &[bv("fileio", 7, None)]);
    assert_eq!(rows.len(), 1);

    let row = &rows[0];
    assert_eq!(row.name, "fileio");
    assert_eq!(row.runner, Runner::Client);
    assert_eq!(row.kind, ServerKind::BuiltIn);
    assert_eq!(row.tool_count, 7);
    // An un-shadowed built-in is active: no disabled reason.
    assert_eq!(row.disabled_reason, None);
}

#[test]
fn overridden_builtin_row_is_disabled_with_reason() {
    let rows = server_rows_with_builtins(&[], &[], &[bv("fileio", 7, Some("fileio-client"))]);
    assert_eq!(rows.len(), 1);

    let row = &rows[0];
    assert_eq!(row.kind, ServerKind::BuiltIn);
    assert_eq!(row.runner, Runner::Client);
    assert_eq!(
        row.disabled_reason,
        Some("overridden by the external \"fileio-client\"".to_string())
    );
}

#[test]
fn config_disabled_builtin_row_is_disabled_with_reason() {
    let rows = server_rows_with_builtins(&[], &[], &[bv_disabled("web", 2, None)]);
    assert_eq!(rows.len(), 1);

    let row = &rows[0];
    assert_eq!(row.kind, ServerKind::BuiltIn);
    assert_eq!(row.runner, Runner::Client);
    assert_eq!(row.status, "disabled");
    assert_eq!(
        row.disabled_reason,
        Some("disabled in this client's config".to_string())
    );
}

#[test]
fn config_disable_takes_precedence_over_override_in_reason() {
    // When a built-in is BOTH disabled in config and overridden by an external
    // server, the config-disable reason wins the display (the user's explicit
    // choice), and the row is still disabled.
    let rows =
        server_rows_with_builtins(&[], &[], &[bv_disabled("fileio", 7, Some("fileio-client"))]);
    assert_eq!(rows.len(), 1);

    let row = &rows[0];
    assert_eq!(row.status, "disabled");
    assert_eq!(
        row.disabled_reason,
        Some("disabled in this client's config".to_string()),
        "config-disable reason must win over the override reason"
    );
}

#[test]
fn rows_sort_stable_with_builtins() {
    // A mix of daemon, external-client, and built-in servers, including a
    // built-in shadowed by an external client server of the same name.
    let daemon = vec![
        dv("Zeta", "stdio", "running", 1),
        dv("git", "http", "running", 2),
    ];
    let client = vec![cv("fileio", "stdio", "running", 4)];
    let builtins = vec![bv("fileio", 3, Some("fileio")), bv("alpha", 2, None)];

    let rows = server_rows_with_builtins(&daemon, &client, &builtins);

    // Case-insensitive name order; daemon-before-client on ties; a shadowed
    // built-in slots directly after its active external override.
    let names: Vec<&str> = rows.iter().map(|r| r.name.as_str()).collect();
    assert_eq!(names, vec!["alpha", "fileio", "fileio", "git", "Zeta"]);

    // The "alpha" row is the active built-in.
    assert_eq!(rows[0].kind, ServerKind::BuiltIn);
    assert_eq!(rows[0].disabled_reason, None);

    // The two "fileio" rows: the external client override first (active),
    // then the shadowed built-in (disabled with a reason).
    assert_eq!(rows[1].runner, Runner::Client);
    assert_eq!(rows[1].kind, ServerKind::Stdio);
    assert_eq!(rows[1].disabled_reason, None);

    assert_eq!(rows[2].runner, Runner::Client);
    assert_eq!(rows[2].kind, ServerKind::BuiltIn);
    assert_eq!(
        rows[2].disabled_reason,
        Some("overridden by the external \"fileio\"".to_string())
    );

    // Daemon rows keep their transport-derived kinds.
    assert_eq!(rows[3].kind, ServerKind::Http); // git
    assert_eq!(rows[4].kind, ServerKind::Stdio); // Zeta
}

#[test]
fn server_rows_2arg_equals_with_empty_builtins() {
    let daemon = vec![
        dv("Zeta", "stdio", "running", 1),
        dv("git", "http", "running", 2),
    ];
    let client = vec![cv("browser", "stdio", "running", 3)];

    assert_eq!(
        server_rows(&daemon, &client),
        server_rows_with_builtins(&daemon, &client, &[])
    );
}

#[test]
fn kind_label_names_each_kind_and_matches_transport_chip() {
    assert_eq!(kind_label(ServerKind::Stdio), "stdio");
    assert_eq!(kind_label(ServerKind::Http), "http");
    assert_eq!(kind_label(ServerKind::BuiltIn), "built-in");

    assert_eq!(kind_label(ServerKind::Stdio), transport_chip("stdio"));
    assert_eq!(kind_label(ServerKind::Http), transport_chip("http"));
}
