use mussh::report::{exit_code, summarize, AggregateStatus, FailReason};
use mussh::session::{auth_method, outcome_of_event, AuthMethod, HostStatus, SessionEvent};
use mussh::{dry_run, resolve, Alias, Command, Host, Hosts, MusshToml, ResolveError};

fn host(hostname: &str, username: &str, aliases: Vec<(&str, &str)>) -> Host {
    Host {
        hostname: hostname.to_string(),
        pem: None,
        port: None,
        username: username.to_string(),
        alias: aliases
            .into_iter()
            .map(|(aliasfor, command)| Alias {
                command: command.to_string(),
                aliasfor: aliasfor.to_string(),
            })
            .collect(),
    }
}

fn group(names: Vec<&str>) -> Hosts {
    Hosts {
        hostnames: names.into_iter().map(|n| n.to_string()).collect(),
    }
}

/// A catalog with groups `local` (m1, m2) and `all` (m1, m2, m3), hosts
/// m1..m3 where m1 aliases `python` to `python3`, and the base command
/// `python` -> `python -V`.
fn sample_catalog() -> MusshToml {
    MusshToml {
        hostlist: Some(vec![
            ("local".to_string(), group(vec!["m1", "m2"])),
            ("all".to_string(), group(vec!["m1", "m2", "m3"])),
        ]),
        hosts: Some(vec![
            ("m1".to_string(), host("10.0.0.1", "alice", vec![("python", "python3")])),
            ("m2".to_string(), host("10.0.0.2", "alice", vec![])),
            ("m3".to_string(), host("10.0.0.3", "bob", vec![("ls", "ls -al")])),
        ]),
        cmd: Some(vec![("python".to_string(), Command { command: "python -V".to_string() })]),
    }
}

#[test]
fn command_line() {
    // A dry run of `python` on `local`, then on `all`, exits 0: the
    // preview touches no host and nothing fails.
    let catalog = sample_catalog();
    let report = dry_run(&catalog, &"local".to_string(), &"python".to_string()).unwrap();
    assert!(0 == exit_code(&report));
    let report = dry_run(&catalog, &"all".to_string(), &"python".to_string()).unwrap();
    assert!(0 == exit_code(&report));
}

#[test]
fn resolve_alias_and_base() {
    // `all` lists m1 (alias python -> python3) and m2, m3 (no alias):
    // the effective commands are the alias string and the base template.
    let catalog = sample_catalog();
    let items = resolve(&catalog, &"all".to_string(), &"python".to_string()).unwrap();
    assert_eq!(items.len(), 3);
    assert_eq!(items[0].name, "m1");
    assert_eq!(items[0].command, "python3");
    assert_eq!(items[0].host.hostname, "10.0.0.1");
    assert_eq!(items[1].name, "m2");
    assert_eq!(items[1].command, "python -V");
    assert_eq!(items[2].name, "m3");
    assert_eq!(items[2].command, "python -V");
}

#[test]
fn resolve_scenario_all_python() {
    // `all` lists h1 and h2; h1 aliases `python` to `python3`, h2 has no
    // alias and the base command is `python --version`: the work items
    // are [(h1, "python3"), (h2, "python --version")].
    let catalog = MusshToml {
        hostlist: Some(vec![("all".to_string(), group(vec!["h1", "h2"]))]),
        hosts: Some(vec![
            ("h1".to_string(), host("h1.example.net", "op", vec![("python", "python3")])),
            ("h2".to_string(), host("h2.example.net", "op", vec![])),
        ]),
        cmd: Some(vec![(
            "python".to_string(),
            Command { command: "python --version".to_string() },
        )]),
    };
    let items = resolve(&catalog, &"all".to_string(), &"python".to_string()).unwrap();
    assert_eq!(items.len(), 2);
    assert_eq!(items[0].name, "h1");
    assert_eq!(items[0].command, "python3");
    assert_eq!(items[1].name, "h2");
    assert_eq!(items[1].command, "python --version");
}

#[test]
fn duplicate_alias_last_wins() {
    // Two alias entries for `python` on one host: the one declared last
    // overrides the earlier one.
    let catalog = MusshToml {
        hostlist: Some(vec![("all".to_string(), group(vec!["h1"]))]),
        hosts: Some(vec![(
            "h1".to_string(),
            host("h1.example.net", "op", vec![("python", "python2"), ("python", "python3")]),
        )]),
        cmd: Some(vec![(
            "python".to_string(),
            Command { command: "python --version".to_string() },
        )]),
    };
    let items = resolve(&catalog, &"all".to_string(), &"python".to_string()).unwrap();
    assert_eq!(items.len(), 1);
    assert_eq!(items[0].command, "python3");
}

#[test]
fn auth_prefers_private_key() {
    let mut h = host("h1.example.net", "op", vec![]);
    h.pem = Some("/home/op/.ssh/id_ed25519".to_string());
    assert!(matches!(auth_method(&h), AuthMethod::PrivateKey(p) if p == "/home/op/.ssh/id_ed25519"));
    h.pem = None;
    assert!(matches!(auth_method(&h), AuthMethod::Agent));
}

#[test]
fn resolve_order_matches_group() {
    let catalog = sample_catalog();
    let items = resolve(&catalog, &"local".to_string(), &"python".to_string()).unwrap();
    assert_eq!(items.len(), 2);
    assert_eq!(items[0].name, "m1");
    assert_eq!(items[1].name, "m2");
}

#[test]
fn resolve_unknown_group() {
    let catalog = sample_catalog();
    let err = resolve(&catalog, &"missing".to_string(), &"python".to_string()).unwrap_err();
    assert_eq!(err, ResolveError::UnknownGroup);
}

#[test]
fn resolve_unknown_command() {
    let catalog = sample_catalog();
    let err = resolve(&catalog, &"local".to_string(), &"uptime".to_string()).unwrap_err();
    assert_eq!(err, ResolveError::UnknownCommand);
}

#[test]
fn resolve_unknown_host() {
    let mut catalog = sample_catalog();
    catalog
        .hostlist
        .as_mut()
        .unwrap()
        .push(("broken".to_string(), group(vec!["m1", "ghost"])));
    let err = resolve(&catalog, &"broken".to_string(), &"python".to_string()).unwrap_err();
    assert_eq!(err, ResolveError::UnknownHost);
}

#[test]
fn resolve_empty_catalog() {
    let catalog = MusshToml { hostlist: None, hosts: None, cmd: None };
    let err = resolve(&catalog, &"local".to_string(), &"python".to_string()).unwrap_err();
    assert_eq!(err, ResolveError::UnknownGroup);
}

#[test]
fn resolve_idempotent() {
    // Re-running resolution with the same catalog and inputs yields an
    // identical work-item list.
    let catalog = sample_catalog();
    let a = resolve(&catalog, &"all".to_string(), &"python".to_string()).unwrap();
    let b = resolve(&catalog, &"all".to_string(), &"python".to_string()).unwrap();
    assert_eq!(a.len(), b.len());
    for (x, y) in a.iter().zip(b.iter()) {
        assert_eq!(x.name, y.name);
        assert_eq!(x.command, y.command);
        assert_eq!(x.host.hostname, y.host.hostname);
        assert_eq!(x.host.username, y.host.username);
    }
}

#[test]
fn dry_run_skips_and_records_command() {
    // Dry run: one Skipped outcome per work item, recording exactly the
    // effective command, and the run exits 0.
    let catalog = sample_catalog();
    let report = dry_run(&catalog, &"all".to_string(), &"python".to_string()).unwrap();
    assert_eq!(report.outcomes.len(), 3);
    assert_eq!(report.outcomes[0].host, "m1");
    assert_eq!(report.outcomes[0].status, HostStatus::Skipped);
    assert_eq!(report.outcomes[0].stdout, "python3");
    assert_eq!(report.outcomes[1].status, HostStatus::Skipped);
    assert_eq!(report.outcomes[1].stdout, "python -V");
    assert_eq!(report.outcomes[2].status, HostStatus::Skipped);
    assert_eq!(report.aggregate, AggregateStatus::Success);
    assert!(report.failures.is_empty());
    assert_eq!(exit_code(&report), 0);
}

#[test]
fn dry_run_unknown_group() {
    let catalog = sample_catalog();
    let err = dry_run(&catalog, &"missing".to_string(), &"python".to_string()).unwrap_err();
    assert_eq!(err, ResolveError::UnknownGroup);
}

#[test]
fn outcome_events() {
    let o = outcome_of_event(
        &"m1".to_string(),
        SessionEvent::Completed {
            exit: 0,
            stdout: "Python 3.11".to_string(),
            stderr: String::new(),
        },
        37,
    );
    assert_eq!(o.host, "m1");
    assert_eq!(o.status, HostStatus::Success);
    assert_eq!(o.stdout, "Python 3.11");
    assert_eq!(o.elapsed_ms, 37);

    let o = outcome_of_event(
        &"m2".to_string(),
        SessionEvent::Completed { exit: 3, stdout: String::new(), stderr: "no such file".to_string() },
        5,
    );
    assert_eq!(o.status, HostStatus::Failure(3));
    assert_eq!(o.stderr, "no such file");

    let o = outcome_of_event(
        &"m2".to_string(),
        SessionEvent::AuthFailed { detail: "all keys refused".to_string() },
        2,
    );
    assert_eq!(o.status, HostStatus::ConnectionError);
    assert_eq!(o.stderr, "all keys refused");

    let o = outcome_of_event(
        &"m3".to_string(),
        SessionEvent::TimedOut { stdout: "partial".to_string(), stderr: String::new() },
        30000,
    );
    assert_eq!(o.status, HostStatus::Timeout);
    assert_eq!(o.stdout, "partial");
}

#[test]
fn one_connection_error_leaves_success_intact() {
    // Group of two hosts: `a` reachable, `b` unreachable.  The report
    // keeps a -> Success, b -> ConnectionError, and aggregates Failure.
    let a = outcome_of_event(
        &"a".to_string(),
        SessionEvent::Completed { exit: 0, stdout: "pong".to_string(), stderr: String::new() },
        12,
    );
    let b = outcome_of_event(
        &"b".to_string(),
        SessionEvent::ConnectFailed { detail: "connection refused".to_string() },
        3,
    );
    let report = summarize(vec![a, b]);
    assert_eq!(report.outcomes.len(), 2);
    assert_eq!(report.outcomes[0].host, "a");
    assert_eq!(report.outcomes[0].status, HostStatus::Success);
    assert_eq!(report.outcomes[1].host, "b");
    assert_eq!(report.outcomes[1].status, HostStatus::ConnectionError);
    assert_eq!(report.aggregate, AggregateStatus::Failure);
    assert_eq!(report.failures.len(), 1);
    assert_eq!(report.failures[0].host, "b");
    assert_eq!(report.failures[0].reason, FailReason::ConnectionError);
    assert_eq!(exit_code(&report), 1);
}

#[test]
fn summarize_reasons() {
    let ok = outcome_of_event(
        &"h1".to_string(),
        SessionEvent::Completed { exit: 0, stdout: String::new(), stderr: String::new() },
        1,
    );
    let bad_exit = outcome_of_event(
        &"h2".to_string(),
        SessionEvent::Completed { exit: 7, stdout: String::new(), stderr: String::new() },
        1,
    );
    let late = outcome_of_event(
        &"h3".to_string(),
        SessionEvent::TimedOut { stdout: String::new(), stderr: String::new() },
        1,
    );
    let report = summarize(vec![ok, bad_exit, late]);
    assert_eq!(report.aggregate, AggregateStatus::Failure);
    assert_eq!(report.failures.len(), 2);
    assert_eq!(report.failures[0].host, "h2");
    assert_eq!(report.failures[0].reason, FailReason::NonZeroExit(7));
    assert_eq!(report.failures[1].host, "h3");
    assert_eq!(report.failures[1].reason, FailReason::Timeout);
}

#[test]
fn summarize_empty_is_success() {
    let report = summarize(Vec::new());
    assert_eq!(report.aggregate, AggregateStatus::Success);
    assert!(report.outcomes.is_empty());
    assert!(report.failures.is_empty());
    assert_eq!(exit_code(&report), 0);
}

#[test]
fn catalog_accessors() {
    let catalog = sample_catalog();
    let groups = catalog.hostlist().unwrap();
    assert_eq!(groups.len(), 2);
    assert_eq!(groups[0].0, "local");
    assert_eq!(groups[0].1.hostnames(), &vec!["m1".to_string(), "m2".to_string()]);
    let hosts = catalog.hosts().unwrap();
    assert_eq!(hosts[0].1.hostname(), "10.0.0.1");
    assert_eq!(hosts[0].1.username(), "alice");
    assert_eq!(hosts[0].1.port(), None);
    assert_eq!(hosts[0].1.effective_port(), 22);
    assert_eq!(hosts[0].1.pem(), None);
    let aliases = hosts[0].1.alias().unwrap();
    assert_eq!(aliases, vec![("python".to_string(), "python3".to_string())]);
    assert!(hosts[1].1.alias().is_none());
    let cmds = catalog.cmd().unwrap();
    assert_eq!(cmds[0].0, "python");
    assert_eq!(cmds[0].1.command(), "python -V");
    let empty = MusshToml::new(None, None, None);
    assert!(empty.hostlist().is_none());
    assert!(empty.hosts().is_none());
    assert!(empty.cmd().is_none());
}

#[test]
fn host_fields_carry_through() {
    let h = Host {
        hostname: "example.net".to_string(),
        pem: Some("/home/alice/.ssh/id_ed25519".to_string()),
        port: Some(2222),
        username: "alice".to_string(),
        alias: vec![Alias { command: "ls -al".to_string(), aliasfor: "ls".to_string() }],
    };
    assert_eq!(h.hostname(), "example.net");
    assert_eq!(h.pem(), Some(&"/home/alice/.ssh/id_ed25519".to_string()));
    assert_eq!(h.port(), Some(2222));
    assert_eq!(h.effective_port(), 2222);
    assert_eq!(h.alias[0].command(), "ls -al");
    assert_eq!(h.alias[0].aliasfor(), "ls");
}
