use std::collections::BTreeMap;

use rusty_response_api::channel::server::handler::handle_server_response;
use rusty_response_api::channel::server::runner::{
    probe_step, Monitor, ProbeOutcome, ProberCommand,
};
use rusty_response_api::channel::server::utils::{is_changed, is_success, update_cache};
use rusty_response_api::channel::{ControlMessage, Error, ServerMessage, ServerStatus};
use rusty_response_api::model::Server;

fn server(id: i64, last_code: Option<i64>, last_reason: Option<&str>) -> Server {
    Server {
        id,
        user_id: 7,
        name: format!("srv{id}"),
        url: "http://a".to_string(),
        timeout: 1,
        interval: 1,
        last_seen_status_code: last_code,
        last_seen_reason: last_reason.map(|r| r.to_string()),
        is_turned_on: true,
        created_at: "2025-01-01 00:00:00".to_string(),
        updated_at: "2025-01-01 00:00:00".to_string(),
    }
}

fn online(id: i64, code: u16, body: &str) -> ServerMessage {
    ServerMessage::ServerStateChanged {
        status: ServerStatus::Online { status_code: code, body: body.as_bytes().to_vec() },
        server: server(id, Some(200), Some("")),
    }
}

fn unreachable(id: i64, code: u16, reason: &str, body: &str) -> ServerMessage {
    ServerMessage::unreachable(
        ServerStatus::unreachable(reason, body.as_bytes().to_vec(), code),
        server(id, Some(200), Some("")),
    )
}

#[test]
fn success_is_exactly_the_two_hundreds() {
    assert!(!is_success(199));
    assert!(is_success(200));
    assert!(is_success(299));
    assert!(!is_success(300));
    assert!(!is_success(0));
    assert!(!is_success(-200));
}

#[test]
fn probe_boundaries_decide_failure_and_success() {
    let s = server(1, None, None);
    for (code, success) in [(199u16, false), (200, true), (299, true), (300, false)] {
        let (local, _) = probe_step(
            &s,
            !success,
            ProbeOutcome::Answered { status_code: code, body: Some(vec![]) },
        );
        assert_eq!(local, success);
    }
}

#[test]
fn is_changed_follows_the_transition_rule() {
    let mut statuses: BTreeMap<i64, (i64, String)> = BTreeMap::new();
    assert!(is_changed(&statuses, 1, 200, None));
    statuses.insert(1, (200, String::new()));
    assert!(!is_changed(&statuses, 1, 200, None));
    assert!(is_changed(&statuses, 1, 500, None));
    let same = String::new();
    assert!(!is_changed(&statuses, 1, 200, Some(&same)));
    let other = "X".to_string();
    assert!(is_changed(&statuses, 1, 200, Some(&other)));
    assert!(is_changed(&statuses, 2, 200, None));
}

#[test]
fn empty_cached_reason_and_new_reason_is_a_transition() {
    let mut statuses: BTreeMap<i64, (i64, String)> = BTreeMap::new();
    statuses.insert(1, (500, String::new()));
    let reason = "X".to_string();
    assert!(is_changed(&statuses, 1, 500, Some(&reason)));
}

#[test]
fn update_cache_overwrites_code_and_keeps_reason_without_one() {
    let mut statuses: BTreeMap<i64, (i64, String)> = BTreeMap::new();
    statuses.insert(1, (500, "HTTP 500".to_string()));
    update_cache(&mut statuses, 1, 200, None);
    assert_eq!(statuses.get(&1), Some(&(200, "HTTP 500".to_string())));
    update_cache(&mut statuses, 1, 404, Some("HTTP 404".to_string()));
    assert_eq!(statuses.get(&1), Some(&(404, "HTTP 404".to_string())));
    assert_eq!(statuses.len(), 1);
}

#[test]
fn update_cache_inserts_an_unknown_server() {
    let mut statuses: BTreeMap<i64, (i64, String)> = BTreeMap::new();
    update_cache(&mut statuses, 9, 200, None);
    assert_eq!(statuses.get(&9), Some(&(200, String::new())));
    update_cache(&mut statuses, 8, 500, Some("down".to_string()));
    assert_eq!(statuses.get(&8), Some(&(500, "down".to_string())));
}

#[test]
fn channel_error_counts_as_500_with_fixed_reason_and_empty_body() {
    let mut statuses: BTreeMap<i64, (i64, String)> = BTreeMap::new();
    statuses.insert(1, (200, String::new()));
    let msg = ServerMessage::error(
        Error::ReqwestError("timed out".to_string()),
        server(1, Some(200), Some("")),
    );
    let plan = handle_server_response(msg, &mut statuses);
    assert!(plan.log.failed);
    assert_eq!(plan.log.status_code, 500);
    assert_eq!(plan.log.reason.as_deref(), Some("Error occurred during fetching"));
    assert_eq!(plan.log.body.as_deref(), Some(""));
    assert_eq!(plan.log.server_id, 1);
    let update = plan.status_update.expect("a transition");
    assert_eq!(update.server_id, 1);
    assert_eq!(update.code, 500);
    assert_eq!(update.reason, "Error occurred during fetching");
    assert!(plan.notify);
    assert_eq!(statuses.get(&1), Some(&(500, "Error occurred during fetching".to_string())));
}

#[test]
fn steady_success_writes_logs_and_nothing_else() {
    let mut statuses: BTreeMap<i64, (i64, String)> = BTreeMap::new();
    statuses.insert(1, (200, String::new()));
    let mut logs = 0;
    let mut updates = 0;
    let mut notifications = 0;
    for _ in 0..3 {
        let plan = handle_server_response(online(1, 200, "ok"), &mut statuses);
        assert!(!plan.log.failed);
        assert_eq!(plan.log.status_code, 200);
        assert_eq!(plan.log.body.as_deref(), Some("ok"));
        assert_eq!(plan.log.reason, None);
        logs += 1;
        if plan.status_update.is_some() {
            updates += 1;
        }
        if plan.notify {
            notifications += 1;
        }
    }
    assert_eq!(logs, 3);
    assert_eq!(updates, 0);
    assert_eq!(notifications, 0);
}

#[test]
fn failure_then_recovery_gives_two_updates() {
    let mut statuses: BTreeMap<i64, (i64, String)> = BTreeMap::new();
    statuses.insert(1, (200, String::new()));
    let run = vec![
        online(1, 200, "ok"),
        unreachable(1, 500, "HTTP 500", "boom"),
        unreachable(1, 500, "HTTP 500", "boom"),
        online(1, 200, "ok"),
    ];
    let mut logs = 0;
    let mut updates: Vec<(i64, String)> = Vec::new();
    let mut notifications = 0;
    for msg in run {
        let plan = handle_server_response(msg, &mut statuses);
        logs += 1;
        if let Some(update) = plan.status_update {
            updates.push((update.code, update.reason));
        }
        if plan.notify {
            notifications += 1;
        }
    }
    assert_eq!(logs, 4);
    assert_eq!(updates, vec![(500, "HTTP 500".to_string()), (200, String::new())]);
    assert_eq!(notifications, 2);
}

#[test]
fn transport_error_on_first_probe() {
    let s = server(1, Some(200), Some(""));
    let (monitor, commands) = Monitor::setup(&vec![s.clone()]);
    let mut monitor = monitor;
    let seeded = match &commands[0] {
        ProberCommand::Spawn { last_seen_success, .. } => *last_seen_success,
        _ => panic!("startup spawns"),
    };
    assert!(seeded);
    let (local, sent) = probe_step(
        &s,
        seeded,
        ProbeOutcome::Failed { error: Error::ReqwestError("connection refused".to_string()) },
    );
    assert!(!local);
    let plan = monitor.observe(sent.expect("an edge"));
    assert!(plan.log.failed);
    assert_eq!(plan.log.status_code, 500);
    assert_eq!(plan.log.reason.as_deref(), Some("Error occurred during fetching"));
    assert_eq!(plan.log.body.as_deref(), Some(""));
    assert!(plan.status_update.is_some());
    assert!(plan.notify);
}

#[test]
fn prober_emits_only_on_edges() {
    let s = server(1, None, None);
    let answers = [200u16, 500, 500, 200, 200, 404];
    let mut local = true;
    let mut emitted = Vec::new();
    for code in answers {
        let (next, sent) = probe_step(
            &s,
            local,
            ProbeOutcome::Answered { status_code: code, body: Some(b"x".to_vec()) },
        );
        local = next;
        emitted.push(sent.is_some());
    }
    assert_eq!(emitted, vec![false, true, false, true, false, true]);
    assert!(!local);
}

#[test]
fn prober_gives_http_reason_for_failures() {
    let s = server(3, None, None);
    let (_, sent) = probe_step(
        &s,
        true,
        ProbeOutcome::Answered { status_code: 503, body: Some(b"down".to_vec()) },
    );
    match sent.expect("an edge") {
        ServerMessage::ServerStateChanged {
            status: ServerStatus::Unreachable { reason, body, status_code },
            server,
        } => {
            assert_eq!(reason, "HTTP 503");
            assert_eq!(body, b"down".to_vec());
            assert_eq!(status_code, 503);
            assert_eq!(server.id, 3);
        }
        other => panic!("unexpected {other:?}"),
    }
}

#[test]
fn unreadable_body_is_replaced_and_still_follows_the_edge_rule() {
    let s = server(1, None, None);
    let (local, sent) =
        probe_step(&s, false, ProbeOutcome::Answered { status_code: 200, body: None });
    assert!(local);
    match sent.expect("an edge") {
        ServerMessage::ServerStateChanged {
            status: ServerStatus::Online { body, status_code },
            ..
        } => {
            assert_eq!(body, b"Unable to read body".to_vec());
            assert_eq!(status_code, 200);
        }
        other => panic!("unexpected {other:?}"),
    }
    let (local, sent) =
        probe_step(&s, true, ProbeOutcome::Answered { status_code: 200, body: None });
    assert!(local);
    assert!(sent.is_none());
    let (_, sent) =
        probe_step(&s, true, ProbeOutcome::Answered { status_code: 500, body: None });
    match sent.expect("an edge") {
        ServerMessage::ServerStateChanged {
            status: ServerStatus::Unreachable { body, .. },
            ..
        } => assert_eq!(body, b"Unable to read body".to_vec()),
        other => panic!("unexpected {other:?}"),
    }
}

#[test]
fn lossy_body_replaces_invalid_bytes() {
    let mut statuses: BTreeMap<i64, (i64, String)> = BTreeMap::new();
    let msg = ServerMessage::ServerStateChanged {
        status: ServerStatus::Online { status_code: 200, body: vec![b'o', 0xff, b'k'] },
        server: server(1, None, None),
    };
    let plan = handle_server_response(msg, &mut statuses);
    assert_eq!(plan.log.body.as_deref(), Some("o\u{fffd}k"));
}

#[test]
fn startup_seeds_cache_and_probers() {
    let servers = vec![
        server(1, Some(200), Some("")),
        server(2, Some(500), Some("HTTP 500")),
        server(3, None, None),
    ];
    let (monitor, commands) = Monitor::setup(&servers);
    assert_eq!(monitor.prober_count(), 3);
    assert_eq!(monitor.cached_count(), 3);
    assert_eq!(monitor.cached_status(1), Some((200, String::new())));
    assert_eq!(monitor.cached_status(2), Some((500, "HTTP 500".to_string())));
    assert_eq!(monitor.cached_status(3), Some((0, String::new())));
    let seeds: Vec<(i64, bool)> = commands
        .iter()
        .map(|c| match c {
            ProberCommand::Spawn { server, last_seen_success } => (server.id, *last_seen_success),
            other => panic!("unexpected {other:?}"),
        })
        .collect();
    assert_eq!(seeds, vec![(1, true), (2, false), (3, true)]);
}

#[test]
fn add_modify_remove_shutdown() {
    let (monitor, commands) = Monitor::setup(&Vec::new());
    let mut monitor = monitor;
    assert!(commands.is_empty());
    let mut spawned = 0;
    let mut cancelled = 0;
    let mut count = |commands: &Vec<ProberCommand>| {
        for c in commands {
            match c {
                ProberCommand::Spawn { last_seen_success, .. } => {
                    assert!(*last_seen_success);
                    spawned += 1
                }
                ProberCommand::Cancel { server_id } => {
                    assert_eq!(*server_id, 1);
                    cancelled += 1
                }
                ProberCommand::CancelAll => {}
            }
        }
    };
    let step = monitor.control(ControlMessage::AddServer(server(1, None, None)));
    assert!(!step.shutdown);
    count(&step.commands);
    assert!(monitor.has_prober(1));
    let step = monitor.control(ControlMessage::ModifyServer(server(1, Some(200), None)));
    assert!(!step.missing_status && !step.missing_handle);
    count(&step.commands);
    let step = monitor.control(ControlMessage::RemoveServer(1));
    assert!(!step.missing_status && !step.missing_handle);
    count(&step.commands);
    let step = monitor.control(ControlMessage::Shutdown);
    assert!(step.shutdown);
    assert!(matches!(step.commands.as_slice(), [ProberCommand::CancelAll]));
    assert_eq!(spawned, 2);
    assert_eq!(cancelled, 2);
    assert_eq!(monitor.cached_count(), 0);
    assert_eq!(monitor.prober_count(), 0);
}

#[test]
fn modify_twice_starts_two_probers_and_leaves_others_alone() {
    let (monitor, _) = Monitor::setup(&vec![server(1, Some(200), None), server(2, Some(404), None)]);
    let mut monitor = monitor;
    let first = monitor.control(ControlMessage::ModifyServer(server(1, Some(200), None)));
    let second = monitor.control(ControlMessage::ModifyServer(server(1, Some(200), None)));
    let mut spawns = 0;
    for c in first.commands.iter().chain(second.commands.iter()) {
        match c {
            ProberCommand::Spawn { server, .. } => {
                assert_eq!(server.id, 1);
                spawns += 1;
            }
            ProberCommand::Cancel { server_id } => assert_eq!(*server_id, 1),
            ProberCommand::CancelAll => panic!("no shutdown was asked for"),
        }
    }
    assert_eq!(spawns, 2);
    assert!(matches!(
        second.commands.as_slice(),
        [ProberCommand::Cancel { server_id: 1 }, ProberCommand::Spawn { .. }]
    ));
    assert!(monitor.has_prober(2));
    assert_eq!(monitor.cached_status(2), Some((404, String::new())));
    assert_eq!(monitor.prober_count(), 2);
}

#[test]
fn remove_of_unknown_server_is_reported() {
    let mut monitor = Monitor::new();
    let step = monitor.control(ControlMessage::RemoveServer(5));
    assert!(step.commands.is_empty());
    assert!(step.missing_status);
    assert!(step.missing_handle);
    assert!(!step.shutdown);
}

#[test]
fn shutdown_cancels_all_five() {
    let servers: Vec<Server> = (1..=5).map(|id| server(id, Some(200), None)).collect();
    let (monitor, commands) = Monitor::setup(&servers);
    let mut monitor = monitor;
    assert_eq!(commands.len(), 5);
    let step = monitor.control(ControlMessage::Shutdown);
    assert!(step.shutdown);
    assert_eq!(monitor.prober_count(), 0);
    for id in 1..=5 {
        assert!(!monitor.has_prober(id));
    }
}

#[test]
fn every_prober_has_a_cache_entry() {
    let (monitor, _) = Monitor::setup(&vec![server(1, None, None)]);
    let mut monitor = monitor;
    monitor.control(ControlMessage::AddServer(server(2, None, None)));
    monitor.control(ControlMessage::ModifyServer(server(3, None, None)));
    monitor.control(ControlMessage::RemoveServer(1));
    monitor.observe(online(9, 200, "late"));
    for id in [1, 2, 3, 9] {
        if monitor.has_prober(id) {
            assert!(monitor.cached_status(id).is_some());
        }
    }
    assert!(!monitor.has_prober(1));
    assert!(monitor.has_prober(2) && monitor.has_prober(3));
}

#[test]
fn channel_error_messages() {
    assert_eq!(Error::Io("broken pipe".to_string()).to_string(), "broken pipe");
    assert_eq!(
        Error::ReqwestError("timed out".to_string()).to_string(),
        "http error: timed out"
    );
}
