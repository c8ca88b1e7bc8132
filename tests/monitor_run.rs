use compose_monitor::error::RunError;
use compose_monitor::manifest::{ServiceEntry, ServiceManifest};
use compose_monitor::monitor::{names_match, record_tick, ContainerSnapshot, Monitor, MonitorAction};

fn snap(id: &str, image: &str, names: &[&str], status: &str) -> ContainerSnapshot {
    ContainerSnapshot {
        id: id.to_string(),
        image: image.to_string(),
        names: names.iter().map(|n| n.to_string()).collect(),
        status: status.to_string(),
    }
}

fn entry(key: &str, image: Option<&str>, container_name: Option<&str>) -> ServiceEntry {
    ServiceEntry {
        key: key.to_string(),
        image: image.map(|s| s.to_string()),
        container_name: container_name.map(|s| s.to_string()),
    }
}

struct Outcome {
    result: Result<Vec<ContainerSnapshot>, RunError>,
    queries: u64,
    sleeps: u64,
}

/// Drives a run, asking `engine` for the listing of each tick (numbered from 1).
fn drive(
    expected: Vec<String>,
    ticks: u64,
    mut engine: impl FnMut(u64) -> Result<Vec<ContainerSnapshot>, String>,
) -> Outcome {
    let mut m = Monitor::new(expected, ticks);
    let mut queries: u64 = 0;
    let mut sleeps: u64 = 0;
    loop {
        match m.next_action() {
            MonitorAction::QueryEngine => {
                queries += 1;
                if let Err(e) = m.on_listing(engine(queries)) {
                    assert_eq!(m.next_action(), MonitorAction::Abort);
                    return Outcome { result: Err(e), queries, sleeps };
                }
            }
            MonitorAction::Sleep => {
                sleeps += 1;
                m.on_slept();
            }
            MonitorAction::Report => {
                assert_eq!(m.queries(), queries);
                assert_eq!(m.sleeps(), sleeps);
                return Outcome { result: Ok(m.into_log()), queries, sleeps };
            }
            MonitorAction::Abort => panic!("a run aborts only on a failed query"),
        }
    }
}

fn web_and_db(tick: u64) -> Vec<ContainerSnapshot> {
    vec![
        snap(&format!("web-id-{}", tick), "nginx:latest", &["/web"], &format!("Up {} seconds", tick)),
        snap(&format!("db-id-{}", tick), "postgres:16", &["/db"], "Up"),
    ]
}

#[test]
fn named_service_is_logged_once_per_tick() {
    let manifest = ServiceManifest::from_entries(&vec![
        entry("frontend", Some("nginx:latest"), Some("web")),
        entry("database", Some("postgres:16"), None),
    ])
    .unwrap();
    let expected = manifest.expected_names();
    assert_eq!(expected, vec!["web".to_string()]);
    let out = drive(expected, 3, |t| Ok(web_and_db(t)));
    let log = out.result.unwrap();
    assert_eq!(log.len(), 3);
    for (i, c) in log.iter().enumerate() {
        let tick = i as u64 + 1;
        assert_eq!(c.id, format!("web-id-{}", tick));
        assert_eq!(c.image, "nginx:latest");
        assert_eq!(c.names, vec!["/web".to_string()]);
        assert_eq!(c.status, format!("Up {} seconds", tick));
    }
}

#[test]
fn manifest_without_container_names_logs_nothing() {
    let manifest = ServiceManifest::from_entries(&vec![
        entry("frontend", Some("nginx:latest"), None),
        entry("database", Some("postgres:16"), None),
    ])
    .unwrap();
    let expected = manifest.expected_names();
    assert!(expected.is_empty());
    for ticks in [0u64, 1, 4] {
        let out = drive(expected.clone(), ticks, |t| {
            Ok(vec![snap("a", "img", &["/frontend", "/web"], "Up"), snap(&t.to_string(), "x", &["database"], "Exited")])
        });
        assert!(out.result.unwrap().is_empty());
        assert_eq!(out.queries, ticks);
    }
}

#[test]
fn failed_query_aborts_and_discards_earlier_ticks() {
    let out = drive(vec!["web".to_string()], 5, |t| {
        if t == 2 {
            Err("engine unreachable".to_string())
        } else {
            Ok(web_and_db(t))
        }
    });
    match out.result {
        Err(RunError::EngineQuery(m)) => assert_eq!(m, "engine unreachable"),
        other => panic!("expected an engine query error, got {:?}", other),
    }
    assert_eq!(out.queries, 2);
    assert_eq!(out.sleeps, 1);
}

#[test]
fn query_and_pause_once_per_tick() {
    for ticks in [0u64, 1, 2, 10] {
        let out = drive(vec!["web".to_string()], ticks, |_| Ok(vec![]));
        assert!(out.result.unwrap().is_empty());
        assert_eq!(out.queries, ticks);
        assert_eq!(out.sleeps, ticks);
    }
}

#[test]
fn zero_ticks_reports_at_once() {
    let m = Monitor::new(vec!["web".to_string()], 0);
    assert_eq!(m.next_action(), MonitorAction::Report);
    assert!(m.into_log().is_empty());
}

#[test]
fn pause_follows_every_query_including_the_last() {
    let mut m = Monitor::new(vec!["web".to_string()], 1);
    assert_eq!(m.next_action(), MonitorAction::QueryEngine);
    m.on_listing(Ok(web_and_db(1))).unwrap();
    assert_eq!(m.next_action(), MonitorAction::Sleep);
    m.on_slept();
    assert_eq!(m.next_action(), MonitorAction::Report);
    assert_eq!(m.ticks(), 1);
}

#[test]
fn repeated_container_is_not_deduplicated() {
    let out = drive(vec!["web".to_string()], 2, |_| Ok(vec![snap("same", "nginx", &["/web"], "Up")]));
    let log = out.result.unwrap();
    assert_eq!(log.len(), 2);
    assert_eq!(log[0].id, "same");
    assert_eq!(log[1].id, "same");
}

#[test]
fn tick_keeps_engine_order_and_only_matches() {
    let mut log = vec![snap("old", "i", &["/web"], "Up")];
    let listing = vec![
        snap("c3", "i3", &["/api"], "Up"),
        snap("c1", "i1", &["other"], "Up"),
        snap("c2", "i2", &["//web", "/alias"], "Restarting"),
    ];
    let expected = vec!["web".to_string(), "api".to_string()];
    record_tick(&mut log, &listing, &expected);
    let ids: Vec<&str> = log.iter().map(|c| c.id.as_str()).collect();
    assert_eq!(ids, vec!["old", "c3", "c2"]);
    assert_eq!(log[2].status, "Restarting");
}

#[test]
fn names_are_compared_after_stripping() {
    let expected = vec!["web".to_string()];
    assert!(names_match(&vec!["/web".to_string()], &expected));
    assert!(names_match(&vec!["web".to_string()], &expected));
    assert!(names_match(&vec!["/db".to_string(), "///web".to_string()], &expected));
    assert!(!names_match(&vec!["/webx".to_string()], &expected));
    assert!(!names_match(&vec!["web/".to_string(), "/we".to_string()], &expected));
    assert!(!names_match(&vec![], &expected));
    assert!(!names_match(&vec!["/web".to_string()], &vec![]));
}

#[test]
fn duplicated_expected_names_collapse() {
    let manifest = ServiceManifest::from_entries(&vec![
        entry("a", Some("img"), Some("web")),
        entry("b", Some("img"), Some("web")),
    ])
    .unwrap();
    let expected = manifest.expected_names();
    let out = drive(expected, 1, |_| Ok(vec![snap("w", "img", &["/web"], "Up")]));
    assert_eq!(out.result.unwrap().len(), 1);
}

#[test]
fn failed_query_on_first_tick() {
    let out = drive(vec![], 3, |_| Err("malformed response".to_string()));
    assert!(matches!(out.result, Err(RunError::EngineQuery(_))));
    assert_eq!(out.queries, 1);
    assert_eq!(out.sleeps, 0);
}
