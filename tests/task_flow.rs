use docker_autoheal::history::{count_text, record_count, record_line, JsonRecord};
use docker_autoheal::inspect::{HealthLogEntry, HealthState, InspectDetail};
use docker_autoheal::policy::Defaults;
use docker_autoheal::report::Level;
use docker_autoheal::task::{Action, PostActionOutcome, Stage, Task, TaskVariablesList};

const DATE: &str = "2024-05-01 12:00:00+0200";

fn config(history: bool) -> TaskVariablesList {
    TaskVariablesList {
        hostname: "host-a".to_string(),
        apprise_url: String::new(),
        webhook_key: String::new(),
        webhook_url: String::new(),
        post_action: String::new(),
        history,
        history_file: "/opt/docker-autoheal/log.json".to_string(),
    }
}

fn task(labels: &[(&str, &str)], defaults: Defaults, config: TaskVariablesList) -> Task {
    let l: Vec<(String, String)> = labels.iter().map(|(k, v)| (k.to_string(), v.to_string())).collect();
    Task::new("web-1".to_string(), "abcdef012345".to_string(), &l, &defaults, config)
}

fn failing_detail() -> InspectDetail {
    InspectDetail {
        health: Some(HealthState {
            failing_streak: Some(3),
            log: Some(vec![HealthLogEntry {
                output: Some("curl: (7) connection refused".to_string()),
                exit_code: Some(7),
            }]),
        }),
    }
}

fn logs(actions: &[Action]) -> Vec<(Level, String)> {
    actions
        .iter()
        .filter_map(|a| match a {
            Action::Log(l) => Some((l.level, l.message.clone())),
            _ => None,
        })
        .collect()
}

fn restarts(actions: &[Action]) -> usize {
    actions.iter().filter(|a| matches!(a, Action::Restart(_, _))).count()
}

fn notifies(actions: &[Action]) -> usize {
    actions.iter().filter(|a| matches!(a, Action::Notify(_, _))).count()
}

#[test]
fn failing_container_is_restarted_and_recorded() {
    let mut t = task(&[], Defaults { stop_timeout: 10, monitor_all: true, log_all: false }, config(true));
    let a = t.begin();
    assert_eq!(a.len(), 1);
    assert!(matches!(&a[0], Action::Inspect(id) if id == "abcdef012345"));
    assert_eq!(t.stage, Stage::Inspecting);

    let a = t.on_inspected(Some(&failing_detail()));
    assert_eq!(a.len(), 4);
    assert_eq!(
        logs(&a),
        vec![
            (Level::Warning, "[web-1 (abcdef012345)] Container is unhealthy with 3 failures".to_string()),
            (Level::Warning, "[web-1 (abcdef012345)] Container last output: [7] curl: (7) connection refused".to_string()),
            (Level::Warning, "[web-1 (abcdef012345)] Container restarting with 10s timeout".to_string()),
        ]
    );
    assert!(matches!(&a[3], Action::Restart(id, 10) if id == "abcdef012345"));

    let a = t.on_restarted(Ok(()), DATE.to_string());
    assert_eq!(a.len(), 2);
    match &a[0] {
        Action::Log(l) => {
            assert_eq!(l.level, Level::Info);
            assert!(l.message.contains("successful"));
        }
        _ => panic!("expected a log line"),
    }
    let line = match &a[1] {
        Action::AppendHistory(line) => line.clone(),
        _ => panic!("expected a history line"),
    };
    let v: serde_json::Value = serde_json::from_str(&line).unwrap();
    assert_eq!(v["err"], "curl: (7) connection refused");
    assert_eq!(v["date"], DATE);
    assert_eq!(v["id"], "abcdef012345");
    assert_eq!(v["name"], "web-1");
    assert_eq!(v["action"], "[web-1 (abcdef012345)] Container restart was successful");
    assert_eq!(t.stage, Stage::Recording);

    let a = t.on_written(None);
    assert!(matches!(a.as_slice(), [Action::ReadHistory]));
    let rec = JsonRecord::new("d".to_string(), "web-1".to_string(), "abcdef012345".to_string(), "e".to_string(), "a".to_string());
    let a = t.on_history(Ok(vec![rec.clone(), rec]));
    assert_eq!(
        logs(&a),
        vec![(Level::Info, "[web-1 (abcdef012345)] Container has been unhealthy 2 times".to_string())]
    );
    assert_eq!(t.stage, Stage::Done);
}

#[test]
fn failed_restart_is_reported_and_notified() {
    let mut c = config(false);
    c.webhook_url = "http://hook".to_string();
    c.webhook_key = "text".to_string();
    c.apprise_url = "http://apprise".to_string();
    let mut t = task(&[], Defaults { stop_timeout: 10, monitor_all: true, log_all: false }, c);
    t.begin();
    t.on_inspected(Some(&failing_detail()));
    let a = t.on_restarted(Err("no such container".to_string()), DATE.to_string());
    assert_eq!(
        logs(&a),
        vec![(Level::Error, "[web-1 (abcdef012345)] Container restart failed: no such container".to_string())]
    );
    assert_eq!(notifies(&a), 2);
    let body = "host-a|[web-1 (abcdef012345)] Container last output: [7] curl: (7) connection refused|[web-1 (abcdef012345)] Container restart failed: no such container";
    match &a[1] {
        Action::Notify(url, payload) => {
            assert_eq!(url, "http://hook");
            let v: serde_json::Value = serde_json::from_str(payload).unwrap();
            assert_eq!(v["text"], body);
        }
        _ => panic!("expected the webhook"),
    }
    match &a[2] {
        Action::Notify(url, payload) => {
            assert_eq!(url, "http://apprise");
            let v: serde_json::Value = serde_json::from_str(payload).unwrap();
            assert_eq!(v["title"], "Docker-Autoheal");
            assert_eq!(v["body"], body);
        }
        _ => panic!("expected apprise"),
    }
    assert_eq!(t.stage, Stage::Done);
}

#[test]
fn webhook_needs_a_key() {
    let mut c = config(false);
    c.webhook_url = "http://hook".to_string();
    let mut t = task(&[], Defaults { stop_timeout: 10, monitor_all: true, log_all: false }, c);
    t.begin();
    t.on_inspected(Some(&failing_detail()));
    let a = t.on_restarted(Ok(()), DATE.to_string());
    assert_eq!(notifies(&a), 0);
}

#[test]
fn post_action_runs_after_restart() {
    let mut c = config(false);
    c.post_action = "/bin/hook.sh".to_string();
    let mut t = task(&[("autoheal.stop.timeout", "25")], Defaults { stop_timeout: 10, monitor_all: true, log_all: false }, c);
    t.begin();
    let a = t.on_inspected(Some(&failing_detail()));
    assert!(matches!(&a[3], Action::Restart(_, 25)));
    let a = t.on_restarted(Ok(()), DATE.to_string());
    match &a[1] {
        Action::RunPostAction(path, args) => {
            assert_eq!(path, "/bin/hook.sh");
            assert_eq!(args, &vec!["web-1".to_string(), "abcdef012345".to_string(), "25".to_string()]);
        }
        _ => panic!("expected the post-action"),
    }
    assert_eq!(t.stage, Stage::PostAction);
    let a = t.on_post_action(PostActionOutcome::NotFound, DATE.to_string());
    assert_eq!(
        logs(&a),
        vec![(Level::Error, "[web-1 (abcdef012345)] Container post-action (/bin/hook.sh) not found".to_string())]
    );
    assert_eq!(t.stage, Stage::Done);
}

#[test]
fn post_action_outcomes_are_logged() {
    for (o, level, tail) in [
        (PostActionOutcome::Completed, Level::Info, ") was successful".to_string()),
        (PostActionOutcome::StartFailed("denied".to_string()), Level::Error, ") failed to start: denied".to_string()),
        (PostActionOutcome::WaitFailed("lost".to_string()), Level::Error, ") failed to complete: lost".to_string()),
    ] {
        let mut c = config(false);
        c.post_action = "/p".to_string();
        let mut t = task(&[], Defaults { stop_timeout: 1, monitor_all: true, log_all: false }, c);
        t.begin();
        t.on_inspected(Some(&failing_detail()));
        t.on_restarted(Ok(()), DATE.to_string());
        let a = t.on_post_action(o, DATE.to_string());
        assert_eq!(logs(&a), vec![(level, format!("[web-1 (abcdef012345)] Container post-action (/p{}", tail))]);
    }
}

#[test]
fn restart_disabled_with_log_all_warns_once() {
    let mut c = config(true);
    c.webhook_url = "http://hook".to_string();
    c.webhook_key = "k".to_string();
    let mut t = task(&[("autoheal.restart.enable", "false")], Defaults { stop_timeout: 10, monitor_all: true, log_all: true }, c);
    let a = t.begin();
    let l = logs(&a);
    assert_eq!(a.len(), 1);
    assert_eq!(l.len(), 1);
    assert_eq!(l[0].0, Level::Warning);
    assert!(l[0].1.contains("restart is disabled"));
    assert_eq!(l[0].1, "[web-1] Container (abcdef012345) is unhealthy, however restart is disabled on request");
    assert_eq!(restarts(&a), 0);
    assert_eq!(notifies(&a), 0);
    assert_eq!(t.stage, Stage::Done);
    assert!(t.on_inspected(Some(&failing_detail())).is_empty());
    assert!(t.on_restarted(Ok(()), DATE.to_string()).is_empty());
}

#[test]
fn restart_disabled_never_restarts() {
    for (monitor, log_all) in [(true, true), (true, false), (false, true), (false, false)] {
        let mut t = task(&[("autoheal.restart.enable", "false")], Defaults { stop_timeout: 10, monitor_all: monitor, log_all }, config(true));
        let mut all = t.begin();
        all.extend(t.on_inspected(Some(&failing_detail())));
        all.extend(t.on_restarted(Ok(()), DATE.to_string()));
        assert_eq!(restarts(&all), 0);
        assert_eq!(t.stage, Stage::Done);
    }
}

#[test]
fn unmonitored_and_quiet_does_nothing() {
    for restart in ["true", "false"] {
        let mut t = task(&[("autoheal.restart.enable", restart)], Defaults { stop_timeout: 10, monitor_all: false, log_all: false }, config(true));
        assert!(t.begin().is_empty());
        assert_eq!(t.stage, Stage::Done);
        assert!(t.on_inspected(Some(&failing_detail())).is_empty());
        assert!(t.on_history(Ok(vec![])).is_empty());
    }
}

#[test]
fn unmonitored_but_log_all_is_inspected() {
    let mut t = task(&[("autoheal.monitor.enable", "false")], Defaults { stop_timeout: 10, monitor_all: true, log_all: true }, config(false));
    let a = t.begin();
    assert!(matches!(a.as_slice(), [Action::Inspect(_)]));
}

#[test]
fn inspection_failure_does_not_restart() {
    let mut t = task(&[], Defaults { stop_timeout: 10, monitor_all: true, log_all: false }, config(true));
    t.begin();
    let a = t.on_inspected(None);
    assert_eq!(restarts(&a), 0);
    let l = logs(&a);
    assert_eq!(l.len(), 3);
    assert!(l.iter().all(|(lvl, _)| *lvl == Level::Error));
    assert_eq!(t.stage, Stage::Done);
    assert_eq!(t.fail_reason, "unknown");
}

#[test]
fn healthy_container_ends_quietly() {
    let mut t = task(&[], Defaults { stop_timeout: 10, monitor_all: true, log_all: false }, config(true));
    t.begin();
    let d = InspectDetail { health: Some(HealthState { failing_streak: Some(0), log: Some(vec![]) }) };
    assert!(t.on_inspected(Some(&d)).is_empty());
    assert_eq!(t.stage, Stage::Done);
}

#[test]
fn unknown_identity_is_reported() {
    let l: Vec<(String, String)> = vec![];
    let mut t = Task::new("web-1".to_string(), String::new(), &l, &Defaults { stop_timeout: 10, monitor_all: true, log_all: false }, config(false));
    let a = t.begin();
    assert_eq!(logs(&a), vec![(Level::Error, "Could not reliably identify the container: name=web-1, id=".to_string())]);
    assert_eq!(t.stage, Stage::Done);
}

#[test]
fn history_errors_are_warnings() {
    let mut t = task(&[], Defaults { stop_timeout: 10, monitor_all: true, log_all: false }, config(true));
    t.begin();
    t.on_inspected(Some(&failing_detail()));
    t.on_restarted(Ok(()), DATE.to_string());
    let a = t.on_written(Some("read-only".to_string()));
    assert_eq!(a.len(), 1);
    assert_eq!(logs(&a), vec![(Level::Warning, "Unable to write to log (/opt/docker-autoheal/log.json): read-only".to_string())]);
    assert_eq!(t.stage, Stage::Done);

    let mut t = task(&[], Defaults { stop_timeout: 10, monitor_all: true, log_all: false }, config(true));
    t.begin();
    t.on_inspected(Some(&failing_detail()));
    t.on_restarted(Ok(()), DATE.to_string());
    assert!(matches!(t.on_written(None).as_slice(), [Action::ReadHistory]));
    let a = t.on_history(Err("gone".to_string()));
    assert_eq!(logs(&a), vec![(Level::Warning, "Unable to read from log (/opt/docker-autoheal/log.json): gone".to_string())]);
}

fn rec(id: &str) -> JsonRecord {
    JsonRecord::new("2024-01-01 00:00:00+0000".to_string(), "n".to_string(), id.to_string(), "e".to_string(), "a".to_string())
}

#[test]
fn count_matches_ids_in_any_order() {
    let a = vec![rec("x"), rec("y"), rec("x"), rec("z")];
    let b = vec![rec("z"), rec("x"), rec("y"), rec("x")];
    assert_eq!(record_count(&a, "x"), 2);
    assert_eq!(record_count(&b, "x"), 2);
    assert_eq!(record_count(&a, "y"), 1);
    assert_eq!(record_count(&a, "w"), 0);
    assert_eq!(record_count(&vec![], "x"), 0);
}

#[test]
fn count_message_wording() {
    assert_eq!(count_text("n", "i", 1), "[n (i)] Container has been unhealthy 1 time");
    assert_eq!(count_text("n", "i", 0), "[n (i)] Container has been unhealthy 0 time");
    assert_eq!(count_text("n", "i", 12), "[n (i)] Container has been unhealthy 12 times");
}

#[test]
fn record_line_is_one_json_object() {
    let r = JsonRecord::new("d\"q".to_string(), "n".to_string(), "i".to_string(), "line\nbreak".to_string(), "a".to_string());
    let line = record_line(&r);
    assert!(!line.contains('\n'));
    let v: serde_json::Value = serde_json::from_str(&line).unwrap();
    assert_eq!(v["date"], "d\"q");
    assert_eq!(v["err"], "line\nbreak");
    assert_eq!(v.as_object().unwrap().len(), 5);
}

#[test]
fn summary_and_reason_survive_the_post_action() {
    let mut c = config(true);
    c.post_action = "/p".to_string();
    c.apprise_url = "http://apprise".to_string();
    let mut t = task(&[], Defaults { stop_timeout: 10, monitor_all: true, log_all: false }, c);
    t.begin();
    t.on_inspected(Some(&failing_detail()));
    t.on_restarted(Ok(()), DATE.to_string());
    let a = t.on_post_action(PostActionOutcome::Completed, DATE.to_string());
    assert_eq!(t.message, "[web-1 (abcdef012345)] Container restart was successful");
    assert_eq!(t.fail_reason, "curl: (7) connection refused");
    match &a[1] {
        Action::Notify(_, payload) => {
            let v: serde_json::Value = serde_json::from_str(payload).unwrap();
            assert_eq!(
                v["body"],
                "host-a|[web-1 (abcdef012345)] Container last output: [7] curl: (7) connection refused|[web-1 (abcdef012345)] Container restart was successful"
            );
        }
        _ => panic!("expected apprise"),
    }
    match &a[2] {
        Action::AppendHistory(line) => {
            let v: serde_json::Value = serde_json::from_str(line).unwrap();
            assert_eq!(v["err"], "curl: (7) connection refused");
            assert_eq!(v["date"], DATE);
        }
        _ => panic!("expected a history line"),
    }
}
