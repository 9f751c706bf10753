use docker_autoheal::cycle::{Cycle, CycleAction, Phase};
use docker_autoheal::discovery::{candidate_name, discovery_filters, short_id};
use docker_autoheal::report::Level;
use docker_autoheal::settings::{get_var, is_allowed_connection_type, variables_from, OptionsList};

#[test]
fn cycle_waits_for_every_task() {
    let mut c = Cycle::new();
    assert_eq!(c.on_tick(), Some(CycleAction::Discover));
    assert_eq!(c.on_tick(), None);
    assert_eq!(c.on_discovered(2), Some(CycleAction::Spawn(2)));
    assert_eq!(c.on_tick(), None);
    assert_eq!(c.on_task_finished(), None);
    assert_eq!(c.phase, Phase::Running);
    assert_eq!(c.on_tick(), None);
    assert_eq!(c.on_task_finished(), Some(CycleAction::AwaitTick));
    assert_eq!(c.outstanding, 0);
    assert_eq!(c.on_tick(), Some(CycleAction::Discover));
}

#[test]
fn empty_discovery_goes_back_to_waiting() {
    let mut c = Cycle::new();
    c.on_tick();
    assert_eq!(c.on_discovered(0), Some(CycleAction::AwaitTick));
    assert_eq!(c.phase, Phase::Idle);
    assert_eq!(c.on_task_finished(), None);
    assert_eq!(c.on_tick(), Some(CycleAction::Discover));
}

#[test]
fn names_are_stripped() {
    assert_eq!(candidate_name(&vec!["/web-1".to_string()]), "web-1");
    assert_eq!(candidate_name(&vec![" /web-1/ ".to_string()]), "/web-1/");
    assert_eq!(candidate_name(&vec!["//a b\t".to_string(), "/other".to_string()]), "a b");
    assert_eq!(candidate_name(&vec!["\u{3000}x\u{a0}".to_string()]), "x");
    assert_eq!(candidate_name(&vec!["///".to_string()]), "");
    assert_eq!(candidate_name(&vec![]), "");
    for s in ["/web-1", " /x/ ", "//a b\t", "\u{2003}/y", ""] {
        assert_eq!(candidate_name(&vec![s.to_string()]), s.trim_matches('/').trim());
    }
}

#[test]
fn ids_are_shortened() {
    assert_eq!(short_id("abcdef0123456789"), "abcdef012345");
    assert_eq!(short_id("abc"), "abc");
    assert_eq!(short_id(""), "");
}

fn filters_as_text(label: &str) -> Vec<(String, Vec<String>)> {
    discovery_filters(label)
}

#[test]
fn filters_select_unhealthy_containers() {
    let f = filters_as_text("all");
    assert_eq!(f.len(), 2);
    assert_eq!(f[0], ("health".to_string(), vec!["unhealthy".to_string()]));
    assert_eq!(f[1], ("status".to_string(), vec!["running".to_string(), "exited".to_string(), "dead".to_string()]));
    let f = filters_as_text("autoheal=true");
    assert_eq!(f.len(), 3);
    assert_eq!(f[2], ("label".to_string(), vec!["autoheal=true".to_string()]));
}

fn no_options() -> OptionsList {
    OptionsList {
        apprise_url: None,
        connection_type: None,
        start_delay: None,
        interval: None,
        webhook_key: None,
        key_path: None,
        log_all: false,
        monitor_all: false,
        tcp_host: None,
        tcp_port: None,
        stop_timeout: None,
        tcp_timeout: None,
        verbose: false,
        webhook_url: None,
        post_action: None,
    }
}

fn env(pairs: &[(&str, &str)]) -> Vec<(String, String)> {
    pairs.iter().map(|(k, v)| (k.to_string(), v.to_string())).collect()
}

#[test]
fn defaults_without_options_or_environment() {
    let (v, logs) = variables_from(&no_options(), &env(&[]));
    assert!(logs.is_empty());
    assert_eq!(v.connection_type, "local");
    assert_eq!(v.stop_timeout, 10);
    assert_eq!(v.interval, 5);
    assert_eq!(v.start_delay, 0);
    assert_eq!(v.tcp_address, "localhost:2375");
    assert_eq!(v.tcp_timeout, 10);
    assert_eq!(v.key_path, "/opt/docker-autoheal/tls/key.pem");
    assert_eq!(v.cert_path, "/opt/docker-autoheal/tls/cert.pem");
    assert_eq!(v.ca_path, "/opt/docker-autoheal/tls/ca.pem");
    assert_eq!(v.post_action, "");
    assert!(!v.log_all && !v.monitor_all && !v.history);
}

#[test]
fn options_win_over_environment() {
    let mut o = no_options();
    o.interval = Some("30".to_string());
    o.stop_timeout = Some("abc".to_string());
    o.connection_type = Some("ssl".to_string());
    o.tcp_host = Some("docker.example".to_string());
    o.monitor_all = true;
    let e = env(&[("AUTOHEAL_INTERVAL", "7"), ("AUTOHEAL_STOP_TIMEOUT", "20"), ("AUTOHEAL_LOG_ALL", "true")]);
    let (v, logs) = variables_from(&o, &e);
    assert_eq!(v.interval, 30);
    assert_eq!(v.stop_timeout, 10);
    assert_eq!(logs.len(), 1);
    assert_eq!(logs[0].level, Level::Warning);
    assert_eq!(logs[0].message, "Unexpected value (abc); using default");
    assert_eq!(v.tcp_address, "docker.example:2376");
    assert!(v.monitor_all);
    assert!(v.log_all);
}

#[test]
fn unknown_connection_type_in_environment_falls_back() {
    let (v, logs) = variables_from(&no_options(), &env(&[("AUTOHEAL_CONNECTION_TYPE", "carrier-pigeon")]));
    assert_eq!(v.connection_type, "local");
    assert_eq!(logs.len(), 2);
    assert_eq!(logs[0].level, Level::Error);
    assert_eq!(logs[0].message, "Unexpected connection-type (carrier-pigeon): Expected one of local,socket,http,ssl");
    assert_eq!(logs[1].level, Level::Warning);
    assert!(is_allowed_connection_type("socket"));
    assert!(!is_allowed_connection_type("SSL"));
}

#[test]
fn environment_values_are_lowercased() {
    let e = env(&[("AUTOHEAL_LOG_ALL", "TRUE"), ("AUTOHEAL_CONNECTION_TYPE", "HTTP"), ("AUTOHEAL_TCP_PORT", "1234")]);
    let (v, logs) = get_var(&no_options(), &e);
    assert!(logs.is_empty());
    assert!(v.log_all);
    assert_eq!(v.connection_type, "http");
    assert_eq!(v.tcp_address, "localhost:1234");
}
