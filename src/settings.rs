//! The daemon's settings: each one from its command-line option when given,
//! else from its environment variable, else a default.
use vstd::prelude::*;

use crate::policy::{find_label, label_value};
use crate::report::{decimal, decimal_text, lines_view, log_line, Level, LogLine};
use crate::text::{int_text, parse_int, parse_uint, text_eq, uint_text};

verus! {

/// The command-line options as given; `None` or `false` where absent.
#[derive(Clone, Debug)]
pub struct OptionsList {
    pub apprise_url: Option<String>,
    pub connection_type: Option<String>,
    pub start_delay: Option<String>,
    pub interval: Option<String>,
    pub webhook_key: Option<String>,
    pub key_path: Option<String>,
    pub log_all: bool,
    pub monitor_all: bool,
    pub tcp_host: Option<String>,
    pub tcp_port: Option<String>,
    pub stop_timeout: Option<String>,
    pub tcp_timeout: Option<String>,
    pub verbose: bool,
    pub webhook_url: Option<String>,
    pub post_action: Option<String>,
}

/// The settings the daemon runs with.
#[derive(Clone, Debug)]
pub struct VariablesList {
    pub connection_type: String,
    pub stop_timeout: i64,
    pub interval: u64,
    pub start_delay: u64,
    pub tcp_address: String,
    pub tcp_timeout: u64,
    pub key_path: String,
    pub cert_path: String,
    pub ca_path: String,
    pub apprise_url: String,
    pub webhook_key: String,
    pub webhook_url: String,
    pub post_action: String,
    pub log_all: bool,
    pub monitor_all: bool,
    pub history: bool,
}

pub open spec fn allowed_connection_type(s: Seq<char>) -> bool {
    s == "local"@ || s == "socket"@ || s == "http"@ || s == "ssl"@
}

/// Whether `s` names a supported way of reaching the runtime.
pub fn is_allowed_connection_type(s: &str) -> (r: bool)
    ensures
        r == allowed_connection_type(s@),
{
    text_eq(s, "local") || text_eq(s, "socket") || text_eq(s, "http") || text_eq(s, "ssl")
}

/// A text setting: the option, else the environment's value, else `default`.
pub open spec fn text_choice(opt: Option<String>, env: Seq<(String, String)>, key: Seq<char>, default: Seq<char>) -> Seq<char> {
    match opt {
        Some(o) => o@,
        None => match label_value(env, key) {
            Some(v) => v,
            None => default,
        },
    }
}

/// The text a numeric setting is read from, if any.
pub open spec fn number_source(opt: Option<String>, env: Seq<(String, String)>, key: Seq<char>) -> Option<Seq<char>> {
    match opt {
        Some(o) => Some(o@),
        None => label_value(env, key),
    }
}

/// An unsigned setting: its text's value, or `default` when there is no text
/// or it is not a number that fits.
pub open spec fn uint_choice(opt: Option<String>, env: Seq<(String, String)>, key: Seq<char>, default: u64) -> u64 {
    match number_source(opt, env, key) {
        Some(t) => match uint_text(t) {
            Some(v) => v,
            None => default,
        },
        None => default,
    }
}

pub open spec fn int_choice(opt: Option<String>, env: Seq<(String, String)>, key: Seq<char>, default: i64) -> i64 {
    match number_source(opt, env, key) {
        Some(t) => match int_text(t) {
            Some(v) => v,
            None => default,
        },
        None => default,
    }
}

/// A switch: on when the flag is given or the environment says `true`.
pub open spec fn flag_choice(flag: bool, env: Seq<(String, String)>, key: Seq<char>) -> bool {
    flag || label_value(env, key) == Some("true"@)
}

pub open spec fn unexpected_message(t: Seq<char>) -> Seq<char> {
    "Unexpected value ("@ + t + "); using default"@
}

/// The WARNING owed when an unsigned setting's text does not parse.
pub open spec fn uint_warning(opt: Option<String>, env: Seq<(String, String)>, key: Seq<char>) -> Seq<(Level, Seq<char>)> {
    match number_source(opt, env, key) {
        Some(t) => if uint_text(t) is None {
            seq![(Level::Warning, unexpected_message(t))]
        } else {
            seq![]
        },
        None => seq![],
    }
}

/// The WARNING owed when a signed setting's text does not parse.
pub open spec fn int_warning(opt: Option<String>, env: Seq<(String, String)>, key: Seq<char>) -> Seq<(Level, Seq<char>)> {
    match number_source(opt, env, key) {
        Some(t) => if int_text(t) is None {
            seq![(Level::Warning, unexpected_message(t))]
        } else {
            seq![]
        },
        None => seq![],
    }
}

/// The ERROR and WARNING owed when the environment names an unknown connection type.
pub open spec fn connection_warnings(opt: OptionsList, env: Seq<(String, String)>) -> Seq<(Level, Seq<char>)> {
    let e = text_choice(None, env, "AUTOHEAL_CONNECTION_TYPE"@, "local"@);
    if opt.connection_type is None && !allowed_connection_type(e) {
        seq![
            (Level::Error, "Unexpected connection-type ("@ + e + "): Expected one of local,socket,http,ssl"@),
            (Level::Warning, "Attempting connection via default (local)"@),
        ]
    } else {
        seq![]
    }
}

/// Every line that resolving the settings logs, in order.
pub open spec fn settings_lines(opt: OptionsList, env: Seq<(String, String)>) -> Seq<(Level, Seq<char>)> {
    connection_warnings(opt, env) + int_warning(opt.stop_timeout, env, "AUTOHEAL_STOP_TIMEOUT"@)
        + uint_warning(opt.interval, env, "AUTOHEAL_INTERVAL"@) + uint_warning(opt.start_delay, env, "AUTOHEAL_START_DELAY"@)
        + uint_warning(opt.tcp_port, env, "AUTOHEAL_TCP_PORT"@) + uint_warning(opt.tcp_timeout, env, "AUTOHEAL_TCP_TIMEOUT"@)
}

pub open spec fn connection_of(opt: OptionsList, env: Seq<(String, String)>) -> Seq<char> {
    match opt.connection_type {
        Some(o) => o@,
        None => {
            let e = text_choice(None, env, "AUTOHEAL_CONNECTION_TYPE"@, "local"@);
            if allowed_connection_type(e) {
                e
            } else {
                "local"@
            }
        },
    }
}

pub open spec fn port_of(opt: OptionsList, env: Seq<(String, String)>) -> u64 {
    uint_choice(opt.tcp_port, env, "AUTOHEAL_TCP_PORT"@, if connection_of(opt, env) == "ssl"@ { 2376 } else { 2375 })
}

pub open spec fn pem_of(opt: OptionsList, env: Seq<(String, String)>) -> Seq<char> {
    text_choice(opt.key_path, env, "AUTOHEAL_PEM_PATH"@, "/opt/docker-autoheal/tls"@)
}

/// The settings that the options and the (already lowercased) environment give.
pub open spec fn variables_of(opt: OptionsList, env: Seq<(String, String)>, v: VariablesList) -> bool {
    &&& v.connection_type@ == connection_of(opt, env)
    &&& v.stop_timeout == int_choice(opt.stop_timeout, env, "AUTOHEAL_STOP_TIMEOUT"@, 10)
    &&& v.interval == uint_choice(opt.interval, env, "AUTOHEAL_INTERVAL"@, 5)
    &&& v.start_delay == uint_choice(opt.start_delay, env, "AUTOHEAL_START_DELAY"@, 0)
    &&& v.tcp_address@ == text_choice(opt.tcp_host, env, "AUTOHEAL_TCP_HOST"@, "localhost"@) + ":"@ + decimal(port_of(opt, env) as int)
    &&& v.tcp_timeout == uint_choice(opt.tcp_timeout, env, "AUTOHEAL_TCP_TIMEOUT"@, 10)
    &&& v.key_path@ == pem_of(opt, env) + "/key.pem"@
    &&& v.cert_path@ == pem_of(opt, env) + "/cert.pem"@
    &&& v.ca_path@ == pem_of(opt, env) + "/ca.pem"@
    &&& v.apprise_url@ == text_choice(opt.apprise_url, env, "AUTOHEAL_APPRISE_URL"@, ""@)
    &&& v.webhook_key@ == text_choice(opt.webhook_key, env, "AUTOHEAL_WEBHOOK_KEY"@, ""@)
    &&& v.webhook_url@ == text_choice(opt.webhook_url, env, "AUTOHEAL_WEBHOOK_URL"@, ""@)
    &&& v.post_action@ == text_choice(opt.post_action, env, "AUTOHEAL_POST_ACTION"@, ""@)
    &&& v.log_all == flag_choice(opt.log_all, env, "AUTOHEAL_LOG_ALL"@)
    &&& v.monitor_all == flag_choice(opt.monitor_all, env, "AUTOHEAL_MONITOR_ALL"@)
    &&& v.history == flag_choice(opt.verbose, env, "AUTOHEAL_HISTORY"@)
}

fn text_setting(opt: &Option<String>, env: &Vec<(String, String)>, key: &str, default: &str) -> (r: String)
    ensures
        r@ == text_choice(*opt, env@, key@, default@),
{
    match opt {
        Some(o) => o.clone(),
        None => match find_label(env, key) {
            Some(v) => v.clone(),
            None => String::from_str(default),
        },
    }
}

fn number_text<'a>(opt: &'a Option<String>, env: &'a Vec<(String, String)>, key: &str) -> (r: Option<&'a String>)
    ensures
        match r {
            Some(t) => number_source(*opt, env@, key@) == Some(t@),
            None => number_source(*opt, env@, key@) is None,
        },
{
    match opt {
        Some(o) => Some(o),
        None => find_label(env, key),
    }
}

fn push_line(logs: &mut Vec<LogLine>, level: Level, message: String)
    ensures
        lines_view(final(logs)@) == lines_view(old(logs)@).push((level, message@)),
{
    logs.push(log_line(level, message));
    proof {
        assert(lines_view(final(logs)@) =~= lines_view(old(logs)@).push((level, message@)));
    }
}

fn unexpected(logs: &mut Vec<LogLine>, text: &String)
    ensures
        lines_view(final(logs)@) == lines_view(old(logs)@).push((Level::Warning, unexpected_message(text@))),
{
    let mut m = String::from_str("Unexpected value (");
    m.append(text.as_str());
    m.append("); using default");
    push_line(logs, Level::Warning, m);
}

fn uint_setting(opt: &Option<String>, env: &Vec<(String, String)>, key: &str, default: u64, logs: &mut Vec<LogLine>) -> (r: u64)
    ensures
        r == uint_choice(*opt, env@, key@, default),
        lines_view(final(logs)@) == lines_view(old(logs)@) + uint_warning(*opt, env@, key@),
{
    let ghost before = lines_view(logs@);
    let r = match number_text(opt, env, key) {
        Some(t) => match parse_uint(t.as_str()) {
            Some(v) => v,
            None => {
                unexpected(logs, t);
                default
            },
        },
        None => default,
    };
    assert(lines_view(logs@) =~= before + uint_warning(*opt, env@, key@));
    r
}

fn int_setting(opt: &Option<String>, env: &Vec<(String, String)>, key: &str, default: i64, logs: &mut Vec<LogLine>) -> (r: i64)
    ensures
        r == int_choice(*opt, env@, key@, default),
        lines_view(final(logs)@) == lines_view(old(logs)@) + int_warning(*opt, env@, key@),
{
    let ghost before = lines_view(logs@);
    let r = match number_text(opt, env, key) {
        Some(t) => match parse_int(t.as_str()) {
            Some(v) => v,
            None => {
                unexpected(logs, t);
                default
            },
        },
        None => default,
    };
    assert(lines_view(logs@) =~= before + int_warning(*opt, env@, key@));
    r
}

fn flag_setting(flag: bool, env: &Vec<(String, String)>, key: &str) -> (r: bool)
    ensures
        r == flag_choice(flag, env@, key@),
{
    if flag {
        return true;
    }
    match find_label(env, key) {
        Some(v) => text_eq(v.as_str(), "true"),
        None => false,
    }
}

fn joined(a: &String, b: &str) -> (r: String)
    ensures
        r@ == a@ + b@,
{
    let mut s = a.clone();
    s.append(b);
    s
}

/// The settings from the options and an environment whose values are
/// already lowercased, with a WARNING for each value that did not parse and
/// was replaced by its default, and an ERROR and a WARNING when the
/// environment names an unknown connection type.
pub fn variables_from(opt: &OptionsList, env: &Vec<(String, String)>) -> (r: (VariablesList, Vec<LogLine>))
    ensures
        variables_of(*opt, env@, r.0),
        lines_view(r.1@) == settings_lines(*opt, env@),
{
    let mut logs: Vec<LogLine> = Vec::new();
    let connection_type = match &opt.connection_type {
        Some(o) => o.clone(),
        None => {
            let e = text_setting(&None, env, "AUTOHEAL_CONNECTION_TYPE", "local");
            if is_allowed_connection_type(e.as_str()) {
                e
            } else {
                let mut m = String::from_str("Unexpected connection-type (");
                m.append(e.as_str());
                m.append("): Expected one of local,socket,http,ssl");
                push_line(&mut logs, Level::Error, m);
                push_line(&mut logs, Level::Warning, String::from_str("Attempting connection via default (local)"));
                String::from_str("local")
            }
        },
    };
    assert(lines_view(logs@) =~= connection_warnings(*opt, env@));
    let stop_timeout = int_setting(&opt.stop_timeout, env, "AUTOHEAL_STOP_TIMEOUT", 10, &mut logs);
    let interval = uint_setting(&opt.interval, env, "AUTOHEAL_INTERVAL", 5, &mut logs);
    let start_delay = uint_setting(&opt.start_delay, env, "AUTOHEAL_START_DELAY", 0, &mut logs);
    let host = text_setting(&opt.tcp_host, env, "AUTOHEAL_TCP_HOST", "localhost");
    let default_port: u64 = if text_eq(connection_type.as_str(), "ssl") { 2376 } else { 2375 };
    let port = uint_setting(&opt.tcp_port, env, "AUTOHEAL_TCP_PORT", default_port, &mut logs);
    let mut tcp_address = joined(&host, ":");
    tcp_address.append(decimal_text(port as i128).as_str());
    let tcp_timeout = uint_setting(&opt.tcp_timeout, env, "AUTOHEAL_TCP_TIMEOUT", 10, &mut logs);
    assert(lines_view(logs@) =~= settings_lines(*opt, env@));
    let pem = text_setting(&opt.key_path, env, "AUTOHEAL_PEM_PATH", "/opt/docker-autoheal/tls");
    let v = VariablesList {
        connection_type,
        stop_timeout,
        interval,
        start_delay,
        tcp_address,
        tcp_timeout,
        key_path: joined(&pem, "/key.pem"),
        cert_path: joined(&pem, "/cert.pem"),
        ca_path: joined(&pem, "/ca.pem"),
        apprise_url: text_setting(&opt.apprise_url, env, "AUTOHEAL_APPRISE_URL", ""),
        webhook_key: text_setting(&opt.webhook_key, env, "AUTOHEAL_WEBHOOK_KEY", ""),
        webhook_url: text_setting(&opt.webhook_url, env, "AUTOHEAL_WEBHOOK_URL", ""),
        post_action: text_setting(&opt.post_action, env, "AUTOHEAL_POST_ACTION", ""),
        log_all: flag_setting(opt.log_all, env, "AUTOHEAL_LOG_ALL"),
        monitor_all: flag_setting(opt.monitor_all, env, "AUTOHEAL_MONITOR_ALL"),
        history: flag_setting(opt.verbose, env, "AUTOHEAL_HISTORY"),
    };
    (v, logs)
}

/// What `str::to_lowercase` returns for a text.
pub uninterp spec fn lower_of(s: Seq<char>) -> Seq<char>;

/// Relies on `str::to_lowercase`: the result depends on the text alone.
#[verifier::external_body]
fn lowercase(s: &str) -> (r: String)
    ensures
        r@ == lower_of(s@),
{
    s.to_lowercase()
}

pub open spec fn lowered(env: Seq<(String, String)>) -> Seq<(Seq<char>, Seq<char>)> {
    env.map_values(|e: (String, String)| (e.0@, lower_of(e.1@)))
}

pub open spec fn pairs_view(env: Seq<(String, String)>) -> Seq<(Seq<char>, Seq<char>)> {
    env.map_values(|e: (String, String)| (e.0@, e.1@))
}

/// The settings from the options and the environment as read, whose values
/// are lowercased first.
pub fn get_var(opt: &OptionsList, env: &Vec<(String, String)>) -> (r: (VariablesList, Vec<LogLine>))
    ensures
        exists|low: Seq<(String, String)>|
            pairs_view(low) == lowered(env@) && variables_of(*opt, low, r.0) && lines_view(r.1@) == settings_lines(*opt, low),
{
    let mut low: Vec<(String, String)> = Vec::new();
    let mut i: usize = 0;
    while i < env.len()
        invariant
            i <= env@.len(),
            pairs_view(low@) == lowered(env@.subrange(0, i as int)),
        decreases env@.len() - i,
    {
        let k = env[i].0.clone();
        let v = lowercase(env[i].1.as_str());
        let ghost before = low@;
        low.push((k, v));
        proof {
            assert(pairs_view(low@) =~= pairs_view(before).push((env@[i as int].0@, lower_of(env@[i as int].1@))));
            assert(lowered(env@.subrange(0, i + 1)) =~= lowered(env@.subrange(0, i as int)).push((env@[i as int].0@, lower_of(env@[i as int].1@))));
        }
        i = i + 1;
    }
    assert(env@.subrange(0, env@.len() as int) =~= env@);
    variables_from(opt, &low)
}

} // verus!
