//! Per-container settings derived from container labels and process-wide defaults.
use vstd::prelude::*;

use crate::text::{bool_text, int_text, parse_bool, parse_int, text_eq};

verus! {

/// The effective settings for one container in one cycle.
#[derive(Clone, Copy, Debug, PartialEq, Eq, Structural)]
pub struct Policy {
    pub stop_timeout: i64,
    pub monitor_enabled: bool,
    pub restart_enabled: bool,
    pub log_all: bool,
}

/// The process-wide defaults a label may override.
#[derive(Clone, Copy, Debug, PartialEq, Eq, Structural)]
pub struct Defaults {
    pub stop_timeout: i64,
    pub monitor_all: bool,
    pub log_all: bool,
}

pub open spec fn stop_timeout_key() -> Seq<char> {
    "autoheal.stop.timeout"@
}

pub open spec fn monitor_enable_key() -> Seq<char> {
    "autoheal.monitor.enable"@
}

pub open spec fn restart_enable_key() -> Seq<char> {
    "autoheal.restart.enable"@
}

/// The value of the first label whose key is `key`.
pub open spec fn label_value(labels: Seq<(String, String)>, key: Seq<char>) -> Option<Seq<char>>
    decreases labels.len(),
{
    if labels.len() == 0 {
        None
    } else if labels[0].0@ == key {
        Some(labels[0].1@)
    } else {
        label_value(labels.drop_first(), key)
    }
}

/// An integer label: its parsed value, or `default` when absent or unparsable.
pub open spec fn int_setting(labels: Seq<(String, String)>, key: Seq<char>, default: i64) -> i64 {
    match label_value(labels, key) {
        Some(v) => match int_text(v) {
            Some(n) => n,
            None => default,
        },
        None => default,
    }
}

/// A boolean label: its parsed value, or `default` when absent or unparsable.
pub open spec fn bool_setting(labels: Seq<(String, String)>, key: Seq<char>, default: bool) -> bool {
    match label_value(labels, key) {
        Some(v) => match bool_text(v) {
            Some(b) => b,
            None => default,
        },
        None => default,
    }
}

pub open spec fn policy_of(labels: Seq<(String, String)>, defaults: Defaults) -> Policy {
    Policy {
        stop_timeout: int_setting(labels, stop_timeout_key(), defaults.stop_timeout),
        monitor_enabled: bool_setting(labels, monitor_enable_key(), defaults.monitor_all),
        restart_enabled: bool_setting(labels, restart_enable_key(), true),
        log_all: defaults.log_all,
    }
}

/// Looks up the value of the first label whose key is `key`.
pub fn find_label<'a>(labels: &'a Vec<(String, String)>, key: &str) -> (r: Option<&'a String>)
    ensures
        match r {
            Some(v) => label_value(labels@, key@) == Some(v@),
            None => label_value(labels@, key@) is None,
        },
{
    let mut i: usize = 0;
    assert(labels@.subrange(0, labels@.len() as int) =~= labels@);
    while i < labels.len()
        invariant
            i <= labels@.len(),
            label_value(labels@, key@) == label_value(labels@.subrange(i as int, labels@.len() as int), key@),
        decreases labels@.len() - i,
    {
        proof {
            assert(labels@.subrange(i as int, labels@.len() as int).drop_first()
                =~= labels@.subrange(i + 1, labels@.len() as int));
        }
        if text_eq(labels[i].0.as_str(), key) {
            return Some(&labels[i].1);
        }
        i = i + 1;
    }
    None
}

fn int_label(labels: &Vec<(String, String)>, key: &str, default: i64) -> (r: i64)
    ensures
        r == int_setting(labels@, key@, default),
{
    match find_label(labels, key) {
        Some(v) => match parse_int(v.as_str()) {
            Some(n) => n,
            None => default,
        },
        None => default,
    }
}

fn bool_label(labels: &Vec<(String, String)>, key: &str, default: bool) -> (r: bool)
    ensures
        r == bool_setting(labels@, key@, default),
{
    match find_label(labels, key) {
        Some(v) => match parse_bool(v.as_str()) {
            Some(b) => b,
            None => default,
        },
        None => default,
    }
}

/// Derives a container's policy from its labels. A label that is absent or
/// does not parse as its type leaves the default in place; restarting is
/// enabled by default.
pub fn resolve_policy(labels: &Vec<(String, String)>, defaults: &Defaults) -> (r: Policy)
    ensures
        r == policy_of(labels@, *defaults),
{
    Policy {
        stop_timeout: int_label(labels, "autoheal.stop.timeout", defaults.stop_timeout),
        monitor_enabled: bool_label(labels, "autoheal.monitor.enable", defaults.monitor_all),
        restart_enabled: bool_label(labels, "autoheal.restart.enable", true),
        log_all: defaults.log_all,
    }
}

/// Every overridable setting is the label's parsed value when the label is
/// present and parses as its type, and the default otherwise.
pub proof fn lemma_label_or_default(labels: Seq<(String, String)>, defaults: Defaults)
    ensures
        ({
            let p = policy_of(labels, defaults);
            &&& (match label_value(labels, stop_timeout_key()) {
                Some(v) if int_text(v) is Some => p.stop_timeout == int_text(v)->Some_0,
                _ => p.stop_timeout == defaults.stop_timeout,
            })
            &&& (match label_value(labels, monitor_enable_key()) {
                Some(v) if bool_text(v) is Some => p.monitor_enabled == bool_text(v)->Some_0,
                _ => p.monitor_enabled == defaults.monitor_all,
            })
            &&& (match label_value(labels, restart_enable_key()) {
                Some(v) if bool_text(v) is Some => p.restart_enabled == bool_text(v)->Some_0,
                _ => p.restart_enabled,
            })
            &&& p.log_all == defaults.log_all
        }),
{
}

} // verus!
