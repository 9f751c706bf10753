//! Turning a container's inspection into a health verdict.
use vstd::prelude::*;

use crate::report::{lines_view, log_line, tag, tag_text, Level, LogLine};

verus! {

/// One entry of a container's health-check log.
#[derive(Clone, Debug)]
pub struct HealthLogEntry {
    pub output: Option<String>,
    pub exit_code: Option<i64>,
}

/// The health section of a container's state, as far as the runtime reported it.
#[derive(Clone, Debug)]
pub struct HealthState {
    pub failing_streak: Option<i64>,
    pub log: Option<Vec<HealthLogEntry>>,
}

/// What an inspection of a container reported; `health` is absent when the
/// container has no state or its health information is disabled.
#[derive(Clone, Debug)]
pub struct InspectDetail {
    pub health: Option<HealthState>,
}

/// The health verdict on one container: `failed` holds exactly when the
/// failing streak is not zero.
#[derive(Clone, Debug)]
pub struct Result {
    pub failed: bool,
    pub failing_streak: i64,
    pub failing_reason: String,
    pub exit_code: i64,
}

impl Result {
    pub open spec fn wf(&self) -> bool {
        self.failed == (self.failing_streak != 0)
    }

    /// A verdict on the given streak, reason and exit code.
    pub fn new(failing_streak: i64, failing_reason: String, exit_code: i64) -> (r: Result)
        ensures
            r.wf(),
            r.failing_streak == failing_streak,
            r.failing_reason@ == failing_reason@,
            r.exit_code == exit_code,
    {
        Result { failed: failing_streak != 0, failing_streak, failing_reason, exit_code }
    }
}

pub open spec fn health_of(detail: Option<InspectDetail>) -> Option<HealthState> {
    match detail {
        Some(d) => d.health,
        None => None,
    }
}

/// The reported failing streak, if any.
pub open spec fn streak_of(detail: Option<InspectDetail>) -> Option<i64> {
    match health_of(detail) {
        Some(h) => h.failing_streak,
        None => None,
    }
}

/// The health-check log, if any.
pub open spec fn health_log_of(detail: Option<InspectDetail>) -> Option<Seq<HealthLogEntry>> {
    match health_of(detail) {
        Some(h) => match h.log {
            Some(l) => Some(l@),
            None => None,
        },
        None => None,
    }
}

pub open spec fn reason_of(detail: Option<InspectDetail>) -> Seq<char> {
    match health_log_of(detail) {
        Some(l) => if l.len() > 0 {
            match l.last().output {
                Some(o) => o@,
                None => "unknown"@,
            }
        } else {
            "log is empty"@
        },
        None => "unknown"@,
    }
}

pub open spec fn exit_code_of(detail: Option<InspectDetail>) -> i64 {
    match health_log_of(detail) {
        Some(l) => if l.len() > 0 {
            match l.last().exit_code {
                Some(c) => c,
                None => -1i64,
            }
        } else {
            -1i64
        },
        None => -1i64,
    }
}

pub open spec fn unreadable_message(name: Seq<char>, id: Seq<char>) -> Seq<char> {
    tag(name, id) + "Could not reliably determine container information from inspection"@
}

pub open spec fn no_streak_message(name: Seq<char>, id: Seq<char>) -> Seq<char> {
    tag(name, id) + "Could not reliably determine container failing streak; default to 0"@
}

pub open spec fn no_reason_message(name: Seq<char>, id: Seq<char>) -> Seq<char> {
    tag(name, id) + "Could not reliably determine container failing reason"@
}

/// The ERROR lines an inspection produces: one when the inspection itself
/// failed, one when no failing streak is known, one when no health log is known.
pub open spec fn inspection_lines(name: Seq<char>, id: Seq<char>, detail: Option<InspectDetail>) -> Seq<(Level, Seq<char>)> {
    (if detail is None {
        seq![(Level::Error, unreadable_message(name, id))]
    } else {
        seq![]
    }) + (if streak_of(detail) is None {
        seq![(Level::Error, no_streak_message(name, id))]
    } else {
        seq![]
    }) + (if health_log_of(detail) is None {
        seq![(Level::Error, no_reason_message(name, id))]
    } else {
        seq![]
    })
}

fn append_line(lines: &mut Vec<LogLine>, level: Level, prefix: &String, text: &str)
    ensures
        lines_view(final(lines)@) == lines_view(old(lines)@).push((level, prefix@ + text@)),
{
    let mut m = prefix.clone();
    m.append(text);
    lines.push(log_line(level, m));
    proof {
        assert(lines_view(final(lines)@) =~= lines_view(old(lines)@).push((level, prefix@ + text@)));
    }
}

/// Reads the verdict off an inspection; `None` stands for an inspection that
/// failed. Whatever is missing is taken as not failing: streak 0, reason
/// `unknown` and exit code -1, or reason `log is empty` when the log has no entry.
pub fn inspect_container(name: &str, id: &str, detail: Option<&InspectDetail>) -> (r: (Result, Vec<LogLine>))
    ensures
        ({
            let d = match detail {
                Some(x) => Some(*x),
                None => None,
            };
            &&& r.0.wf()
            &&& r.0.failing_streak == match streak_of(d) {
                Some(s) => s,
                None => 0,
            }
            &&& r.0.failing_reason@ == reason_of(d)
            &&& r.0.exit_code == exit_code_of(d)
            &&& lines_view(r.1@) == inspection_lines(name@, id@, d)
        }),
{
    let ghost d = match detail {
        Some(x) => Some(*x),
        None => None,
    };
    let prefix = tag_text(name, id);
    let mut lines: Vec<LogLine> = Vec::new();
    if detail.is_none() {
        append_line(&mut lines, Level::Error, &prefix, "Could not reliably determine container information from inspection");
    }
    let health: Option<&HealthState> = match detail {
        Some(x) => match &x.health {
            Some(h) => Some(h),
            None => None,
        },
        None => None,
    };
    let streak: i64 = match health {
        Some(h) => match h.failing_streak {
            Some(s) => s,
            None => {
                append_line(&mut lines, Level::Error, &prefix, "Could not reliably determine container failing streak; default to 0");
                0
            },
        },
        None => {
            append_line(&mut lines, Level::Error, &prefix, "Could not reliably determine container failing streak; default to 0");
            0
        },
    };
    let log: Option<&Vec<HealthLogEntry>> = match health {
        Some(h) => match &h.log {
            Some(l) => Some(l),
            None => None,
        },
        None => None,
    };
    let mut reason = String::from_str("unknown");
    let mut exit_code: i64 = -1;
    match log {
        Some(l) => {
            if l.len() > 0 {
                let last = &l[l.len() - 1];
                match &last.output {
                    Some(o) => {
                        reason = o.clone();
                    },
                    None => {},
                }
                match last.exit_code {
                    Some(c) => {
                        exit_code = c;
                    },
                    None => {},
                }
            } else {
                reason = String::from_str("log is empty");
            }
        },
        None => {
            append_line(&mut lines, Level::Error, &prefix, "Could not reliably determine container failing reason");
        },
    }
    proof {
        assert(lines_view(lines@) =~= inspection_lines(name@, id@, d));
    }
    (Result::new(streak, reason, exit_code), lines)
}

} // verus!
