//! The work on one container in one cycle, as a state machine: each method
//! takes what the outside world reported and returns the actions to perform
//! next, in order.
use vstd::prelude::*;

use crate::history::{count_message, count_text, id_count, record_count, record_line, record_members, JsonRecord};
use crate::inspect::{exit_code_of, inspect_container, inspection_lines, reason_of, streak_of, InspectDetail};
use crate::policy::{policy_of, resolve_policy, Defaults, Policy};
use crate::report::{
    decimal, decimal_text, json_object, json_object_text, lines_view, log_line, members_view, tag, tag_text, Level,
    LogLine,
};

verus! {

/// Where a container's task stands.
#[derive(Clone, Copy, Debug, PartialEq, Eq, Structural)]
pub enum Stage {
    Start,
    Inspecting,
    Restarting,
    PostAction,
    Recording,
    Reading,
    Done,
}

/// The settings a task needs besides the container's policy.
#[derive(Clone, Debug)]
pub struct TaskVariablesList {
    pub hostname: String,
    pub apprise_url: String,
    pub webhook_key: String,
    pub webhook_url: String,
    pub post_action: String,
    /// Whether history is recorded.
    pub history: bool,
    /// The file the history is kept in, as named in log lines.
    pub history_file: String,
}

/// How running the post-action script went.
#[derive(Clone, Debug)]
pub enum PostActionOutcome {
    Completed,
    NotFound,
    StartFailed(String),
    WaitFailed(String),
}

/// Something for the caller to do.
#[derive(Clone, Debug)]
pub enum Action {
    Log(LogLine),
    /// Inspect the container; answer with `on_inspected`.
    Inspect(String),
    /// Restart the container with this stop timeout; answer with `on_restarted`.
    Restart(String, i64),
    /// Run the script with these arguments and wait for it; answer with `on_post_action`.
    RunPostAction(String, Vec<String>),
    /// POST this JSON payload to this URL; nothing to answer.
    Notify(String, String),
    /// Append this line to the history; answer with `on_written`.
    AppendHistory(String),
    /// Read the whole history back; answer with `on_history`.
    ReadHistory,
}

/// What an action is, over plain values.
pub enum Effect {
    Log(Level, Seq<char>),
    Inspect(Seq<char>),
    Restart(Seq<char>, i64),
    RunPostAction(Seq<char>, Seq<Seq<char>>),
    Notify(Seq<char>, Seq<char>),
    AppendHistory(Seq<char>),
    ReadHistory,
}

impl View for Action {
    type V = Effect;

    open spec fn view(&self) -> Effect {
        match self {
            Action::Log(l) => Effect::Log(l.level, l.message@),
            Action::Inspect(id) => Effect::Inspect(id@),
            Action::Restart(id, t) => Effect::Restart(id@, *t),
            Action::RunPostAction(p, args) => Effect::RunPostAction(p@, args@.map_values(|a: String| a@)),
            Action::Notify(u, p) => Effect::Notify(u@, p@),
            Action::AppendHistory(l) => Effect::AppendHistory(l@),
            Action::ReadHistory => Effect::ReadHistory,
        }
    }
}

pub open spec fn effects(actions: Seq<Action>) -> Seq<Effect> {
    actions.map_values(|a: Action| a@)
}

pub open spec fn log_effects(lines: Seq<(Level, Seq<char>)>) -> Seq<Effect> {
    lines.map_values(|l: (Level, Seq<char>)| Effect::Log(l.0, l.1))
}

pub open spec fn no_restart(e: Seq<Effect>) -> bool {
    forall|i: int| 0 <= i < e.len() ==> !(#[trigger] e[i] is Restart)
}

pub open spec fn disabled_message(name: Seq<char>, id: Seq<char>) -> Seq<char> {
    "["@ + name + "] Container ("@ + id + ") is unhealthy, however restart is disabled on request"@
}

pub open spec fn identity_message(name: Seq<char>, id: Seq<char>) -> Seq<char> {
    "Could not reliably identify the container: name="@ + name + ", id="@ + id
}

pub open spec fn unhealthy_message(name: Seq<char>, id: Seq<char>, streak: i64) -> Seq<char> {
    tag(name, id) + "Container is unhealthy with "@ + decimal(streak as int) + " failures"@
}

pub open spec fn last_output_message(name: Seq<char>, id: Seq<char>, exit_code: i64, reason: Seq<char>) -> Seq<char> {
    tag(name, id) + "Container last output: ["@ + decimal(exit_code as int) + "] "@ + reason
}

pub open spec fn restarting_message(name: Seq<char>, id: Seq<char>, timeout: i64) -> Seq<char> {
    tag(name, id) + "Container restarting with "@ + decimal(timeout as int) + "s timeout"@
}

pub open spec fn restarted_message(name: Seq<char>, id: Seq<char>, error: Option<Seq<char>>) -> Seq<char> {
    match error {
        None => tag(name, id) + "Container restart was successful"@,
        Some(e) => tag(name, id) + "Container restart failed: "@ + e,
    }
}

pub open spec fn post_action_line(name: Seq<char>, id: Seq<char>, path: Seq<char>, o: PostActionOutcome) -> (Level, Seq<char>) {
    let head = tag(name, id) + "Container post-action ("@ + path;
    match o {
        PostActionOutcome::Completed => (Level::Info, head + ") was successful"@),
        PostActionOutcome::NotFound => (Level::Error, head + ") not found"@),
        PostActionOutcome::StartFailed(e) => (Level::Error, head + ") failed to start: "@ + e@),
        PostActionOutcome::WaitFailed(e) => (Level::Error, head + ") failed to complete: "@ + e@),
    }
}

/// The text every notification carries: host, unhealthy summary and outcome.
pub open spec fn notice(host: Seq<char>, summary: Seq<char>, message: Seq<char>) -> Seq<char> {
    host + "|"@ + summary + "|"@ + message
}

pub open spec fn write_failed_message(file: Seq<char>, e: Seq<char>) -> Seq<char> {
    "Unable to write to log ("@ + file + "): "@ + e
}

pub open spec fn read_failed_message(file: Seq<char>, e: Seq<char>) -> Seq<char> {
    "Unable to read from log ("@ + file + "): "@ + e
}

/// The notifications owed for an outcome: the webhook when both its URL and
/// key are set, then the apprise endpoint when its URL is set.
pub open spec fn notifications(c: TaskVariablesList, summary: Seq<char>, message: Seq<char>) -> Seq<Effect> {
    let text = notice(c.hostname@, summary, message);
    (if c.webhook_url@.len() > 0 && c.webhook_key@.len() > 0 {
        seq![Effect::Notify(c.webhook_url@, json_object_text(seq![(c.webhook_key@, text)]))]
    } else {
        seq![]
    }) + (if c.apprise_url@.len() > 0 {
        seq![Effect::Notify(c.apprise_url@, json_object_text(seq![("title"@, "Docker-Autoheal"@), ("body"@, text)]))]
    } else {
        seq![]
    })
}

/// The history line of an event, stamped `date`.
pub open spec fn history_line(date: Seq<char>, name: Seq<char>, id: Seq<char>, err: Seq<char>, action: Seq<char>) -> Seq<char> {
    json_object_text(seq![("date"@, date), ("name"@, name), ("id"@, id), ("err"@, err), ("action"@, action)])
}

pub open spec fn closing_stage(c: TaskVariablesList) -> Stage {
    if c.history {
        Stage::Recording
    } else {
        Stage::Done
    }
}

/// What closes a remediation: its notifications, then, when history is
/// recorded, one history line stamped `date`.
pub open spec fn closing_effects(
    c: TaskVariablesList,
    date: Seq<char>,
    name: Seq<char>,
    id: Seq<char>,
    summary: Seq<char>,
    fail_reason: Seq<char>,
    message: Seq<char>,
    e: Seq<Effect>,
) -> bool {
    let notes = notifications(c, summary, message);
    if c.history {
        e == notes.push(Effect::AppendHistory(history_line(date, name, id, fail_reason, message)))
    } else {
        e == notes
    }
}

/// The state of one container's task.
///
/// History is recorded once per remediation: after a restart attempt (and
/// its post-action, if any), when history is enabled. A container that is
/// skipped, whose restart is disabled, or that is found not failing ends its
/// task without a record; those are terminal states with no remediation
/// event to count.
#[derive(Clone, Debug)]
pub struct Task {
    pub stage: Stage,
    pub name: String,
    pub id: String,
    pub policy: Policy,
    pub config: TaskVariablesList,
    /// The outcome message of the remediation.
    pub message: String,
    /// The failing reason from the inspection.
    pub fail_reason: String,
    /// The line that sums up why the container is unhealthy.
    pub summary: String,
}

fn push_log(actions: &mut Vec<Action>, level: Level, message: String)
    ensures
        effects(final(actions)@) == effects(old(actions)@).push(Effect::Log(level, message@)),
{
    actions.push(Action::Log(log_line(level, message)));
    proof {
        assert(effects(final(actions)@) =~= effects(old(actions)@).push(Effect::Log(level, message@)));
    }
}

fn concat(a: &String, b: &str) -> (r: String)
    ensures
        r@ == a@ + b@,
{
    let mut s = a.clone();
    s.append(b);
    s
}

impl Task {
    pub open spec fn wf(&self) -> bool {
        &&& (self.stage != Stage::Start && self.stage != Stage::Done) ==> {
            &&& self.policy.restart_enabled
            &&& self.name@.len() > 0
            &&& self.id@.len() > 0
        }
    }

    /// A task for the container `name` / `id` with these labels; its policy
    /// is resolved from the labels and the defaults.
    pub fn new(name: String, id: String, labels: &Vec<(String, String)>, defaults: &Defaults, config: TaskVariablesList) -> (r: Task)
        ensures
            r.wf(),
            r.stage == Stage::Start,
            r.name@ == name@,
            r.id@ == id@,
            r.policy == policy_of(labels@, *defaults),
            r.config == config,
            r.message@.len() == 0,
            r.fail_reason@.len() == 0,
            r.summary@.len() == 0,
    {
        Task {
            stage: Stage::Start,
            name,
            id,
            policy: resolve_policy(labels, defaults),
            config,
            message: String::new(),
            fail_reason: String::new(),
            summary: String::new(),
        }
    }

    /// Starts the task. With restarting disabled, the only possible action is
    /// a WARNING that says so, when everything is logged. With monitoring
    /// disabled and not everything logged, nothing happens. A container whose
    /// name or id is unknown is reported and left alone. Otherwise it is inspected.
    pub fn begin(&mut self) -> (r: Vec<Action>)
        requires
            old(self).wf(),
        ensures
            final(self).wf(),
            final(self).policy == old(self).policy,
            final(self).config == old(self).config,
            final(self).name == old(self).name,
            final(self).id == old(self).id,
            !old(self).policy.restart_enabled ==> no_restart(effects(r@)),
            old(self).stage != Stage::Start ==> r@.len() == 0 && *final(self) == *old(self),
            old(self).stage == Stage::Start && !old(self).policy.restart_enabled ==> final(self).stage == Stage::Done,
            old(self).stage == Stage::Start && !old(self).policy.monitor_enabled && !old(self).policy.log_all
                ==> final(self).stage == Stage::Done && r@.len() == 0,
            old(self).stage == Stage::Start ==> ({
                let p = old(self).policy;
                let (n, i) = (old(self).name@, old(self).id@);
                let known = n.len() > 0 && i.len() > 0;
                if !p.restart_enabled && !p.log_all || p.restart_enabled && !p.monitor_enabled && !p.log_all {
                    final(self).stage == Stage::Done && r@.len() == 0
                } else if !known {
                    final(self).stage == Stage::Done
                        && effects(r@) == seq![Effect::Log(Level::Error, identity_message(n, i))]
                } else if !p.restart_enabled {
                    final(self).stage == Stage::Done
                        && effects(r@) == seq![Effect::Log(Level::Warning, disabled_message(n, i))]
                } else {
                    final(self).stage == Stage::Inspecting && effects(r@) == seq![Effect::Inspect(i)]
                }
            }),
    {
        let mut actions: Vec<Action> = Vec::new();
        if self.stage != Stage::Start {
            return actions;
        }
        let p = self.policy;
        if !p.restart_enabled && !p.log_all || p.restart_enabled && !p.monitor_enabled && !p.log_all {
            self.stage = Stage::Done;
            return actions;
        }
        let n = self.name.unicode_len();
        let i = self.id.unicode_len();
        if n == 0 || i == 0 {
            let mut m = String::from_str("Could not reliably identify the container: name=");
            m.append(self.name.as_str());
            m.append(", id=");
            m.append(self.id.as_str());
            push_log(&mut actions, Level::Error, m);
            self.stage = Stage::Done;
            proof {
                assert(effects(actions@) =~= seq![Effect::Log(Level::Error, identity_message(self.name@, self.id@))]);
            }
            return actions;
        }
        if !p.restart_enabled {
            let mut m = String::from_str("[");
            m.append(self.name.as_str());
            m.append("] Container (");
            m.append(self.id.as_str());
            m.append(") is unhealthy, however restart is disabled on request");
            push_log(&mut actions, Level::Warning, m);
            self.stage = Stage::Done;
            proof {
                assert(effects(actions@) =~= seq![Effect::Log(Level::Warning, disabled_message(self.name@, self.id@))]);
            }
            return actions;
        }
        actions.push(Action::Inspect(self.id.clone()));
        self.stage = Stage::Inspecting;
        proof {
            assert(effects(actions@) =~= seq![Effect::Inspect(self.id@)]);
        }
        actions
    }

    /// Takes the inspection (`None`: it failed). The inspection's own ERROR
    /// lines come first. A container that is not failing ends its task here;
    /// a failing one is reported with two WARNING lines, its restart is
    /// announced by a third, and it is restarted with the policy's timeout.
    pub fn on_inspected(&mut self, detail: Option<&InspectDetail>) -> (r: Vec<Action>)
        requires
            old(self).wf(),
        ensures
            final(self).wf(),
            final(self).policy == old(self).policy,
            final(self).config == old(self).config,
            final(self).name == old(self).name,
            final(self).id == old(self).id,
            !old(self).policy.restart_enabled ==> no_restart(effects(r@)),
            old(self).stage != Stage::Inspecting ==> r@.len() == 0 && *final(self) == *old(self),
            old(self).stage == Stage::Inspecting ==> ({
                let d = match detail {
                    Some(x) => Some(*x),
                    None => None,
                };
                let (n, i) = (old(self).name@, old(self).id@);
                let streak = match streak_of(d) {
                    Some(s) => s,
                    None => 0,
                };
                let lines = log_effects(inspection_lines(n, i, d));
                &&& final(self).fail_reason@ == reason_of(d)
                &&& if streak == 0 {
                    final(self).stage == Stage::Done && effects(r@) == lines
                } else {
                    &&& final(self).stage == Stage::Restarting
                    &&& final(self).summary@ == last_output_message(n, i, exit_code_of(d), reason_of(d))
                    &&& effects(r@) == lines + seq![
                        Effect::Log(Level::Warning, unhealthy_message(n, i, streak)),
                        Effect::Log(Level::Warning, final(self).summary@),
                        Effect::Log(Level::Warning, restarting_message(n, i, old(self).policy.stop_timeout)),
                        Effect::Restart(i, old(self).policy.stop_timeout),
                    ]
                }
            }),
    {
        let mut actions: Vec<Action> = Vec::new();
        if self.stage != Stage::Inspecting {
            return actions;
        }
        let (verdict, lines) = inspect_container(self.name.as_str(), self.id.as_str(), detail);
        let mut k: usize = 0;
        while k < lines.len()
            invariant
                k <= lines@.len(),
                effects(actions@) == log_effects(lines_view(lines@).subrange(0, k as int)),
            decreases lines@.len() - k,
        {
            let l = log_line(lines[k].level, lines[k].message.clone());
            let ghost before = effects(actions@);
            actions.push(Action::Log(l));
            proof {
                assert(log_effects(lines_view(lines@).subrange(0, k + 1))
                    =~= log_effects(lines_view(lines@).subrange(0, k as int)).push(Effect::Log(lines@[k as int].level, lines@[k as int].message@)));
                assert(effects(actions@) =~= before.push(Effect::Log(l.level, l.message@)));
            }
            k = k + 1;
        }
        proof {
            assert(lines_view(lines@).subrange(0, lines@.len() as int) =~= lines_view(lines@));
        }
        self.fail_reason = verdict.failing_reason.clone();
        if !verdict.failed {
            self.stage = Stage::Done;
            return actions;
        }
        let t = tag_text(self.name.as_str(), self.id.as_str());
        let mut m0 = concat(&t, "Container is unhealthy with ");
        m0.append(decimal_text(verdict.failing_streak as i128).as_str());
        m0.append(" failures");
        push_log(&mut actions, Level::Warning, m0);
        let mut m1 = concat(&t, "Container last output: [");
        m1.append(decimal_text(verdict.exit_code as i128).as_str());
        m1.append("] ");
        m1.append(verdict.failing_reason.as_str());
        self.summary = m1.clone();
        push_log(&mut actions, Level::Warning, m1);
        let mut m2 = concat(&t, "Container restarting with ");
        m2.append(decimal_text(self.policy.stop_timeout as i128).as_str());
        m2.append("s timeout");
        push_log(&mut actions, Level::Warning, m2);
        let ghost before = effects(actions@);
        actions.push(Action::Restart(self.id.clone(), self.policy.stop_timeout));
        proof {
            assert(effects(actions@) =~= before.push(Effect::Restart(self.id@, self.policy.stop_timeout)));
        }
        self.stage = Stage::Restarting;
        actions
    }

    /// Takes the result of the restart (`Err` holds the error text). Its
    /// message becomes the outcome, logged at INFO on success and at ERROR on
    /// failure. The post-action script runs next when one is configured;
    /// otherwise the outcome is notified and recorded, stamped `date` (the
    /// local time of the answer).
    pub fn on_restarted(&mut self, outcome: core::result::Result<(), String>, date: String) -> (r: Vec<Action>)
        requires
            old(self).wf(),
        ensures
            final(self).wf(),
            final(self).policy == old(self).policy,
            final(self).config == old(self).config,
            final(self).name == old(self).name,
            final(self).id == old(self).id,
            !old(self).policy.restart_enabled ==> no_restart(effects(r@)),
            old(self).stage != Stage::Restarting ==> r@.len() == 0 && *final(self) == *old(self),
            old(self).stage == Stage::Restarting ==> ({
                let (n, i) = (old(self).name@, old(self).id@);
                let err = match outcome {
                    Ok(_) => None,
                    Err(e) => Some(e@),
                };
                let m = restarted_message(n, i, err);
                let line = Effect::Log(if err is None { Level::Info } else { Level::Error }, m);
                let c = old(self).config;
                &&& final(self).message@ == m
                &&& final(self).summary == old(self).summary
                &&& final(self).fail_reason == old(self).fail_reason
                &&& if c.post_action@.len() > 0 {
                    &&& final(self).stage == Stage::PostAction
                    &&& effects(r@) == seq![line, Effect::RunPostAction(c.post_action@, seq![n, i, decimal(old(self).policy.stop_timeout as int)])]
                } else {
                    &&& final(self).stage == closing_stage(c)
                    &&& r@.len() >= 1
                    &&& effects(r@)[0] == line
                    &&& closing_effects(c, date@, n, i, old(self).summary@, old(self).fail_reason@, m, effects(r@).drop_first())
                }
            }),
    {
        let mut actions: Vec<Action> = Vec::new();
        if self.stage != Stage::Restarting {
            return actions;
        }
        let t = tag_text(self.name.as_str(), self.id.as_str());
        match outcome {
            Ok(()) => {
                let m = concat(&t, "Container restart was successful");
                self.message = m.clone();
                push_log(&mut actions, Level::Info, m);
            },
            Err(e) => {
                let mut m = concat(&t, "Container restart failed: ");
                m.append(e.as_str());
                self.message = m.clone();
                push_log(&mut actions, Level::Error, m);
            },
        }
        if self.config.post_action.unicode_len() > 0 {
            let mut args: Vec<String> = Vec::new();
            args.push(self.name.clone());
            args.push(self.id.clone());
            args.push(decimal_text(self.policy.stop_timeout as i128));
            let ghost before = effects(actions@);
            actions.push(Action::RunPostAction(self.config.post_action.clone(), args));
            proof {
                assert(args@.map_values(|a: String| a@) =~= seq![self.name@, self.id@, decimal(self.policy.stop_timeout as int)]);
                assert(effects(actions@) =~= before.push(Effect::RunPostAction(self.config.post_action@, seq![self.name@, self.id@, decimal(self.policy.stop_timeout as int)])));
            }
            self.stage = Stage::PostAction;
            return actions;
        }
        let mut closing = self.close(date);
        let ghost first = effects(actions@);
        let ghost rest = effects(closing@);
        actions.append(&mut closing);
        proof {
            assert(effects(actions@) =~= first + rest);
            assert(effects(actions@).drop_first() =~= rest);
        }
        actions
    }

    /// The notifications of the outcome, then its history line when history
    /// is recorded.
    fn close(&mut self, date: String) -> (r: Vec<Action>)
        requires
            old(self).wf(),
            old(self).stage == Stage::Restarting || old(self).stage == Stage::PostAction,
        ensures
            final(self).wf(),
            *final(self) == (Task { stage: closing_stage(old(self).config), ..*old(self) }),
            closing_effects(old(self).config, date@, old(self).name@, old(self).id@, old(self).summary@,
                old(self).fail_reason@, old(self).message@, effects(r@)),
    {
        let mut actions: Vec<Action> = Vec::new();
        let mut body = concat(&self.config.hostname, "|");
        body.append(self.summary.as_str());
        body.append("|");
        body.append(self.message.as_str());
        let ghost text = notice(self.config.hostname@, self.summary@, self.message@);
        assert(body@ == text);
        if self.config.webhook_url.unicode_len() > 0 && self.config.webhook_key.unicode_len() > 0 {
            let mut members: Vec<(String, String)> = Vec::new();
            members.push((self.config.webhook_key.clone(), body.clone()));
            proof {
                assert(members_view(members@) =~= seq![(self.config.webhook_key@, text)]);
            }
            actions.push(Action::Notify(self.config.webhook_url.clone(), json_object(&members)));
        }
        let ghost after_webhook = effects(actions@);
        if self.config.apprise_url.unicode_len() > 0 {
            let mut members: Vec<(String, String)> = Vec::new();
            members.push((String::from_str("title"), String::from_str("Docker-Autoheal")));
            members.push((String::from_str("body"), body.clone()));
            proof {
                assert(members_view(members@) =~= seq![("title"@, "Docker-Autoheal"@), ("body"@, text)]);
            }
            actions.push(Action::Notify(self.config.apprise_url.clone(), json_object(&members)));
            proof {
                assert(effects(actions@) =~= after_webhook.push(Effect::Notify(self.config.apprise_url@,
                    json_object_text(seq![("title"@, "Docker-Autoheal"@), ("body"@, text)]))));
            }
        }
        let ghost notes = effects(actions@);
        assert(notes =~= notifications(self.config, self.summary@, self.message@));
        if self.config.history {
            let record = JsonRecord::new(date, self.name.clone(), self.id.clone(), self.fail_reason.clone(), self.message.clone());
            let line = record_line(&record);
            actions.push(Action::AppendHistory(line));
            proof {
                assert(record_members(record) =~= seq![("date"@, record.date@), ("name"@, self.name@), ("id"@, self.id@), ("err"@, self.fail_reason@), ("action"@, self.message@)]);
                assert(effects(actions@) =~= notes.push(Effect::AppendHistory(history_line(record.date@, self.name@, self.id@, self.fail_reason@, self.message@))));
            }
            self.stage = Stage::Recording;
        } else {
            self.stage = Stage::Done;
        }
        actions
    }

    /// Takes how the post-action script went: INFO when it ran to completion,
    /// ERROR when it is missing or could not start or finish. The outcome of
    /// the restart stands either way; it is then notified and recorded,
    /// stamped `date` (the local time of the answer).
    pub fn on_post_action(&mut self, outcome: PostActionOutcome, date: String) -> (r: Vec<Action>)
        requires
            old(self).wf(),
        ensures
            final(self).wf(),
            final(self).policy == old(self).policy,
            final(self).config == old(self).config,
            final(self).name == old(self).name,
            final(self).id == old(self).id,
            !old(self).policy.restart_enabled ==> no_restart(effects(r@)),
            old(self).stage != Stage::PostAction ==> r@.len() == 0 && *final(self) == *old(self),
            old(self).stage == Stage::PostAction ==> ({
                let (n, i) = (old(self).name@, old(self).id@);
                let c = old(self).config;
                let line = post_action_line(n, i, c.post_action@, outcome);
                &&& final(self).stage == closing_stage(c)
                &&& r@.len() >= 1
                &&& effects(r@)[0] == Effect::Log(line.0, line.1)
                &&& final(self).message == old(self).message
                &&& final(self).summary == old(self).summary
                &&& final(self).fail_reason == old(self).fail_reason
                &&& closing_effects(c, date@, n, i, old(self).summary@, old(self).fail_reason@, old(self).message@, effects(r@).drop_first())
            }),
    {
        let mut actions: Vec<Action> = Vec::new();
        if self.stage != Stage::PostAction {
            return actions;
        }
        let mut m = tag_text(self.name.as_str(), self.id.as_str());
        m.append("Container post-action (");
        m.append(self.config.post_action.as_str());
        match outcome {
            PostActionOutcome::Completed => {
                m.append(") was successful");
                push_log(&mut actions, Level::Info, m);
            },
            PostActionOutcome::NotFound => {
                m.append(") not found");
                push_log(&mut actions, Level::Error, m);
            },
            PostActionOutcome::StartFailed(e) => {
                m.append(") failed to start: ");
                m.append(e.as_str());
                push_log(&mut actions, Level::Error, m);
            },
            PostActionOutcome::WaitFailed(e) => {
                m.append(") failed to complete: ");
                m.append(e.as_str());
                push_log(&mut actions, Level::Error, m);
            },
        }
        let mut closing = self.close(date);
        let ghost first = effects(actions@);
        let ghost rest = effects(closing@);
        actions.append(&mut closing);
        proof {
            assert(effects(actions@) =~= first + rest);
            assert(effects(actions@).drop_first() =~= rest);
        }
        actions
    }

    /// Takes the result of appending the history line. After a successful
    /// write the history is read back; a failed one (`Some` holds the error
    /// text) is reported as a WARNING and ends the task.
    pub fn on_written(&mut self, error: Option<String>) -> (r: Vec<Action>)
        requires
            old(self).wf(),
        ensures
            final(self).wf(),
            final(self).policy == old(self).policy,
            final(self).config == old(self).config,
            final(self).name == old(self).name,
            final(self).id == old(self).id,
            !old(self).policy.restart_enabled ==> no_restart(effects(r@)),
            old(self).stage != Stage::Recording ==> r@.len() == 0 && *final(self) == *old(self),
            final(self).message == old(self).message,
            final(self).summary == old(self).summary,
            final(self).fail_reason == old(self).fail_reason,
            old(self).stage == Stage::Recording ==> match error {
                Some(e) => final(self).stage == Stage::Done
                    && effects(r@) == seq![Effect::Log(Level::Warning, write_failed_message(old(self).config.history_file@, e@))],
                None => final(self).stage == Stage::Reading && effects(r@) == seq![Effect::ReadHistory],
            },
    {
        let mut actions: Vec<Action> = Vec::new();
        if self.stage != Stage::Recording {
            return actions;
        }
        match error {
            Some(e) => {
                let mut m = String::from_str("Unable to write to log (");
                m.append(self.config.history_file.as_str());
                m.append("): ");
                m.append(e.as_str());
                push_log(&mut actions, Level::Warning, m);
                self.stage = Stage::Done;
            },
            None => {
                actions.push(Action::ReadHistory);
                proof {
                    assert(effects(actions@) =~= seq![Effect::ReadHistory]);
                }
                self.stage = Stage::Reading;
            },
        }
        actions
    }

    /// Takes the history as read back (`Err` holds the error text, reported
    /// as a WARNING) and reports how many of its records are this container's.
    pub fn on_history(&mut self, records: core::result::Result<Vec<JsonRecord>, String>) -> (r: Vec<Action>)
        requires
            old(self).wf(),
        ensures
            final(self).wf(),
            final(self).policy == old(self).policy,
            final(self).config == old(self).config,
            final(self).name == old(self).name,
            final(self).id == old(self).id,
            !old(self).policy.restart_enabled ==> no_restart(effects(r@)),
            old(self).stage != Stage::Reading ==> r@.len() == 0 && *final(self) == *old(self),
            final(self).message == old(self).message,
            final(self).summary == old(self).summary,
            final(self).fail_reason == old(self).fail_reason,
            old(self).stage == Stage::Reading ==> final(self).stage == Stage::Done && effects(r@) == match records {
                Ok(v) => seq![Effect::Log(Level::Info, count_message(old(self).name@, old(self).id@, id_count(v@, old(self).id@)))],
                Err(e) => seq![Effect::Log(Level::Warning, read_failed_message(old(self).config.history_file@, e@))],
            },
    {
        let mut actions: Vec<Action> = Vec::new();
        if self.stage != Stage::Reading {
            return actions;
        }
        match records {
            Ok(v) => {
                let n = record_count(&v, self.id.as_str());
                let m = count_text(self.name.as_str(), self.id.as_str(), n);
                push_log(&mut actions, Level::Info, m);
            },
            Err(e) => {
                let mut m = String::from_str("Unable to read from log (");
                m.append(self.config.history_file.as_str());
                m.append("): ");
                m.append(e.as_str());
                push_log(&mut actions, Level::Warning, m);
            },
        }
        self.stage = Stage::Done;
        actions
    }
}

} // verus!
