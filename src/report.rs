//! Log lines, message text and the JSON documents the daemon emits.
use vstd::prelude::*;

verus! {

/// Severity of a log line.
#[derive(Clone, Copy, Debug, PartialEq, Eq, Structural)]
pub enum Level {
    Info,
    Warning,
    Error,
}

pub open spec fn level_label(l: Level) -> Seq<char> {
    match l {
        Level::Info => "[   INFO]"@,
        Level::Warning => "[WARNING]"@,
        Level::Error => "[  ERROR]"@,
    }
}

impl Level {
    /// The fixed-width tag a log line carries for its severity.
    pub fn label(&self) -> (r: &'static str)
        ensures
            r@ == level_label(*self),
    {
        match self {
            Level::Info => "[   INFO]",
            Level::Warning => "[WARNING]",
            Level::Error => "[  ERROR]",
        }
    }
}

/// One line for the operator's log.
#[derive(Clone, Debug)]
pub struct LogLine {
    pub level: Level,
    pub message: String,
}

impl View for LogLine {
    type V = (Level, Seq<char>);

    open spec fn view(&self) -> (Level, Seq<char>) {
        (self.level, self.message@)
    }
}

pub open spec fn lines_view(lines: Seq<LogLine>) -> Seq<(Level, Seq<char>)> {
    lines.map_values(|l: LogLine| l@)
}

pub fn log_line(level: Level, message: String) -> (r: LogLine)
    ensures
        r@ == (level, message@),
{
    LogLine { level, message }
}

pub open spec fn digit_char(d: int) -> char {
    if d == 0 {
        '0'
    } else if d == 1 {
        '1'
    } else if d == 2 {
        '2'
    } else if d == 3 {
        '3'
    } else if d == 4 {
        '4'
    } else if d == 5 {
        '5'
    } else if d == 6 {
        '6'
    } else if d == 7 {
        '7'
    } else if d == 8 {
        '8'
    } else {
        '9'
    }
}

/// Decimal digits of a natural number, most significant first, no leading zeros.
pub open spec fn natural_text(n: nat) -> Seq<char>
    decreases n,
{
    if n < 10 {
        seq![digit_char(n as int)]
    } else {
        natural_text(n / 10).push(digit_char((n % 10) as int))
    }
}

/// Decimal text of an integer, with a leading `-` when negative.
pub open spec fn decimal(n: int) -> Seq<char> {
    if n < 0 {
        seq!['-'] + natural_text((-n) as nat)
    } else {
        natural_text(n as nat)
    }
}

fn digit_str(d: u128) -> (r: &'static str)
    requires
        d < 10,
    ensures
        r@ == seq![digit_char(d as int)],
{
    proof {
        reveal_strlit("0");
        reveal_strlit("1");
        reveal_strlit("2");
        reveal_strlit("3");
        reveal_strlit("4");
        reveal_strlit("5");
        reveal_strlit("6");
        reveal_strlit("7");
        reveal_strlit("8");
        reveal_strlit("9");
    }
    let r = if d == 0 {
        "0"
    } else if d == 1 {
        "1"
    } else if d == 2 {
        "2"
    } else if d == 3 {
        "3"
    } else if d == 4 {
        "4"
    } else if d == 5 {
        "5"
    } else if d == 6 {
        "6"
    } else if d == 7 {
        "7"
    } else if d == 8 {
        "8"
    } else {
        "9"
    };
    assert(r@ =~= seq![digit_char(d as int)]);
    r
}

fn natural_digits(n: u128) -> (r: String)
    ensures
        r@ == natural_text(n as nat),
    decreases n,
{
    if n < 10 {
        String::from_str(digit_str(n))
    } else {
        let mut s = natural_digits(n / 10);
        s.append(digit_str(n % 10));
        assert(s@ =~= natural_text((n / 10) as nat).push(digit_char((n % 10) as int)));
        s
    }
}

/// The decimal text of an integer.
pub fn decimal_text(n: i128) -> (r: String)
    ensures
        r@ == decimal(n as int),
{
    if n < 0 {
        let m: u128 = if n == i128::MIN {
            170141183460469231731687303715884105728u128
        } else {
            (-n) as u128
        };
        let mut s = String::from_str("-");
        proof {
            reveal_strlit("-");
        }
        s.append(natural_digits(m).as_str());
        assert(s@ =~= seq!['-'] + natural_text((-n) as nat));
        s
    } else {
        natural_digits(n as u128)
    }
}

/// What serde_json writes for an object whose members are the given key and
/// string-value pairs. Its `Map` is ordered by key, so the text lists the
/// members sorted by key, not in the order given.
pub uninterp spec fn json_object_text(members: Seq<(Seq<char>, Seq<char>)>) -> Seq<char>;

pub open spec fn members_view(members: Seq<(String, String)>) -> Seq<(Seq<char>, Seq<char>)> {
    members.map_values(|m: (String, String)| (m.0@, m.1@))
}

/// Relies on serde_json: a `Map` of string values, written compactly by
/// `Value`'s `Display` (the `to_string` of the object).
#[verifier::external_body]
pub(crate) fn json_object(members: &Vec<(String, String)>) -> (r: String)
    ensures
        r@ == json_object_text(members_view(members@)),
{
    let mut map = serde_json::Map::new();
    for (k, v) in members.iter() {
        map.insert(k.clone(), serde_json::Value::String(v.clone()));
    }
    serde_json::Value::Object(map).to_string()
}

/// The text `[<name> (<id>)] `, which opens every per-container message.
pub open spec fn tag(name: Seq<char>, id: Seq<char>) -> Seq<char> {
    "["@ + name + " ("@ + id + ")] "@
}

pub fn tag_text(name: &str, id: &str) -> (r: String)
    ensures
        r@ == tag(name@, id@),
{
    let mut s = String::from_str("[");
    s.append(name);
    s.append(" (");
    s.append(id);
    s.append(")] ");
    s
}

} // verus!
