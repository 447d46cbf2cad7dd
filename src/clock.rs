//! The clock's state, its display configuration, and the text rendered for
//! each state.
use vstd::prelude::*;

use crate::cli::{MonitorArgs, OutputMode};
use crate::span_bound::{span_bound, span_bound_of, MAX_SPAN_NANOS};
use crate::text::{digit_char, minutes_text, time_text, two_digits};

verus! {

/// How far either side of the epoch, in milliseconds, a clock's start may
/// lie: as far as an unsigned 64-bit count of epoch seconds reaches.
pub const MAX_MILLIS: i128 = 18446744073709551615000;

/// Milliseconds in a minute.
pub const MINUTE_MILLIS: i128 = 60000;

/// A span of time: whole seconds and the nanoseconds beyond them.
#[derive(Clone, Copy, Debug, PartialEq, Eq, Structural)]
pub struct Span {
    pub secs: u64,
    pub nanos: u32,
}

impl Span {
    /// The span in whole milliseconds.
    pub open spec fn millis(self) -> int {
        self.secs * 1000 + self.nanos / 1_000_000
    }
}

/// What the editor's clock is doing.
#[derive(Clone, Debug)]
pub enum State {
    Stopped,
    /// Clocked in on `heading` since `started_at`, in milliseconds since the
    /// Unix epoch.
    Running { started_at: i128, heading: String },
}

impl State {
    /// A running clock started within `MAX_MILLIS` of the epoch.
    pub open spec fn wf(&self) -> bool {
        match self {
            State::Stopped => true,
            State::Running { started_at, .. } => -MAX_MILLIS <= *started_at <= MAX_MILLIS,
        }
    }

    /// Whether this state can be rendered.
    pub fn is_valid(&self) -> (r: bool)
        ensures
            r == self.wf(),
    {
        match self {
            State::Stopped => true,
            State::Running { started_at, .. } => -MAX_MILLIS <= *started_at && *started_at <= MAX_MILLIS,
        }
    }
}

/// How the clock is shown; fixed once the program has started.
#[derive(Clone, Debug)]
pub struct DisplayConfig {
    pub mode: OutputMode,
    /// The line's template, with `{time}` and `{heading}` placeholders.
    pub format: String,
    /// Where set, the time shown counts down from this span instead of up.
    pub down_from: Option<Span>,
}

/// The current state together with how to show it.
#[derive(Clone, Debug)]
pub struct Clock {
    pub state: State,
    pub config: DisplayConfig,
}

/// Why a template could not be filled in.
#[derive(Clone, Debug)]
pub enum TemplateError {
    /// The template is malformed.
    Invalid(String),
    /// The template names a placeholder that has no value.
    KeyError(String),
    /// A placeholder asks for a format that its value cannot take.
    TypeError(String),
}

/// A countdown duration that could not be read.
#[derive(Clone, Debug)]
pub struct InvalidCountdown {
    pub value: String,
}

/// The span that a human-readable duration text denotes, as whole seconds
/// and nanoseconds, or none where the text is not a duration.
pub uninterp spec fn parsed_duration(s: Seq<char>) -> Option<(u64, u32)>;

/// `template` with its placeholders replaced by the values of `vars`, or
/// none where that fails.
pub uninterp spec fn formatted(template: Seq<char>, vars: Seq<(Seq<char>, Seq<char>)>) -> Option<Seq<char>>;

/// The lowercase hexadecimal digit of `d`.
pub open spec fn hex_digit(d: nat) -> char
    recommends
        d < 16,
{
    if d < 10 {
        digit_char(d)
    } else if d == 10 {
        'a'
    } else if d == 11 {
        'b'
    } else if d == 12 {
        'c'
    } else if d == 13 {
        'd'
    } else if d == 14 {
        'e'
    } else {
        'f'
    }
}

/// How one character stands inside a JSON string: quote and backslash get
/// a backslash, backspace, tab, line feed, form feed and carriage return
/// their short escapes, other control characters `\u00XX`; all else stands
/// as it is.
pub open spec fn json_escape(c: char) -> Seq<char> {
    if c == '"' {
        seq!['\\', '"']
    } else if c == '\\' {
        seq!['\\', '\\']
    } else if c == '\x08' {
        seq!['\\', 'b']
    } else if c == '\t' {
        seq!['\\', 't']
    } else if c == '\n' {
        seq!['\\', 'n']
    } else if c == '\x0c' {
        seq!['\\', 'f']
    } else if c == '\r' {
        seq!['\\', 'r']
    } else if (c as u32) < 0x20 {
        seq!['\\', 'u', '0', '0', hex_digit((c as u32 / 16) as nat), hex_digit((c as u32 % 16) as nat)]
    } else {
        seq![c]
    }
}

/// The characters of `s`, each escaped for a JSON string.
pub open spec fn json_escaped(s: Seq<char>) -> Seq<char>
    decreases s.len(),
{
    if s.len() == 0 {
        Seq::empty()
    } else {
        json_escaped(s.drop_last()) + json_escape(s.last())
    }
}

/// `s` as a JSON string literal: escaped, between double quotes.
pub open spec fn json_string(s: Seq<char>) -> Seq<char> {
    seq!['"'] + json_escaped(s) + seq!['"']
}

/// No character of `s` written as a JSON string is a control character, so
/// a Waybar record always stands on one line.
pub proof fn lemma_json_string_has_no_control(s: Seq<char>)
    ensures
        forall|i: int| 0 <= i < json_string(s).len() ==> (#[trigger] json_string(s)[i]) as u32 >= 0x20,
    decreases s.len(),
{
    if s.len() > 0 {
        lemma_json_string_has_no_control(s.drop_last());
    }
    let e = json_escaped(s);
    assert forall|i: int| 0 <= i < e.len() implies (#[trigger] e[i]) as u32 >= 0x20 by {
        if s.len() > 0 {
            let p = json_escaped(s.drop_last());
            if i >= p.len() {
                let c = s.last();
                let q = json_escape(c);
                assert(e[i] == q[i - p.len()]);
                lemma_hex_digits_printable();
            } else {
                assert(e[i] == p[i]);
                assert(json_string(s.drop_last())[i + 1] == p[i]);
            }
        }
    }
    assert forall|i: int| 0 <= i < json_string(s).len() implies (#[trigger] json_string(s)[i]) as u32
        >= 0x20 by {
        if 0 < i < json_string(s).len() - 1 {
            assert(json_string(s)[i] == e[i - 1]);
        }
    }
}

/// Every hexadecimal digit is a printable character.
proof fn lemma_hex_digits_printable()
    ensures
        forall|d: nat| d < 16 ==> (#[trigger] hex_digit(d)) as u32 >= 0x20,
{
}

/// Relies on humantime::parse_duration: the span denoted by a duration text
/// such as `25m` or `1h 30min`, none where the text is not one. The call
/// panics where nanoseconds that add up to exactly one second land on the
/// largest count of seconds; the span read so far then exceeds
/// `MAX_SPAN_NANOS`, so texts whose bound does are left out.
#[verifier::external_body]
fn parse_duration(s: &str) -> (r: Option<(u64, u32)>)
    requires
        span_bound(s@) <= MAX_SPAN_NANOS,
    ensures
        r == parsed_duration(s@),
{
    humantime::parse_duration(s).ok().map(|d| (d.as_secs(), d.subsec_nanos()))
}

/// The name and value pairs of `vars`, as sequences of characters.
pub open spec fn pairs_view(vars: Seq<(String, String)>) -> Seq<(Seq<char>, Seq<char>)> {
    vars.map_values(|p: (String, String)| (p.0@, p.1@))
}

/// Relies on strfmt::strfmt: Rust-style substitution of the named values
/// `vars` into the `{name}` placeholders of `template`, failing on a
/// malformed template or a name without a value.
#[verifier::external_body]
fn substitute(template: &str, vars: &Vec<(String, String)>) -> (r: Result<String, TemplateError>)
    ensures
        match r {
            Ok(s) => formatted(template@, pairs_view(vars@)) == Some(s@),
            Err(_) => formatted(template@, pairs_view(vars@)) is None,
        },
{
    let map: std::collections::HashMap<String, String> = vars.iter().cloned().collect();
    match strfmt::strfmt(template, &map) {
        Ok(s) => Ok(s),
        Err(strfmt::FmtError::Invalid(m)) => Err(TemplateError::Invalid(m)),
        Err(strfmt::FmtError::KeyError(m)) => Err(TemplateError::KeyError(m)),
        Err(strfmt::FmtError::TypeError(m)) => Err(TemplateError::TypeError(m)),
    }
}

/// Relies on serde_json's serializer: `s` written as a quoted and escaped
/// JSON string.
#[verifier::external_body]
fn json_quote(s: &String) -> (r: String)
    ensures
        r@ == json_string(s@),
{
    serde_json::Value::String(s.clone()).to_string()
}

/// Relies on chrono's conversion of std's `SystemTime::now` to a UTC date
/// and time, which takes readings before 1970 too: the current time, in
/// milliseconds since the Unix epoch.
#[verifier::external_body]
pub(crate) fn now_millis() -> (r: i64) {
    chrono::DateTime::<chrono::Utc>::from(std::time::SystemTime::now()).timestamp_millis()
}

/// The signed distance, in milliseconds, that a running clock shows at
/// `now`: time left until the countdown ends, or time since the start.
pub open spec fn delta_millis(started_at: int, down_from: Option<Span>, now: int) -> int {
    match down_from {
        Some(d) => started_at + d.millis() - now,
        None => now - started_at,
    }
}

/// Whole minutes shown for a distance; a countdown that has run out, or a
/// start that lies ahead, shows zero.
pub open spec fn shown_minutes(delta: int) -> nat {
    if delta <= 0 {
        0
    } else {
        (delta / MINUTE_MILLIS as int) as nat
    }
}

/// The `HH:MM` text of a clock started at `started_at`, at `now`.
pub open spec fn clock_text(config: DisplayConfig, started_at: int, now: int) -> Seq<char> {
    time_text(shown_minutes(delta_millis(started_at, config.down_from, now)))
}

/// The values of a running clock's template placeholders.
pub open spec fn template_vars(time: Seq<char>, heading: Seq<char>) -> Seq<(Seq<char>, Seq<char>)> {
    seq![("heading"@, heading), ("time"@, time)]
}

/// A Waybar record: `alt` and `class` are `alt`, `text` and `tooltip` are
/// the JSON string `quoted_text`, and `percentage` is empty. Keys are sorted.
pub open spec fn widget_line(alt: Seq<char>, quoted_text: Seq<char>) -> Seq<char> {
    "{\"alt\":\""@ + alt + "\",\"class\":\""@ + alt + "\",\"percentage\":\"\",\"text\":"@
        + quoted_text + ",\"tooltip\":"@ + quoted_text + "}"@
}

/// The line shown for a stopped clock.
pub open spec fn stopped_line(mode: OutputMode) -> Seq<char> {
    match mode {
        OutputMode::Simple => Seq::empty(),
        OutputMode::Waybar => widget_line("stopped"@, "\"\""@),
    }
}

/// The line shown for a running clock whose template gave `title`.
pub open spec fn running_line(mode: OutputMode, title: Seq<char>) -> Seq<char> {
    match mode {
        OutputMode::Simple => title,
        OutputMode::Waybar => widget_line("running"@, json_string(title)),
    }
}

/// The line rendered for `state` at `now`, or none where the template
/// cannot be filled in.
pub open spec fn rendered(config: DisplayConfig, state: State, now: int) -> Option<Seq<char>> {
    match state {
        State::Stopped => Some(stopped_line(config.mode)),
        State::Running { started_at, heading } => {
            let vars = template_vars(clock_text(config, started_at as int, now), heading@);
            match formatted(config.format@, vars) {
                Some(title) => Some(running_line(config.mode, title)),
                None => None,
            }
        },
    }
}

/// The countdown that a duration option asks for: `Some(None)` for none,
/// `None` where the text is not a duration, or where its bound exceeds
/// `MAX_SPAN_NANOS` (it then names, within one unit for each fraction in
/// it, more than the largest span).
pub open spec fn countdown_of(down_from: Option<String>) -> Option<Option<Span>> {
    match down_from {
        None => Some(None),
        Some(s) => if span_bound(s@) > MAX_SPAN_NANOS {
            None
        } else {
            match parsed_duration(s@) {
                Some(p) => Some(Some(Span { secs: p.0, nanos: p.1 })),
                None => None,
            }
        },
    }
}

/// Writes a Waybar record with `alt` and `class` set to `alt`, and `text`
/// and `tooltip` set to the JSON string `quoted_text`.
pub fn widget_record(alt: &str, quoted_text: &str) -> (r: String)
    ensures
        r@ == widget_line(alt@, quoted_text@),
{
    let s = String::from_str("{\"alt\":\"");
    let s = s.concat(alt);
    let s = s.concat("\",\"class\":\"");
    let s = s.concat(alt);
    let s = s.concat("\",\"percentage\":\"\",\"text\":");
    let s = s.concat(quoted_text);
    let s = s.concat(",\"tooltip\":");
    let s = s.concat(quoted_text);
    s.concat("}")
}

impl DisplayConfig {
    /// Whole minutes shown at `now` for a clock started at `started_at`.
    pub fn minutes_shown(&self, started_at: i128, now: i64) -> (r: u64)
        requires
            -MAX_MILLIS <= started_at <= MAX_MILLIS,
        ensures
            r == shown_minutes(delta_millis(started_at as int, self.down_from, now as int)),
    {
        let now = now as i128;
        let delta: i128 = match self.down_from {
            Some(d) => started_at + (d.secs as i128) * 1000 + (d.nanos / 1_000_000) as i128 - now,
            None => now - started_at,
        };
        assert(delta == delta_millis(started_at as int, self.down_from, now as int));
        if delta <= 0 {
            0
        } else {
            assert(delta / MINUTE_MILLIS <= u64::MAX) by (nonlinear_arith)
                requires
                    0 < delta <= 3 * MAX_MILLIS,
                    MINUTE_MILLIS == 60000,
                    MAX_MILLIS == 18446744073709551615000i128,
            ;
            (delta / MINUTE_MILLIS) as u64
        }
    }
}

impl Clock {
    /// A stopped clock shown as `args` asks; fails where the countdown
    /// option is not a duration.
    pub fn new(args: MonitorArgs) -> (r: Result<Clock, InvalidCountdown>)
        ensures
            r is Ok <==> countdown_of(args.down_from) is Some,
            r is Ok ==> {
                &&& r->Ok_0.state is Stopped
                &&& r->Ok_0.config.mode == args.mode
                &&& r->Ok_0.config.format == args.format
                &&& countdown_of(args.down_from) == Some(r->Ok_0.config.down_from)
            },
            r is Err ==> args.down_from == Some(r->Err_0.value),
    {
        let down_from = match args.down_from {
            None => None,
            Some(s) => {
                if span_bound_of(s.as_str()) > MAX_SPAN_NANOS {
                    return Err(InvalidCountdown { value: s });
                }
                match parse_duration(s.as_str()) {
                    Some(p) => Some(Span { secs: p.0, nanos: p.1 }),
                    None => {
                        return Err(InvalidCountdown { value: s });
                    },
                }
            },
        };
        Ok(Clock {
            state: State::Stopped,
            config: DisplayConfig { mode: args.mode, format: args.format, down_from },
        })
    }

    /// The line shown while the clock is stopped.
    pub fn output_stopped_msg(&self) -> (r: String)
        ensures
            r@ == stopped_line(self.config.mode),
    {
        match self.config.mode {
            OutputMode::Simple => String::new(),
            OutputMode::Waybar => widget_record("stopped", "\"\""),
        }
    }

    /// The line shown while the clock runs, with `title` the filled-in
    /// template.
    pub fn output_running_msg(&self, title: &String) -> (r: String)
        ensures
            r@ == running_line(self.config.mode, title@),
    {
        match self.config.mode {
            OutputMode::Simple => title.clone(),
            OutputMode::Waybar => {
                let quoted = json_quote(title);
                widget_record("running", quoted.as_str())
            },
        }
    }

    /// The line for the current state at `now`, in milliseconds since the
    /// Unix epoch.
    pub fn render_at(&self, now: i64) -> (r: Result<String, TemplateError>)
        requires
            self.state.wf(),
        ensures
            match r {
                Ok(s) => rendered(self.config, self.state, now as int) == Some(s@),
                Err(_) => rendered(self.config, self.state, now as int) is None,
            },
    {
        match &self.state {
            State::Stopped => Ok(self.output_stopped_msg()),
            State::Running { started_at, heading } => {
                let minutes = self.config.minutes_shown(*started_at, now);
                let time = minutes_text(minutes);
                let ghost time_view = time@;
                let mut vars: Vec<(String, String)> = Vec::new();
                vars.push((String::from_str("heading"), heading.clone()));
                vars.push((String::from_str("time"), time));
                assert(pairs_view(vars@) =~= template_vars(time_view, heading@));
                match substitute(self.config.format.as_str(), &vars) {
                    Ok(title) => Ok(self.output_running_msg(&title)),
                    Err(e) => Err(e),
                }
            },
        }
    }

    /// The line for the current state at the present time; a stopped clock
    /// shows the same line whenever it is rendered.
    pub fn output(&self) -> (r: Result<String, TemplateError>)
        requires
            self.state.wf(),
        ensures
            exists|now: i64|
                match r {
                    Ok(s) => #[trigger] rendered(self.config, self.state, now as int) == Some(s@),
                    Err(_) => rendered(self.config, self.state, now as int) is None,
                },
            self.state is Stopped ==> r is Ok && r->Ok_0@ == stopped_line(self.config.mode),
    {
        let now = now_millis();
        let r = self.render_at(now);
        assert(match r {
            Ok(s) => rendered(self.config, self.state, now as int) == Some(s@),
            Err(_) => rendered(self.config, self.state, now as int) is None,
        });
        r
    }
}

/// Counting up, a clock started `n` whole minutes (and less than one more)
/// before `now` shows `n` as hours and minutes: below an hour, `00:` and the
/// zero-padded minutes; below two hours, `01:` and the minutes past the hour.
pub proof fn lemma_elapsed_text(config: DisplayConfig, started_at: int, n: nat, extra: int, now: int)
    requires
        config.down_from is None,
        0 <= extra < MINUTE_MILLIS,
        now == started_at + n * MINUTE_MILLIS + extra,
    ensures
        clock_text(config, started_at, now) == time_text(n),
        n < 60 ==> clock_text(config, started_at, now) == "00:"@ + two_digits(n),
        60 <= n < 120 ==> clock_text(config, started_at, now) == "01:"@ + two_digits((n - 60) as nat),
{
    let delta = now - started_at;
    assert(delta == n * 60000 + extra);
    assert(delta / 60000 == n) by (nonlinear_arith)
        requires
            delta == n * 60000 + extra,
            0 <= extra < 60000,
    ;
    if n == 0 {
        assert(shown_minutes(delta) == 0);
    }
    assert(shown_minutes(delta) == n);
    reveal_strlit("00:");
    reveal_strlit("01:");
    if n < 60 {
        assert(two_digits(n / 60) + seq![':'] =~= "00:"@);
    } else if n < 120 {
        assert(two_digits(n / 60) + seq![':'] =~= "01:"@);
    }
}

/// Counting down from `d`, a clock shows `00:00` from the moment the
/// countdown ends on.
pub proof fn lemma_countdown_ends_at_zero(config: DisplayConfig, d: Span, started_at: int, now: int)
    requires
        config.down_from == Some(d),
        now >= started_at + d.millis(),
    ensures
        clock_text(config, started_at, now) == "00:00"@,
{
    reveal_strlit("00:00");
    assert(shown_minutes(delta_millis(started_at, config.down_from, now)) == 0);
    assert(time_text(0) =~= "00:00"@);
}

} // verus!
