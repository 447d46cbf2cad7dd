//! What the bus listener makes of each event, and how the renderer's state
//! moves between render cycles.
use vstd::prelude::*;

use crate::clock::{
    formatted, lemma_elapsed_text, now_millis, rendered, running_line, template_vars, Clock,
    DisplayConfig, State, MINUTE_MILLIS,
};
use crate::text::{time_text, two_digits};

verus! {

/// The instant that an event's epoch seconds name, or else the instant it
/// was received, in milliseconds since the Unix epoch.
pub open spec fn start_of(epoch: Option<u64>, received_at: int) -> int {
    match epoch {
        Some(secs) => secs * 1000,
        None => received_at,
    }
}

/// The heading that an event's label gives.
pub open spec fn heading_of(label: Option<String>) -> Seq<char> {
    match label {
        Some(l) => l@,
        None => "missing"@,
    }
}

/// `t` is the transition that a bus event with this member name and these
/// arguments calls for: none for a member other than `Started` or `Stopped`.
pub open spec fn is_transition(
    member: Option<String>,
    epoch: Option<u64>,
    label: Option<String>,
    received_at: int,
    t: Option<State>,
) -> bool {
    if member matches Some(m) && m@ == "Started"@ {
        match t {
            Some(State::Running { started_at, heading }) => {
                &&& started_at == start_of(epoch, received_at)
                &&& heading@ == heading_of(label)
            },
            _ => false,
        }
    } else if member matches Some(m) && m@ == "Stopped"@ {
        t == Some(State::Stopped)
    } else {
        t is None
    }
}

/// The state after a delivered transition: the new state where there is
/// one, the old one otherwise.
pub open spec fn delivered(s: State, t: Option<State>) -> State {
    match t {
        Some(n) => n,
        None => s,
    }
}

/// The transition for a bus event with this member name and these
/// arguments, where `received_at` is when it arrived, in milliseconds since
/// the Unix epoch.
pub fn dispatch(member: Option<String>, epoch: Option<u64>, label: Option<String>, received_at: i64) -> (r:
    Option<State>)
    ensures
        is_transition(member, epoch, label, received_at as int, r),
        r matches Some(s) ==> s.wf(),
{
    let started = String::from_str("Started");
    let stopped = String::from_str("Stopped");
    match member {
        Some(m) => {
            if m.eq(&started) {
                let started_at: i128 = match epoch {
                    Some(secs) => (secs as i128) * 1000,
                    None => received_at as i128,
                };
                let heading = match label {
                    Some(l) => l,
                    None => String::from_str("missing"),
                };
                Some(State::Running { started_at, heading })
            } else if m.eq(&stopped) {
                Some(State::Stopped)
            } else {
                None
            }
        },
        None => None,
    }
}

/// The transition for a bus event with this member name and these
/// arguments, received now.
pub fn dispatch_now(member: Option<String>, epoch: Option<u64>, label: Option<String>) -> (r: Option<
    State,
>)
    ensures
        exists|received_at: i64| #[trigger] is_transition(member, epoch, label, received_at as int, r),
        r matches Some(s) ==> s.wf(),
{
    let received_at = now_millis();
    let r = dispatch(member, epoch, label, received_at);
    assert(is_transition(member, epoch, label, received_at as int, r));
    r
}

/// What the renderer's wait for the next state ended with.
#[derive(Clone, Debug)]
pub enum WaitOutcome {
    /// A new state arrived.
    Received(State),
    /// The wait timed out with no new state.
    TimedOut,
    /// The listener is gone: no state will arrive again.
    Disconnected,
}

/// The state after a wait.
pub open spec fn after_wait(s: State, o: WaitOutcome) -> State {
    match o {
        WaitOutcome::Received(n) => n,
        _ => s,
    }
}

/// The state after a run of waits, in order.
pub open spec fn after_waits(s: State, outcomes: Seq<WaitOutcome>) -> State
    decreases outcomes.len(),
{
    if outcomes.len() == 0 {
        s
    } else {
        after_wait(after_waits(s, outcomes.drop_last()), outcomes.last())
    }
}

impl Clock {
    /// Takes in what a wait for the next state ended with; returns whether
    /// the renderer goes on to render again.
    pub fn on_wait(&mut self, outcome: WaitOutcome) -> (go_on: bool)
        ensures
            final(self).state == after_wait(old(self).state, outcome),
            final(self).config == old(self).config,
            go_on == !(outcome is Disconnected),
    {
        match outcome {
            WaitOutcome::Received(n) => {
                self.state = n;
                true
            },
            WaitOutcome::TimedOut => true,
            WaitOutcome::Disconnected => false,
        }
    }
}

/// The state that most recently arrived in a run of waits, or `s` where
/// none did.
pub open spec fn last_arrival(s: State, outcomes: Seq<WaitOutcome>) -> State
    decreases outcomes.len(),
{
    if outcomes.len() == 0 {
        s
    } else if outcomes.last() is Received {
        outcomes.last()->Received_0
    } else {
        last_arrival(s, outcomes.drop_last())
    }
}

/// After every prefix of a run of waits, the state is the one that most
/// recently arrived: the states shown are the arrivals in the order they
/// came, never one older than another already shown.
pub proof fn lemma_state_is_last_arrival(s: State, outcomes: Seq<WaitOutcome>)
    ensures
        after_waits(s, outcomes) == last_arrival(s, outcomes),
    decreases outcomes.len(),
{
    if outcomes.len() > 0 {
        lemma_state_is_last_arrival(s, outcomes.drop_last());
    }
}

/// A clock taken through a run of waits, one `on_wait` step for each (the
/// `clocks` being its value before and after each step), ends in the state
/// that most recently arrived, with its configuration unchanged.
pub proof fn lemma_clock_run(clocks: Seq<Clock>, outcomes: Seq<WaitOutcome>)
    requires
        clocks.len() == outcomes.len() + 1,
        forall|k: int|
            0 <= k < outcomes.len() ==> {
                &&& (#[trigger] clocks[k + 1]).state == after_wait(clocks[k].state, outcomes[k])
                &&& clocks[k + 1].config == clocks[k].config
            },
    ensures
        clocks.last().state == after_waits(clocks[0].state, outcomes),
        clocks.last().state == last_arrival(clocks[0].state, outcomes),
        clocks.last().config == clocks[0].config,
    decreases outcomes.len(),
{
    if outcomes.len() > 0 {
        let n = outcomes.len();
        let front = clocks.drop_last();
        let rest = outcomes.drop_last();
        assert forall|k: int| 0 <= k < rest.len() implies {
            &&& (#[trigger] front[k + 1]).state == after_wait(front[k].state, rest[k])
            &&& front[k + 1].config == front[k].config
        } by {
            assert(front[k + 1] == clocks[k + 1]);
            assert(front[k] == clocks[k]);
            assert(rest[k] == outcomes[k]);
        }
        lemma_clock_run(front, rest);
        assert(clocks[n as int] == clocks.last());
        assert(clocks[(n - 1) as int + 1].state == after_wait(clocks[n - 1].state, outcomes[n - 1]));
    }
    lemma_state_is_last_arrival(clocks[0].state, outcomes);
}

/// Transitions are neither reordered nor lost: after any run of waits, the
/// state is the last one that arrived, whatever timeouts followed it.
pub proof fn lemma_last_arrival_wins(s: State, outcomes: Seq<WaitOutcome>, i: int)
    requires
        0 <= i < outcomes.len(),
        outcomes[i] is Received,
        forall|j: int| i < j < outcomes.len() ==> !(#[trigger] outcomes[j] is Received),
    ensures
        after_waits(s, outcomes) == outcomes[i]->Received_0,
    decreases outcomes.len(),
{
    if i < outcomes.len() - 1 {
        let rest = outcomes.drop_last();
        assert forall|j: int| i < j < rest.len() implies !(#[trigger] rest[j] is Received) by {
            assert(rest[j] == outcomes[j]);
        }
        lemma_last_arrival_wins(s, rest, i);
        assert(!(outcomes[outcomes.len() - 1] is Received));
    }
}

/// Rendering a stopped clock gives the same line at any two times.
pub proof fn lemma_stopped_render_stable(config: DisplayConfig, t1: int, t2: int)
    ensures
        rendered(config, State::Stopped, t1) == rendered(config, State::Stopped, t2),
        rendered(config, State::Stopped, t1) is Some,
{
}

/// A `Started` event without a label names its heading `missing`.
pub proof fn lemma_missing_label(member: Option<String>, epoch: Option<u64>, received_at: int, t: Option<State>)
    requires
        member matches Some(m) && m@ == "Started"@,
        is_transition(member, epoch, None, received_at, t),
    ensures
        t matches Some(State::Running { heading, .. }) && heading@ == "missing"@,
{
}

/// An event whose member is neither `Started` nor `Stopped` leaves the
/// state, and so the next rendered line, as it was.
pub proof fn lemma_unrecognized_keeps_state(
    config: DisplayConfig,
    s: State,
    member: Option<String>,
    epoch: Option<u64>,
    label: Option<String>,
    received_at: int,
    t: Option<State>,
    now: int,
)
    requires
        !(member matches Some(m) && (m@ == "Started"@ || m@ == "Stopped"@)),
        is_transition(member, epoch, label, received_at, t),
    ensures
        delivered(s, t) == s,
        rendered(config, delivered(s, t), now) == rendered(config, s, now),
{
}

/// A `Started` event carrying epoch seconds `epoch` and a label, rendered
/// `n` whole minutes (and less than one more) later while counting up,
/// fills the template with the label and with `n` as hours and minutes:
/// `00:` and the padded minutes below an hour, `01:` and the minutes past
/// the hour below two.
pub proof fn lemma_started_then_rendered(
    config: DisplayConfig,
    member: Option<String>,
    epoch: u64,
    label: String,
    received_at: int,
    t: Option<State>,
    n: nat,
    extra: int,
)
    requires
        member matches Some(m) && m@ == "Started"@,
        is_transition(member, Some(epoch), Some(label), received_at, t),
        config.down_from is None,
        0 <= extra < MINUTE_MILLIS,
    ensures
        t matches Some(State::Running { started_at, heading }) && {
            let now = started_at + n * MINUTE_MILLIS + extra;
            &&& started_at == epoch * 1000
            &&& heading@ == label@
            &&& rendered(config, t->Some_0, now) == match formatted(
                config.format@,
                template_vars(time_text(n), label@),
            ) {
                Some(title) => Some(running_line(config.mode, title)),
                None => None,
            }
            &&& n < 60 ==> time_text(n) == "00:"@ + two_digits(n)
            &&& 60 <= n < 120 ==> time_text(n) == "01:"@ + two_digits((n - 60) as nat)
        },
{
    let started_at = epoch * 1000;
    let now = started_at + n * MINUTE_MILLIS + extra;
    lemma_elapsed_text(config, started_at, n, extra, now);
}

} // verus!
