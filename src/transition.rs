use vstd::prelude::*;
use crate::state::State;

verus! {

/// One sample of the signals that the transitions read. The controller keeps
/// no history: every step is decided by the current state and this sample.
#[derive(Clone, Copy, Debug, PartialEq, Eq, Structural)]
pub struct Input {
    /// The system is ready; gates the move out of `Init`.
    pub power_on: bool,
    /// The stop command.
    pub brake: bool,
    /// The emergency stop.
    pub e_stop: bool,
}

/// The condition on an input sample under which an edge may be taken.
#[derive(Clone, Copy, Debug, PartialEq, Eq, Structural)]
pub enum Guard {
    PowerOn,
    BrakeSet,
    BrakeClear,
    EStopSet,
    EStopClear,
}

/// An outgoing edge of the transition table: its guard and its target.
#[derive(Clone, Copy, Debug, PartialEq, Eq, Structural)]
pub struct Edge {
    pub guard: Guard,
    pub target: State,
}

impl Guard {
    pub open spec fn spec_holds(self, input: Input) -> bool {
        match self {
            Guard::PowerOn => input.power_on,
            Guard::BrakeSet => input.brake,
            Guard::BrakeClear => !input.brake,
            Guard::EStopSet => input.e_stop,
            Guard::EStopClear => !input.e_stop,
        }
    }

    /// Whether the guard holds on `input`.
    pub fn holds(&self, input: &Input) -> (r: bool)
        ensures
            r == self.spec_holds(*input),
    {
        match self {
            Guard::PowerOn => input.power_on,
            Guard::BrakeSet => input.brake,
            Guard::BrakeClear => !input.brake,
            Guard::EStopSet => input.e_stop,
            Guard::EStopClear => !input.e_stop,
        }
    }
}

/// The outgoing edges of each state, highest priority first. Leaving `Init`
/// is gated on `power_on`; out of `Idle` the stop command wins over the
/// emergency stop when both are asserted.
pub open spec fn edge_table(s: State) -> Seq<Edge> {
    match s {
        State::Init => seq![Edge { guard: Guard::PowerOn, target: State::Idle }],
        State::Idle => seq![
            Edge { guard: Guard::BrakeSet, target: State::Braking },
            Edge { guard: Guard::EStopSet, target: State::Emergency },
        ],
        State::Braking => seq![Edge { guard: Guard::BrakeClear, target: State::Idle }],
        State::Emergency => seq![Edge { guard: Guard::EStopClear, target: State::Idle }],
    }
}

/// The target of the first edge at or after position `k` whose guard holds.
pub open spec fn first_enabled_from(edges: Seq<Edge>, input: Input, k: int) -> Option<State>
    decreases edges.len() - k,
{
    if k < 0 || k >= edges.len() {
        None
    } else if edges[k].guard.spec_holds(input) {
        Some(edges[k].target)
    } else {
        first_enabled_from(edges, input, k + 1)
    }
}

/// The target of the first edge whose guard holds, if any.
pub open spec fn first_enabled(edges: Seq<Edge>, input: Input) -> Option<State> {
    first_enabled_from(edges, input, 0)
}

/// The state after one step: the first enabled edge's target, or the same
/// state when no guard holds.
pub open spec fn table_step(s: State, input: Input) -> State {
    match first_enabled(edge_table(s), input) {
        Some(t) => t,
        None => s,
    }
}

/// The transition rules written out state by state.
pub open spec fn next_state(s: State, input: Input) -> State {
    match s {
        State::Init => if input.power_on { State::Idle } else { State::Init },
        State::Idle => if input.brake {
            State::Braking
        } else if input.e_stop {
            State::Emergency
        } else {
            State::Idle
        },
        State::Braking => if input.brake { State::Braking } else { State::Idle },
        State::Emergency => if input.e_stop { State::Emergency } else { State::Idle },
    }
}

/// The table, taken in priority order, gives exactly the transition rules.
pub proof fn lemma_table_step_is_next_state(s: State, input: Input)
    ensures
        table_step(s, input) == next_state(s, input),
{
    reveal_with_fuel(first_enabled_from, 3);
}

/// The outgoing edges of `s`, highest priority first.
pub fn edges_of(s: State) -> (r: Vec<Edge>)
    ensures
        r@ == edge_table(s),
{
    let r = match s {
        State::Init => vec![Edge { guard: Guard::PowerOn, target: State::Idle }],
        State::Idle => vec![
            Edge { guard: Guard::BrakeSet, target: State::Braking },
            Edge { guard: Guard::EStopSet, target: State::Emergency },
        ],
        State::Braking => vec![Edge { guard: Guard::BrakeClear, target: State::Idle }],
        State::Emergency => vec![Edge { guard: Guard::EStopClear, target: State::Idle }],
    };
    assert(r@ =~= edge_table(s));
    r
}

/// Looks through `edges` in order and returns the target of the first one
/// whose guard holds on `input`.
pub fn first_enabled_target(edges: &Vec<Edge>, input: &Input) -> (r: Option<State>)
    ensures
        r == first_enabled(edges@, *input),
{
    let mut k: usize = 0;
    while k < edges.len()
        invariant
            k <= edges.len(),
            first_enabled(edges@, *input) == first_enabled_from(edges@, *input, k as int),
        decreases edges.len() - k,
    {
        let e = edges[k];
        if e.guard.holds(input) {
            return Some(e.target);
        }
        k = k + 1;
    }
    None
}

/// Evaluates the table for state `s` on `input`.
pub fn transition(s: State, input: &Input) -> (r: State)
    ensures
        r == table_step(s, *input),
        r == next_state(s, *input),
{
    proof {
        lemma_table_step_is_next_state(s, *input);
    }
    let edges = edges_of(s);
    match first_enabled_target(&edges, input) {
        Some(t) => t,
        None => s,
    }
}

} // verus!
