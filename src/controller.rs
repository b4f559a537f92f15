use vstd::prelude::*;
use crate::state::{Action, State};
use crate::transition::{next_state, transition, Input};

verus! {

/// Holds the one current state and advances it one input sample at a time.
pub struct BrakeController {
    state: State,
}

impl View for BrakeController {
    type V = State;

    closed spec fn view(&self) -> State {
        self.state
    }
}

impl BrakeController {
    /// A controller in `Init`.
    pub fn new() -> (c: Self)
        ensures
            c@ == State::Init,
    {
        BrakeController { state: State::Init }
    }

    /// Takes the first enabled edge of the current state, if any, and
    /// returns the one action of the state it is then in.
    pub fn step(&mut self, input: &Input) -> (action: Action)
        ensures
            final(self)@ == next_state(old(self)@, *input),
            action == final(self)@.spec_action(),
    {
        self.state = transition(self.state, input);
        self.state.action()
    }

    /// The current state.
    pub fn state(&self) -> (s: State)
        ensures
            s == self@,
    {
        self.state
    }

    /// The display name of the current state.
    pub fn current_state_name(&self) -> (r: &'static str)
        ensures
            r@ == self@.spec_name(),
    {
        self.state.name()
    }
}

/// From `Idle`, with the stop command and the emergency stop both asserted,
/// the controller brakes.
pub proof fn lemma_brake_wins_over_emergency(input: Input)
    requires
        input.brake,
        input.e_stop,
    ensures
        next_state(State::Idle, input) == State::Braking,
{
}

/// From `Braking`, while the stop command stays asserted, the controller stays
/// in `Braking`.
pub proof fn lemma_braking_holds_while_commanded(input: Input)
    requires
        input.brake,
    ensures
        next_state(State::Braking, input) == State::Braking,
{
}

/// Asserting the stop command from `Idle` and then clearing it brings the
/// controller back to `Idle`.
pub proof fn lemma_brake_round_trip(press: Input, release: Input)
    requires
        press.brake,
        !release.brake,
    ensures
        next_state(State::Idle, press) == State::Braking,
        next_state(next_state(State::Idle, press), release) == State::Idle,
{
}

} // verus!
