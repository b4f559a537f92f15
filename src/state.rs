use vstd::prelude::*;

verus! {

/// The operating states of the controller.
#[derive(Clone, Copy, Debug, PartialEq, Eq, Structural)]
pub enum State {
    Init,
    Idle,
    Braking,
    Emergency,
}

/// The effect bound to a state; the embedding application performs it
/// (prints a status line, drives an actuator) after every step.
#[derive(Clone, Copy, Debug, PartialEq, Eq, Structural)]
pub enum Action {
    Initialize,
    ReportReady,
    EngageBrakes,
    RaiseAlarm,
}

impl State {
    /// The display name of the state, for diagnostics only.
    pub open spec fn spec_name(self) -> Seq<char> {
        match self {
            State::Init => "Init"@,
            State::Idle => "Idle"@,
            State::Braking => "Braking"@,
            State::Emergency => "Emergency"@,
        }
    }

    /// The action that runs while the controller is in this state.
    pub open spec fn spec_action(self) -> Action {
        match self {
            State::Init => Action::Initialize,
            State::Idle => Action::ReportReady,
            State::Braking => Action::EngageBrakes,
            State::Emergency => Action::RaiseAlarm,
        }
    }

    /// The display name; the transitions never read it.
    pub fn name(&self) -> (r: &'static str)
        ensures
            r@ == self.spec_name(),
    {
        match self {
            State::Init => "Init",
            State::Idle => "Idle",
            State::Braking => "Braking",
            State::Emergency => "Emergency",
        }
    }

    /// The action bound to this state.
    pub fn action(&self) -> (r: Action)
        ensures
            r == self.spec_action(),
    {
        match self {
            State::Init => Action::Initialize,
            State::Idle => Action::ReportReady,
            State::Braking => Action::EngageBrakes,
            State::Emergency => Action::RaiseAlarm,
        }
    }
}

impl Action {
    /// The human-readable status line of the action.
    pub open spec fn spec_message(self) -> Seq<char> {
        match self {
            Action::Initialize => "System initializing..."@,
            Action::ReportReady => "System is idle and ready."@,
            Action::EngageBrakes => "System is braking."@,
            Action::RaiseAlarm => "Emergency mode activated!"@,
        }
    }

    /// The status line of this action.
    pub fn message(&self) -> (r: &'static str)
        ensures
            r@ == self.spec_message(),
    {
        match self {
            Action::Initialize => "System initializing...",
            Action::ReportReady => "System is idle and ready.",
            Action::EngageBrakes => "System is braking.",
            Action::RaiseAlarm => "Emergency mode activated!",
        }
    }
}

} // verus!
