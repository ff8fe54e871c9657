use vstd::prelude::*;

verus! {

/// The animation the character is playing.
#[derive(Clone, Copy, Debug, PartialEq, Eq, Structural)]
pub enum State {
    Idle,
    Running,
    Click,
}

/// What `!` does to a state: a running or clicked character goes idle, an
/// idle one starts running.
pub open spec fn toggled(s: State) -> State {
    match s {
        State::Running | State::Click => State::Idle,
        State::Idle => State::Running,
    }
}

impl Default for State {
    fn default() -> (s: State)
        ensures
            s == State::Idle,
    {
        State::Idle
    }
}

impl std::ops::Not for State {
    type Output = State;

    fn not(self) -> (r: State) {
        match self {
            State::Running | State::Click => State::Idle,
            State::Idle => State::Running,
        }
    }
}

impl vstd::std_specs::ops::NotSpecImpl for State {
    open spec fn obeys_not_spec() -> bool {
        true
    }

    open spec fn not_req(self) -> bool {
        true
    }

    open spec fn not_spec(self) -> State {
        toggled(self)
    }
}

/// Toggling never leaves a state where it was.
pub proof fn lemma_toggle_changes_state(s: State)
    ensures
        toggled(s) != s,
{
}

/// Toggling twice comes back to an idle or a running character; a clicked
/// one comes back running.
pub proof fn lemma_toggle_twice(s: State)
    requires
        s != State::Click,
    ensures
        toggled(toggled(s)) == s,
{
}


/// `!` ends at idle or running: a character starts running exactly when it
/// was idle, and goes idle exactly when it was running or clicked.
pub proof fn lemma_toggle_targets(s: State)
    ensures
        toggled(s) == State::Running <==> s == State::Idle,
        toggled(s) == State::Idle <==> s != State::Idle,
        toggled(s) != State::Click,
{
}

} // verus!
