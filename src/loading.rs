//! The loading phase, which hands over to the main menu.
use crate::state::{State, StateMachine};
use vstd::prelude::*;

verus! {

/// What the loading phase keeps; it has nothing to load yet.
#[derive(Clone, Copy, Debug, Default, PartialEq, Eq, Structural)]
pub struct LoadingState {}

/// On entering `Loading`: asks for the main menu.
pub fn setup(machine: &mut StateMachine)
    ensures
        final(machine).pending_spec() == Some(State::MainMenu),
        final(machine).current_spec() == old(machine).current_spec(),
{
    machine.request(State::MainMenu);
}

/// On leaving `Loading`: nothing is left to release.
pub fn cleanup() {
}

} // verus!
