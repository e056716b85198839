//! The application's top-level states and the machine that switches between them.
use vstd::prelude::*;

verus! {

/// The screen or mode the application is in.
#[derive(Clone, Copy, Debug, PartialEq, Eq, Structural, Hash)]
pub enum State {
    Loading,
    MainMenu,
    OptionsMenu,
    Paused,
    Playing,
    ChooseArea,
}

/// A change of state that has been committed: the state left and the state entered.
#[derive(Clone, Copy, Debug, PartialEq, Eq, Structural)]
pub struct Transition {
    pub from: State,
    pub to: State,
}

/// The current state and, until the next commit point, the state requested
/// for it. A request never changes the current state by itself.
pub struct StateMachine {
    current: State,
    pending: Option<State>,
}

impl StateMachine {
    pub closed spec fn current_spec(&self) -> State {
        self.current
    }

    pub closed spec fn pending_spec(&self) -> Option<State> {
        self.pending
    }

    /// A machine in `Loading`, with nothing requested.
    pub fn new() -> (r: StateMachine)
        ensures
            r.current_spec() == State::Loading,
            r.pending_spec() is None,
    {
        StateMachine { current: State::Loading, pending: None }
    }

    /// A machine in `start`, with nothing requested.
    pub fn starting_in(start: State) -> (r: StateMachine)
        ensures
            r.current_spec() == start,
            r.pending_spec() is None,
    {
        StateMachine { current: start, pending: None }
    }

    /// The state that is current.
    pub fn current(&self) -> (r: State)
        ensures
            r == self.current_spec(),
    {
        self.current
    }

    /// The state requested for the next commit point, if any.
    pub fn pending(&self) -> (r: Option<State>)
        ensures
            r == self.pending_spec(),
    {
        self.pending
    }

    /// Asks for `next` at the next commit point; a later request in the same
    /// frame replaces it.
    pub fn request(&mut self, next: State)
        ensures
            final(self).pending_spec() == Some(next),
            final(self).current_spec() == old(self).current_spec(),
    {
        self.pending = Some(next);
    }

    /// The commit point: the requested state, if any, becomes current and the
    /// request is cleared. A request for the current state changes nothing and
    /// yields no transition.
    pub fn commit(&mut self) -> (r: Option<Transition>)
        ensures
            final(self).pending_spec() is None,
            match old(self).pending_spec() {
                Some(next) if next != old(self).current_spec() => {
                    &&& final(self).current_spec() == next
                    &&& r == Some(Transition { from: old(self).current_spec(), to: next })
                },
                _ => {
                    &&& final(self).current_spec() == old(self).current_spec()
                    &&& r is None
                },
            },
    {
        let pending = self.pending;
        self.pending = None;
        match pending {
            Some(next) => {
                if next != self.current {
                    let from = self.current;
                    self.current = next;
                    Some(Transition { from, to: next })
                } else {
                    None
                }
            },
            None => None,
        }
    }
}

} // verus!
