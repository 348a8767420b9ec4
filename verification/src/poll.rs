//! The poll loop's state machine: Idle (sleeping until the next tick) and
//! Polling (one fetch-dispatch-persist cycle in flight). The caller runs
//! the timer and the network work; the transitions and the cursor handoff
//! are decided here.

use vstd::prelude::*;

use crate::config::Config;

verus! {

/// The loop's phase: sleeping, or running one cycle.
#[derive(Clone, Copy, Debug, PartialEq, Eq, Structural)]
pub enum PollState {
    Idle,
    Polling,
}

/// The loop's state across cycles: its phase and the cursor it owns.
pub struct PollLoop {
    pub state: PollState,
    pub cursor: String,
}

impl PollLoop {
    /// A loop starting idle with the cursor read at startup.
    pub fn new(cursor: &str) -> (p: PollLoop)
        ensures
            p.state == PollState::Idle,
            p.cursor@ == cursor@,
    {
        PollLoop { state: PollState::Idle, cursor: cursor.to_owned() }
    }

    /// Timer expiry: the loop leaves Idle and starts one cycle. The cursor
    /// is untouched.
    pub fn start_cycle(&mut self)
        requires
            old(self).state == PollState::Idle,
        ensures
            final(self).state == PollState::Polling,
            final(self).cursor == old(self).cursor,
    {
        self.state = PollState::Polling;
    }

    /// Cycle completion: the loop returns to Idle unconditionally. When the
    /// cycle produced a new cursor it replaces the owned one and is handed
    /// back for persistence; otherwise nothing must be persisted, so that a
    /// cycle that saw nothing new cannot overwrite a valid cursor.
    pub fn finish_cycle(&mut self, new_cursor: Option<String>) -> (persist: Option<Config>)
        requires
            old(self).state == PollState::Polling,
        ensures
            final(self).state == PollState::Idle,
            match new_cursor {
                Some(c) => {
                    &&& final(self).cursor@ == c@
                    &&& persist is Some
                    &&& persist.unwrap().last_id@ == c@
                },
                None => final(self).cursor == old(self).cursor && persist is None,
            },
    {
        self.state = PollState::Idle;
        match new_cursor {
            Some(c) => {
                let config = Config::new(c.as_str());
                self.cursor = c;
                Some(config)
            },
            None => None,
        }
    }
}

} // verus!
