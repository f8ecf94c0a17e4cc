//! Game logic for a two-player arcade game of tag: one player (the tagger)
//! shoots, the other (the runner) dashes; a bullet hit swaps the roles, orb
//! pickups reverse a player's velocity, and a countdown decides the winner.
//!
//! All quantities are fixed-point integers so that every rule can be stated
//! and proved exactly:
//! - lengths and positions in millipixels,
//! - durations in milliseconds,
//! - speeds in millipixels per second,
//! - angles in microradians,
//! - direction components in thousandths of a unit vector.
//!
//! The host engine (rendering, physics contact detection, audio, UI) sits
//! outside this crate; it hands the systems here plain values (pressed keys,
//! elapsed time, contact pairs) and applies the values they return.
use vstd::prelude::*;

pub mod bullet;
pub mod controlls;
pub mod game;
pub mod menu;
pub mod orb;
pub mod player;
pub mod random;
pub mod timer;
pub mod units;

verus! {

/// The screens of the application, driven by a stack: entering a screen
/// pushes it, so that the one below resumes when it is popped.
#[derive(Debug, Clone, Copy, PartialEq, Eq, Hash, Structural)]
pub enum GameState {
    MainMenu,
    ControllsMenu,
    Game,
}

/// The name of the player that won the round.
pub struct Winner(pub String);

/// The application's state stack. The active screen is the top of the stack;
/// pushing a new screen pauses the one below it.
pub struct AppState {
    pub stack: Vec<GameState>,
}

impl AppState {
    /// The stack is never empty: there is always an active screen.
    pub open spec fn wf(&self) -> bool {
        self.stack@.len() >= 1
    }

    pub open spec fn view(&self) -> Seq<GameState> {
        self.stack@
    }

    pub open spec fn spec_current(&self) -> GameState {
        self.stack@.last()
    }

    pub fn new(initial: GameState) -> (s: AppState)
        ensures
            s.wf(),
            s@ == seq![initial],
            s.spec_current() == initial,
    {
        let mut stack: Vec<GameState> = Vec::new();
        stack.push(initial);
        AppState { stack }
    }

    /// The active screen.
    pub fn current(&self) -> (r: GameState)
        requires
            self.wf(),
        ensures
            r == self.spec_current(),
    {
        self.stack[self.stack.len() - 1]
    }

    /// Pause the active screen and enter `next` on top of it. The engine
    /// refuses a transition into the screen that is already active, so a
    /// caller must not ask for one.
    pub fn push(&mut self, next: GameState)
        requires
            old(self).wf(),
            next != old(self).spec_current(),
        ensures
            final(self).wf(),
            final(self)@ == old(self)@.push(next),
            final(self).spec_current() == next,
    {
        self.stack.push(next);
    }
}

} // verus!
