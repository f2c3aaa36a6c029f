//! The two shortcut keys: what each poll of the keyboard leads to.

use vstd::prelude::*;

verus! {

/// The time between two polls of the keyboard, in milliseconds.
pub const POLL_INTERVAL_MS: u64 = 20;

/// The address that the home key leads back to.
pub const HOME_ADDRESS: &'static str = "http://localhost:1420/";

/// Whether a key was down at the last poll.
#[derive(Clone, Copy, Debug, PartialEq, Eq, Structural)]
pub enum KeyState {
    Released,
    Pressed,
}

impl KeyState {
    /// The state after a poll that saw the key down or up.
    pub open spec fn after(self, down: bool) -> KeyState {
        if down {
            KeyState::Pressed
        } else {
            KeyState::Released
        }
    }

    /// Whether a poll fires the key's action: only on the rising edge, when
    /// a key that was released is seen down.
    pub open spec fn fires(self, down: bool) -> bool {
        self == KeyState::Released && down
    }

    /// Takes one poll of the key: the next state, and whether the key's
    /// action fires.
    pub fn step(self, down: bool) -> (next: (KeyState, bool))
        ensures
            next.0 == self.after(down),
            next.1 == self.fires(down),
    {
        let fired = match self {
            KeyState::Released => down,
            KeyState::Pressed => false,
        };
        let state = if down {
            KeyState::Pressed
        } else {
            KeyState::Released
        };
        (state, fired)
    }
}

/// A signal sent to the user interface, without payload.
#[derive(Clone, Copy, Debug, PartialEq, Eq, Structural)]
pub enum Signal {
    Fullscreen,
    Home,
}

impl Signal {
    /// The name under which the signal is sent.
    pub open spec fn text(self) -> Seq<char> {
        match self {
            Signal::Fullscreen => "fullscreen"@,
            Signal::Home => "home"@,
        }
    }

    /// The name under which the signal is sent.
    pub fn name(&self) -> (name: &'static str)
        ensures
            name@ == self.text(),
    {
        match self {
            Signal::Fullscreen => "fullscreen",
            Signal::Home => "home",
        }
    }
}

/// What one poll saw: whether each key was down.
#[derive(Clone, Copy, Debug, PartialEq, Eq, Structural)]
pub struct Poll {
    pub fullscreen_down: bool,
    pub home_down: bool,
}

/// What a poll asks of the window.
#[derive(Clone, Copy, Debug, PartialEq, Eq, Structural)]
pub struct Actions {
    /// Toggle fullscreen and send `Signal::Fullscreen`.
    pub toggle_fullscreen: bool,
    /// Go to `HOME_ADDRESS` and send `Signal::Home`.
    pub go_home: bool,
}

/// The state of both keys between polls.
#[derive(Clone, Copy, Debug, PartialEq, Eq, Structural)]
pub struct Keys {
    pub fullscreen: KeyState,
    pub home: KeyState,
}

impl Keys {
    /// Both keys after a poll.
    pub open spec fn after(self, poll: Poll) -> Keys {
        Keys {
            fullscreen: self.fullscreen.after(poll.fullscreen_down),
            home: self.home.after(poll.home_down),
        }
    }

    /// What a poll asks for: each key on its own rising edge.
    pub open spec fn actions(self, poll: Poll) -> Actions {
        Actions {
            toggle_fullscreen: self.fullscreen.fires(poll.fullscreen_down),
            go_home: self.home.fires(poll.home_down),
        }
    }

    /// The state before the first poll: both keys released.
    pub fn new() -> (keys: Keys)
        ensures
            keys == (Keys { fullscreen: KeyState::Released, home: KeyState::Released }),
    {
        Keys { fullscreen: KeyState::Released, home: KeyState::Released }
    }

    /// Takes one poll of the keyboard: the next state, and what to do now.
    pub fn step(self, poll: Poll) -> (next: (Keys, Actions))
        ensures
            next.0 == self.after(poll),
            next.1 == self.actions(poll),
    {
        let (fullscreen, toggle_fullscreen) = self.fullscreen.step(poll.fullscreen_down);
        let (home, go_home) = self.home.step(poll.home_down);
        (Keys { fullscreen, home }, Actions { toggle_fullscreen, go_home })
    }

    /// How many of a run of polls ask to toggle fullscreen.
    pub open spec fn toggles(self, polls: Seq<Poll>) -> nat
        decreases polls.len(),
    {
        if polls.len() == 0 {
            0
        } else {
            let now: nat = if self.actions(polls[0]).toggle_fullscreen {
                1
            } else {
                0
            };
            now + self.after(polls[0]).toggles(polls.skip(1))
        }
    }

    /// How many of a run of polls ask to go home.
    pub open spec fn homings(self, polls: Seq<Poll>) -> nat
        decreases polls.len(),
    {
        if polls.len() == 0 {
            0
        } else {
            let now: nat = if self.actions(polls[0]).go_home {
                1
            } else {
                0
            };
            now + self.after(polls[0]).homings(polls.skip(1))
        }
    }
}

/// The fullscreen state to set when the key fires: the opposite of the
/// current one. A window that cannot tell its state is taken out of
/// fullscreen.
pub fn fullscreen_target(current: Option<bool>) -> (target: bool)
    ensures
        target == match current {
            Some(fullscreen) => !fullscreen,
            None => false,
        },
{
    match current {
        Some(fullscreen) => !fullscreen,
        None => false,
    }
}

/// While the fullscreen key stays down, no further poll asks for a toggle.
pub proof fn lemma_held_fullscreen_is_silent(keys: Keys, polls: Seq<Poll>)
    requires
        keys.fullscreen == KeyState::Pressed,
        forall|i: int| 0 <= i < polls.len() ==> polls[i].fullscreen_down,
    ensures
        keys.toggles(polls) == 0,
    decreases polls.len(),
{
    if polls.len() > 0 {
        lemma_held_fullscreen_is_silent(keys.after(polls[0]), polls.skip(1));
    }
}

/// A fullscreen key that goes down and stays down over any number of polls
/// toggles fullscreen exactly once, at the first of them, whatever the home
/// key does meanwhile.
pub proof fn lemma_held_fullscreen_toggles_once(keys: Keys, polls: Seq<Poll>)
    requires
        keys.fullscreen == KeyState::Released,
        polls.len() > 0,
        forall|i: int| 0 <= i < polls.len() ==> polls[i].fullscreen_down,
    ensures
        keys.actions(polls[0]).toggle_fullscreen,
        keys.toggles(polls) == 1,
{
    lemma_held_fullscreen_is_silent(keys.after(polls[0]), polls.skip(1));
}

/// While the home key stays down, no further poll asks to go home.
pub proof fn lemma_held_home_is_silent(keys: Keys, polls: Seq<Poll>)
    requires
        keys.home == KeyState::Pressed,
        forall|i: int| 0 <= i < polls.len() ==> polls[i].home_down,
    ensures
        keys.homings(polls) == 0,
    decreases polls.len(),
{
    if polls.len() > 0 {
        lemma_held_home_is_silent(keys.after(polls[0]), polls.skip(1));
    }
}

/// A home key that goes down and stays down leads home exactly once, at the
/// first poll.
pub proof fn lemma_held_home_leads_home_once(keys: Keys, polls: Seq<Poll>)
    requires
        keys.home == KeyState::Released,
        polls.len() > 0,
        forall|i: int| 0 <= i < polls.len() ==> polls[i].home_down,
    ensures
        keys.actions(polls[0]).go_home,
        keys.homings(polls) == 1,
{
    lemma_held_home_is_silent(keys.after(polls[0]), polls.skip(1));
}

} // verus!
