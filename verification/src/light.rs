//! The light: the single on/off value that the output pin follows.

use vstd::prelude::*;

verus! {

/// The state of the light. A device boots with the light off.
#[derive(Clone, Copy, Debug, PartialEq, Eq, Structural, Hash)]
pub enum LightState {
    Off,
    On,
}

/// The level to drive on the output pin.
#[derive(Clone, Copy, Debug, PartialEq, Eq, Structural, Hash)]
pub enum PinLevel {
    Low,
    High,
}

impl LightState {
    /// The other state.
    pub open spec fn toggled(self) -> LightState {
        match self {
            LightState::Off => LightState::On,
            LightState::On => LightState::Off,
        }
    }

    /// The state reached from `self` by `n` toggles in a row.
    pub open spec fn after_toggles(self, n: nat) -> LightState
        decreases n,
    {
        if n == 0 {
            self
        } else {
            self.after_toggles((n - 1) as nat).toggled()
        }
    }

    /// The pin level that shows this state: high when on, low when off.
    pub open spec fn pin(self) -> PinLevel {
        match self {
            LightState::Off => PinLevel::Low,
            LightState::On => PinLevel::High,
        }
    }

    /// The word the status page prints for this state.
    pub open spec fn word(self) -> Seq<char> {
        match self {
            LightState::Off => "OFF"@,
            LightState::On => "ON"@,
        }
    }

    /// The state at boot: off.
    pub fn new() -> (state: LightState)
        ensures
            state == LightState::Off,
    {
        LightState::Off
    }

    /// Reads the state.
    pub fn read(&self) -> (state: LightState)
        ensures
            state == *self,
    {
        *self
    }

    /// Whether the light is on.
    pub fn is_on(&self) -> (on: bool)
        ensures
            on == (*self == LightState::On),
    {
        match self {
            LightState::On => true,
            LightState::Off => false,
        }
    }

    /// Flips the state, whatever it was.
    pub fn toggle(&mut self)
        ensures
            *final(self) == old(self).toggled(),
    {
        let next = match *self {
            LightState::Off => LightState::On,
            LightState::On => LightState::Off,
        };
        *self = next;
    }

    /// Overwrites the state.
    pub fn set(&mut self, state: LightState)
        ensures
            *final(self) == state,
    {
        *self = state;
    }

    /// The level to put on the output pin for this state.
    pub fn level(&self) -> (level: PinLevel)
        ensures
            level == self.pin(),
    {
        match self {
            LightState::Off => PinLevel::Low,
            LightState::On => PinLevel::High,
        }
    }

    /// The word the status page prints for this state.
    pub fn label(&self) -> (text: &'static str)
        ensures
            text@ == self.word(),
    {
        match self {
            LightState::Off => "OFF",
            LightState::On => "ON",
        }
    }
}

impl Default for LightState {
    fn default() -> (state: LightState)
        ensures
            state == LightState::Off,
    {
        LightState::Off
    }
}

/// Toggling twice gives the state back.
pub proof fn lemma_toggle_twice(state: LightState)
    ensures
        state.toggled().toggled() == state,
{
}

/// After `n` toggles a light that started off is on if `n` is odd and off
/// if `n` is even.
pub proof fn lemma_toggle_parity(n: nat)
    ensures
        LightState::Off.after_toggles(n) == if n % 2 == 1 {
            LightState::On
        } else {
            LightState::Off
        },
    decreases n,
{
    if n > 0 {
        lemma_toggle_parity((n - 1) as nat);
    }
}

/// From any start, `n` toggles change the state exactly when `n` is odd.
pub proof fn lemma_toggles_from(state: LightState, n: nat)
    ensures
        state.after_toggles(n) == if n % 2 == 1 {
            state.toggled()
        } else {
            state
        },
    decreases n,
{
    if n > 0 {
        lemma_toggles_from(state, (n - 1) as nat);
    }
}

} // verus!
