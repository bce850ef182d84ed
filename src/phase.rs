//! The phases of the signal, their fixed waits and the order they follow.
use vstd::prelude::*;
use crate::lamps::{Effect, Lamps, LineOp};

verus! {

/// Wait between two toggles of a flashing lamp, in milliseconds.
pub const FLASH_MS: u32 = 500;

/// Wait with red alone, in milliseconds.
pub const STOP_MS: u32 = 20_000;

/// Wait with red and orange, in milliseconds.
pub const READY_MS: u32 = 3_000;

/// Wait with green alone, in milliseconds.
pub const GO_MS: u32 = 15_000;

/// Wait with orange alone before stopping again, in milliseconds.
pub const CAUTION_MS: u32 = READY_MS;

/// Toggles of orange in the start-up flash.
pub const BLINK_FLASHES: u8 = 10;

/// Toggles of green before the caution phase.
pub const GO_END_FLASHES: u8 = 5;

/// One step of the signal's cycle, carrying its wait in milliseconds.
#[derive(Clone, Copy, Debug, PartialEq, Eq, Structural)]
pub enum Phase {
    /// Start-up: orange flashes.
    Blinking(u32),
    /// Red alone.
    AllStop(u32),
    /// Red and orange: about to go.
    PrepareToGo(u32),
    /// Green alone.
    Go(u32),
    /// Green flashes: about to stop.
    GoEnding(u32),
    /// Orange alone, switched off again when the phase ends.
    Caution(u32),
}

impl Phase {
    /// The wait that the phase carries.
    pub open spec fn spec_wait_ms(&self) -> u32 {
        match *self {
            Phase::Blinking(d) => d,
            Phase::AllStop(d) => d,
            Phase::PrepareToGo(d) => d,
            Phase::Go(d) => d,
            Phase::GoEnding(d) => d,
            Phase::Caution(d) => d,
        }
    }

    #[verifier::when_used_as_spec(spec_wait_ms)]
    pub fn wait_ms(&self) -> (r: u32)
        ensures
            r == self.spec_wait_ms(),
    {
        match *self {
            Phase::Blinking(d) => d,
            Phase::AllStop(d) => d,
            Phase::PrepareToGo(d) => d,
            Phase::Go(d) => d,
            Phase::GoEnding(d) => d,
            Phase::Caution(d) => d,
        }
    }

    /// The phase carries the fixed wait of its kind.
    pub open spec fn has_fixed_wait(self) -> bool {
        match self {
            Phase::Blinking(d) => d == FLASH_MS,
            Phase::AllStop(d) => d == STOP_MS,
            Phase::PrepareToGo(d) => d == READY_MS,
            Phase::Go(d) => d == GO_MS,
            Phase::GoEnding(d) => d == FLASH_MS,
            Phase::Caution(d) => d == CAUTION_MS,
        }
    }

    /// One of the two phases that toggle a lamp on every tick.
    pub open spec fn is_flashing(self) -> bool {
        self is Blinking || self is GoEnding
    }

    /// Ticks the phase lasts before it ends: the toggle count of a flashing
    /// phase, one for every other phase.
    pub open spec fn spec_ticks(&self) -> u8 {
        match self {
            Phase::Blinking(_) => BLINK_FLASHES,
            Phase::GoEnding(_) => GO_END_FLASHES,
            _ => 1,
        }
    }

    #[verifier::when_used_as_spec(spec_ticks)]
    pub fn ticks(&self) -> (r: u8)
        ensures
            r == self.spec_ticks(),
    {
        match *self {
            Phase::Blinking(_) => BLINK_FLASHES,
            Phase::GoEnding(_) => GO_END_FLASHES,
            _ => 1,
        }
    }

    /// The phase entered when this one ends.
    pub open spec fn spec_successor(&self) -> Phase {
        match self {
            Phase::Blinking(_) => Phase::AllStop(STOP_MS),
            Phase::AllStop(_) => Phase::PrepareToGo(READY_MS),
            Phase::PrepareToGo(_) => Phase::Go(GO_MS),
            Phase::Go(_) => Phase::GoEnding(FLASH_MS),
            Phase::GoEnding(_) => Phase::Caution(CAUTION_MS),
            Phase::Caution(_) => Phase::AllStop(STOP_MS),
        }
    }

    #[verifier::when_used_as_spec(spec_successor)]
    pub fn successor(&self) -> (r: Phase)
        ensures
            r == self.spec_successor(),
    {
        match *self {
            Phase::Blinking(_) => Phase::AllStop(STOP_MS),
            Phase::AllStop(_) => Phase::PrepareToGo(READY_MS),
            Phase::PrepareToGo(_) => Phase::Go(GO_MS),
            Phase::Go(_) => Phase::GoEnding(FLASH_MS),
            Phase::GoEnding(_) => Phase::Caution(CAUTION_MS),
            Phase::Caution(_) => Phase::AllStop(STOP_MS),
        }
    }

    /// What the phase does to the lines at the start of each of its ticks.
    pub open spec fn spec_entry(&self) -> Effect {
        match self {
            Phase::Blinking(_) => Effect { red: LineOp::Keep, orange: LineOp::Toggle, green: LineOp::Keep },
            Phase::AllStop(_) => Effect { red: LineOp::High, orange: LineOp::Keep, green: LineOp::Keep },
            Phase::PrepareToGo(_) => Effect { red: LineOp::High, orange: LineOp::High, green: LineOp::Keep },
            Phase::Go(_) => Effect { red: LineOp::Low, orange: LineOp::Low, green: LineOp::High },
            Phase::GoEnding(_) => Effect { red: LineOp::Keep, orange: LineOp::Keep, green: LineOp::Toggle },
            Phase::Caution(_) => Effect { red: LineOp::Keep, orange: LineOp::High, green: LineOp::Keep },
        }
    }

    #[verifier::when_used_as_spec(spec_entry)]
    pub fn entry(&self) -> (r: Effect)
        ensures
            r == self.spec_entry(),
    {
        match *self {
            Phase::Blinking(_) => Effect { red: LineOp::Keep, orange: LineOp::Toggle, green: LineOp::Keep },
            Phase::AllStop(_) => Effect { red: LineOp::High, orange: LineOp::Keep, green: LineOp::Keep },
            Phase::PrepareToGo(_) => Effect { red: LineOp::High, orange: LineOp::High, green: LineOp::Keep },
            Phase::Go(_) => Effect { red: LineOp::Low, orange: LineOp::Low, green: LineOp::High },
            Phase::GoEnding(_) => Effect { red: LineOp::Keep, orange: LineOp::Keep, green: LineOp::Toggle },
            Phase::Caution(_) => Effect { red: LineOp::Keep, orange: LineOp::High, green: LineOp::Keep },
        }
    }

    /// What the phase does to the lines once its last wait is over.
    pub open spec fn spec_exit(&self) -> Effect {
        match self {
            Phase::Caution(_) => Effect { red: LineOp::Keep, orange: LineOp::Low, green: LineOp::Keep },
            _ => Effect::none(),
        }
    }

    #[verifier::when_used_as_spec(spec_exit)]
    pub fn exit(&self) -> (r: Effect)
        ensures
            r == self.spec_exit(),
    {
        match *self {
            Phase::Caution(_) => Effect { red: LineOp::Keep, orange: LineOp::Low, green: LineOp::Keep },
            _ => Effect::none(),
        }
    }

    /// The lamps lit while the phase waits, its `done`-th flash for a
    /// flashing phase (counted from zero): red alone to stop, red and orange
    /// to prepare, green alone to go, orange alone for caution; orange lit on
    /// every other start-up tick from the first, green dark on every other
    /// closing tick from the first.
    pub open spec fn lit(self, done: nat) -> Lamps {
        match self {
            Phase::Blinking(_) => Lamps { red: false, orange: done % 2 == 0, green: false },
            Phase::AllStop(_) => Lamps { red: true, orange: false, green: false },
            Phase::PrepareToGo(_) => Lamps { red: true, orange: true, green: false },
            Phase::Go(_) => Lamps { red: false, orange: false, green: true },
            Phase::GoEnding(_) => Lamps { red: false, orange: false, green: done % 2 == 1 },
            Phase::Caution(_) => Lamps { red: false, orange: true, green: false },
        }
    }

    /// The lamps before the `done`-th tick of the phase, as the phase before
    /// it (or start-up) left them.
    pub open spec fn resting(self, done: nat) -> Lamps {
        match self {
            Phase::Blinking(_) => Lamps { red: false, orange: done % 2 == 1, green: false },
            Phase::AllStop(_) => Lamps::dark(),
            Phase::PrepareToGo(_) => Lamps { red: true, orange: false, green: false },
            Phase::Go(_) => Lamps { red: true, orange: true, green: false },
            Phase::GoEnding(_) => Lamps { red: false, orange: false, green: done % 2 == 0 },
            Phase::Caution(_) => Lamps::dark(),
        }
    }
}

} // verus!
