//! The controller: the current phase, its flash count and the lamps it has
//! driven, advanced one tick at a time.
use vstd::prelude::*;
use crate::lamps::{Effect, Lamps};
use crate::phase::{Phase, FLASH_MS};

verus! {

/// The signal's state between two ticks.
///
/// `flashes` counts the ticks already spent in a flashing phase and is zero
/// in every other phase; `lamps` are the levels the lines were left at.
#[derive(Clone, Copy, Debug, PartialEq, Eq, Structural)]
pub struct Controller {
    pub phase: Phase,
    pub flashes: u8,
    pub lamps: Lamps,
}

/// What one tick asks of the driver, in order: apply `entry` to the lines
/// (which then show `lit`), wait `wait_ms` milliseconds, apply `exit`.
#[derive(Clone, Copy, Debug, PartialEq, Eq, Structural)]
pub struct Step {
    pub entry: Effect,
    pub lit: Lamps,
    pub wait_ms: u32,
    pub exit: Effect,
}

impl Controller {
    /// The phase carries its fixed wait, the flash count is below the
    /// phase's tick count (so zero outside the flashing phases), and the
    /// lines are where the ticks so far have left them.
    pub open spec fn wf(self) -> bool {
        &&& self.phase.has_fixed_wait()
        &&& self.flashes < self.phase.ticks()
        &&& self.lamps == self.phase.resting(self.flashes as nat)
    }

    /// The state right after start-up: flashing orange from zero, all dark.
    pub open spec fn start() -> Controller {
        Controller { phase: Phase::Blinking(FLASH_MS), flashes: 0, lamps: Lamps::dark() }
    }

    /// The coming tick is the phase's last.
    pub open spec fn ends_now(self) -> bool {
        self.flashes + 1 >= self.phase.ticks()
    }

    /// The state after one tick.
    pub open spec fn next(self) -> Controller {
        let lit = self.lamps.after(self.phase.entry());
        if self.ends_now() {
            Controller { phase: self.phase.successor(), flashes: 0, lamps: lit.after(self.phase.exit()) }
        } else {
            Controller { phase: self.phase, flashes: (self.flashes + 1) as u8, lamps: lit }
        }
    }

    /// What the coming tick asks of the driver.
    pub open spec fn coming_step(self) -> Step {
        Step {
            entry: self.phase.entry(),
            lit: self.lamps.after(self.phase.entry()),
            wait_ms: self.phase.wait_ms(),
            exit: if self.ends_now() { self.phase.exit() } else { Effect::none() },
        }
    }

    /// The state after `n` ticks.
    pub open spec fn run(self, n: nat) -> Controller
        decreases n,
    {
        if n == 0 {
            self
        } else {
            self.next().run((n - 1) as nat)
        }
    }

    /// Milliseconds waited over the next `n` ticks.
    pub open spec fn elapsed_ms(self, n: nat) -> nat
        decreases n,
    {
        if n == 0 {
            0
        } else {
            self.phase.wait_ms() as nat + self.next().elapsed_ms((n - 1) as nat)
        }
    }

    /// A controller in its start-up state.
    pub fn new() -> (r: Controller)
        ensures
            r == Controller::start(),
            r.wf(),
    {
        Controller { phase: Phase::Blinking(FLASH_MS), flashes: 0, lamps: Lamps::dark() }
    }

    /// Returns to the start-up state from any state, and gives the operations
    /// that darken all three lines.
    pub fn initialize(&mut self) -> (e: Effect)
        ensures
            *final(self) == Controller::start(),
            final(self).wf(),
            e == Effect::all_low(),
            final(self).lamps == old(self).lamps.after(e),
    {
        *self = Controller::new();
        Effect::all_low()
    }

    /// Runs one tick: gives the driver its operations and wait, and moves to
    /// the next state (the same flashing phase one toggle on, or the phase's
    /// successor with the flash count reset).
    pub fn tick(&mut self) -> (s: Step)
        requires
            old(self).wf(),
        ensures
            *final(self) == old(self).next(),
            final(self).wf(),
            s == old(self).coming_step(),
            s.lit == old(self).phase.lit(old(self).flashes as nat),
            final(self).lamps == s.lit.after(s.exit),
    {
        let entry = self.phase.entry();
        let lit = self.lamps.after(entry);
        let wait_ms = self.phase.wait_ms();
        if self.flashes + 1 >= self.phase.ticks() {
            let exit = self.phase.exit();
            self.lamps = lit.after(exit);
            self.phase = self.phase.successor();
            self.flashes = 0;
            Step { entry, lit, wait_ms, exit }
        } else {
            self.flashes = self.flashes + 1;
            self.lamps = lit;
            Step { entry, lit, wait_ms, exit: Effect::none() }
        }
    }
}

} // verus!
