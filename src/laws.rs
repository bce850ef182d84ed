//! What holds of every run of the controller.
use vstd::prelude::*;
use crate::controller::Controller;
use crate::lamps::Lamps;
use crate::phase::{Phase, CAUTION_MS, FLASH_MS, GO_END_FLASHES, GO_MS, READY_MS, STOP_MS};

verus! {

/// Ticks in one turn of the steady cycle: stop, prepare, go, the closing
/// green flashes, caution.
pub open spec fn cycle_ticks() -> nat {
    4 + GO_END_FLASHES as nat
}

/// The phase of the `i`-th tick of a turn of the steady cycle.
pub open spec fn cycle_phase(i: nat) -> Phase {
    if i == 0 {
        Phase::AllStop(STOP_MS)
    } else if i == 1 {
        Phase::PrepareToGo(READY_MS)
    } else if i == 2 {
        Phase::Go(GO_MS)
    } else if i < 3 + GO_END_FLASHES as nat {
        Phase::GoEnding(FLASH_MS)
    } else {
        Phase::Caution(CAUTION_MS)
    }
}

/// A tick keeps the controller well formed.
pub proof fn lemma_next_wf(c: Controller)
    requires
        c.wf(),
    ensures
        c.next().wf(),
{
}

/// Whatever the phase, the entry operations applied to the lines a
/// well-formed controller has left give exactly the lamps of the signal
/// table: red alone to stop, red and orange to prepare, green alone to go,
/// orange alone for caution, and in the flashing phases only the flashing
/// lamp changes.
pub proof fn lemma_entry_gives_table(c: Controller)
    requires
        c.wf(),
    ensures
        c.lamps.after(c.phase.entry()) == c.phase.lit(c.flashes as nat),
        c.phase is AllStop ==> c.phase.lit(c.flashes as nat) == (Lamps { red: true, orange: false, green: false }),
        c.phase is PrepareToGo ==> c.phase.lit(c.flashes as nat) == (Lamps { red: true, orange: true, green: false }),
        c.phase is Go ==> c.phase.lit(c.flashes as nat) == (Lamps { red: false, orange: false, green: true }),
        c.phase is Caution ==> c.phase.lit(c.flashes as nat) == (Lamps { red: false, orange: true, green: false }),
        c.phase is Blinking ==> c.lamps.after(c.phase.entry()) == (Lamps { orange: !c.lamps.orange, ..c.lamps }),
        c.phase is GoEnding ==> c.lamps.after(c.phase.entry()) == (Lamps { green: !c.lamps.green, ..c.lamps }),
{
}

/// One more tick is one more step from the state reached so far.
pub proof fn lemma_run_next(c: Controller, n: nat)
    ensures
        c.run(n + 1) == c.run(n).next(),
    decreases n,
{
    assert(c.run(n + 1) == c.next().run(n));
    if n > 0 {
        lemma_run_next(c.next(), (n - 1) as nat);
        assert(c.run(n) == c.next().run((n - 1) as nat));
    } else {
        assert(c.next().run(0) == c.next());
    }
}

/// The wait over one more tick adds the wait of the phase then current.
pub proof fn lemma_elapsed_next(c: Controller, n: nat)
    ensures
        c.elapsed_ms(n + 1) == c.elapsed_ms(n) + c.run(n).phase.wait_ms(),
    decreases n,
{
    assert(c.elapsed_ms(n + 1) == c.phase.wait_ms() + c.next().elapsed_ms(n));
    if n > 0 {
        lemma_elapsed_next(c.next(), (n - 1) as nat);
        assert(c.run(n) == c.next().run((n - 1) as nat));
        assert(c.elapsed_ms(n) == c.phase.wait_ms() + c.next().elapsed_ms((n - 1) as nat));
    } else {
        assert(c.next().elapsed_ms(0) == 0);
    }
}

/// Ticks that stay inside the phase only advance the flash count.
pub proof fn lemma_within_phase(c: Controller, k: nat)
    requires
        c.wf(),
        c.flashes + k < c.phase.ticks(),
    ensures
        c.run(k) == (Controller {
            phase: c.phase,
            flashes: (c.flashes + k) as u8,
            lamps: c.phase.resting((c.flashes + k) as nat),
        }),
    decreases k,
{
    if k > 0 {
        lemma_within_phase(c.next(), (k - 1) as nat);
    }
}

/// A flashing phase entered with a zero count is still current after one
/// tick fewer than its toggle count (ten for the start-up flash, five for the
/// closing green), and has given way to its successor, count reset, after
/// exactly that many.
pub proof fn lemma_flash_exit(c: Controller)
    requires
        c.wf(),
        c.phase.is_flashing(),
        c.flashes == 0,
    ensures
        forall|k: nat| k < c.phase.ticks() ==> (#[trigger] c.run(k)).phase == c.phase,
        c.run(c.phase.ticks() as nat).phase == c.phase.successor(),
        c.run(c.phase.ticks() as nat).flashes == 0,
        c.phase is Blinking ==> c.phase.ticks() == 10,
        c.phase is GoEnding ==> c.phase.ticks() == 5,
{
    assert forall|k: nat| k < c.phase.ticks() implies (#[trigger] c.run(k)).phase == c.phase by {
        lemma_within_phase(c, k);
    }
    let last = (c.phase.ticks() - 1) as nat;
    lemma_within_phase(c, last);
    lemma_run_next(c, last);
}

/// From stop, the steady cycle visits stop, prepare, go, the closing
/// flashes and caution, one phase after another with nothing skipped, and
/// then stands exactly where it started.
pub proof fn lemma_cycle_is_periodic(c: Controller)
    requires
        c.wf(),
        c.phase is AllStop,
    ensures
        forall|i: nat| i < cycle_ticks() ==> (#[trigger] c.run(i)).phase == cycle_phase(i),
        c.run(cycle_ticks()) == c,
{
    lemma_cycle_steps(c);
}

/// The states of one turn of the steady cycle, tick by tick.
proof fn lemma_cycle_steps(c: Controller)
    requires
        c.wf(),
        c.phase is AllStop,
    ensures
        forall|i: nat| i < cycle_ticks() ==> (#[trigger] c.run(i)).wf() && c.run(i).phase == cycle_phase(i),
        c.run(cycle_ticks()) == c,
{
    let go_end = c.run(3);
    assert(c.run(0) == c);
    lemma_run_next(c, 0);
    lemma_run_next(c, 1);
    lemma_run_next(c, 2);
    lemma_next_wf(c);
    lemma_next_wf(c.run(1));
    lemma_next_wf(c.run(2));
    assert(go_end.phase == Phase::GoEnding(FLASH_MS) && go_end.flashes == 0);
    assert forall|i: nat| 3 <= i < 3 + GO_END_FLASHES as nat implies (#[trigger] c.run(i)).wf()
        && c.run(i).phase == cycle_phase(i) by {
        lemma_within_phase(go_end, (i - 3) as nat);
        lemma_run_add(c, 3, (i - 3) as nat);
    }
    lemma_within_phase(go_end, 4);
    lemma_run_add(c, 3, 4);
    lemma_run_next(c, 7);
    lemma_next_wf(c.run(7));
    lemma_run_next(c, 8);
    assert forall|i: nat| i < cycle_ticks() implies (#[trigger] c.run(i)).wf() && c.run(i).phase == cycle_phase(i) by {
        if 3 <= i && i < 8 {
            assert(3 <= i < 3 + GO_END_FLASHES as nat);
        }
    }
}

/// Running `a` ticks and then `b` is running `a + b`.
pub proof fn lemma_run_add(c: Controller, a: nat, b: nat)
    ensures
        c.run(a + b) == c.run(a).run(b),
    decreases a,
{
    if a > 0 {
        lemma_run_add(c.next(), (a - 1) as nat, b);
    }
}

/// One turn of the steady cycle always lasts the same: stop, prepare and
/// go waits, five flash waits and the caution wait, 43.5 seconds in all.
pub proof fn lemma_cycle_duration(c: Controller)
    requires
        c.wf(),
        c.phase is AllStop,
    ensures
        c.elapsed_ms(cycle_ticks()) == STOP_MS + READY_MS + GO_MS + GO_END_FLASHES * FLASH_MS + CAUTION_MS,
        c.elapsed_ms(cycle_ticks()) == 43_500,
{
    lemma_cycle_steps(c);
    assert(c.elapsed_ms(0) == 0);
    lemma_elapsed_next(c, 0);
    lemma_elapsed_next(c, 1);
    lemma_elapsed_next(c, 2);
    lemma_elapsed_next(c, 3);
    lemma_elapsed_next(c, 4);
    lemma_elapsed_next(c, 5);
    lemma_elapsed_next(c, 6);
    lemma_elapsed_next(c, 7);
    lemma_elapsed_next(c, 8);
    assert(c.run(0).phase == cycle_phase(0));
    assert(c.run(1).phase == cycle_phase(1));
    assert(c.run(2).phase == cycle_phase(2));
    assert(c.run(3).phase == cycle_phase(3));
    assert(c.run(4).phase == cycle_phase(4));
    assert(c.run(5).phase == cycle_phase(5));
    assert(c.run(6).phase == cycle_phase(6));
    assert(c.run(7).phase == cycle_phase(7));
    assert(c.run(8).phase == cycle_phase(8));
}

} // verus!
