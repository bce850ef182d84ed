use traffic_signal::controller::{Controller, Step};
use traffic_signal::lamps::{Effect, Lamps, LineOp};
use traffic_signal::phase::{Phase, CAUTION_MS, FLASH_MS, GO_MS, READY_MS, STOP_MS};

fn lamps(red: bool, orange: bool, green: bool) -> Lamps {
    Lamps { red, orange, green }
}

/// Ticks a fresh controller until it first reaches `target`.
fn reach(target: Phase) -> Controller {
    let mut c = Controller::new();
    for _ in 0..100 {
        if c.phase == target {
            return c;
        }
        c.tick();
    }
    panic!("phase never reached");
}

#[test]
fn startup_flash_ends_in_all_stop() {
    let mut c = Controller::new();
    let mut waited: u32 = 0;
    for i in 0..10u32 {
        assert_eq!(c.phase, Phase::Blinking(FLASH_MS));
        let s = c.tick();
        assert_eq!(s.lit, lamps(false, i % 2 == 0, false));
        waited += s.wait_ms;
    }
    assert_eq!(waited, 5_000);
    assert_eq!(c.phase, Phase::AllStop(STOP_MS));
    assert_eq!(c.flashes, 0);
    let s = c.tick();
    assert_eq!(s.lit, lamps(true, false, false));
    assert_eq!(s.wait_ms, 20_000);
}

#[test]
fn all_stop_leads_to_prepare_to_go() {
    let mut c = reach(Phase::AllStop(STOP_MS));
    let s = c.tick();
    assert_eq!(s.wait_ms, 20_000);
    assert_eq!(c.phase, Phase::PrepareToGo(READY_MS));
    let s = c.tick();
    assert_eq!(s.lit, lamps(true, true, false));
    assert_eq!(s.wait_ms, 3_000);
}

#[test]
fn caution_forces_orange_off_then_all_stop() {
    let mut c = reach(Phase::Caution(CAUTION_MS));
    let s = c.tick();
    assert_eq!(s.entry, Effect { red: LineOp::Keep, orange: LineOp::High, green: LineOp::Keep });
    assert_eq!(s.lit, lamps(false, true, false));
    assert_eq!(s.wait_ms, 3_000);
    assert_eq!(s.exit, Effect { red: LineOp::Keep, orange: LineOp::Low, green: LineOp::Keep });
    assert_eq!(c.lamps, lamps(false, false, false));
    assert_eq!(c.phase, Phase::AllStop(STOP_MS));
    let s = c.tick();
    assert_eq!(s.lit, lamps(true, false, false));
}

#[test]
fn lit_lamps_follow_the_table() {
    let mut c = reach(Phase::AllStop(STOP_MS));
    let expected = [
        lamps(true, false, false),
        lamps(true, true, false),
        lamps(false, false, true),
        lamps(false, false, false),
        lamps(false, false, true),
        lamps(false, false, false),
        lamps(false, false, true),
        lamps(false, false, false),
        lamps(false, true, false),
    ];
    for want in expected {
        let s = c.tick();
        assert_eq!(s.lit, want);
    }
}

#[test]
fn go_ending_exits_after_five_toggles() {
    let mut c = reach(Phase::GoEnding(FLASH_MS));
    assert_eq!(c.flashes, 0);
    for i in 0..4u8 {
        let s = c.tick();
        assert_eq!(s.entry.green, LineOp::Toggle);
        assert_eq!(s.exit, Effect::none());
        assert_eq!(c.phase, Phase::GoEnding(FLASH_MS));
        assert_eq!(c.flashes, i + 1);
    }
    c.tick();
    assert_eq!(c.phase, Phase::Caution(CAUTION_MS));
    assert_eq!(c.flashes, 0);
    assert!(!c.lamps.green);
}

#[test]
fn blinking_stays_for_nine_ticks() {
    let mut c = Controller::new();
    for _ in 0..9 {
        c.tick();
    }
    assert_eq!(c.phase, Phase::Blinking(FLASH_MS));
    assert_eq!(c.flashes, 9);
    assert!(c.lamps.orange);
    c.tick();
    assert_eq!(c.phase, Phase::AllStop(STOP_MS));
    assert!(!c.lamps.orange);
}

#[test]
fn steady_cycle_is_periodic() {
    let start = reach(Phase::AllStop(STOP_MS));
    let mut c = start;
    let order = [
        Phase::AllStop(STOP_MS),
        Phase::PrepareToGo(READY_MS),
        Phase::Go(GO_MS),
        Phase::GoEnding(FLASH_MS),
        Phase::GoEnding(FLASH_MS),
        Phase::GoEnding(FLASH_MS),
        Phase::GoEnding(FLASH_MS),
        Phase::GoEnding(FLASH_MS),
        Phase::Caution(CAUTION_MS),
    ];
    for round in 0..3 {
        for p in order {
            assert_eq!(c.phase, p, "round {}", round);
            c.tick();
        }
        assert_eq!(c, start);
    }
}

#[test]
fn steady_cycle_lasts_forty_three_and_a_half_seconds() {
    let mut c = reach(Phase::AllStop(STOP_MS));
    let mut total: u32 = 0;
    for _ in 0..9 {
        let s: Step = c.tick();
        total += s.wait_ms;
    }
    assert_eq!(total, 43_500);
    assert_eq!(total, STOP_MS + READY_MS + GO_MS + 5 * FLASH_MS + CAUTION_MS);
}

#[test]
fn initialize_restarts_from_any_phase() {
    let fresh = Controller::new();
    let mut c = Controller::new();
    for _ in 0..40 {
        let mut again = c;
        let e = again.initialize();
        assert_eq!(e, Effect::all_low());
        assert_eq!(again, fresh);
        assert_eq!(again.phase, Phase::Blinking(FLASH_MS));
        assert_eq!(again.flashes, 0);
        assert_eq!(again.lamps, lamps(false, false, false));
        c.tick();
    }
}

#[test]
fn line_operations() {
    assert!(LineOp::Keep.apply(true));
    assert!(!LineOp::Keep.apply(false));
    assert!(LineOp::High.apply(false));
    assert!(!LineOp::Low.apply(true));
    assert!(LineOp::Toggle.apply(false));
    assert!(!LineOp::Toggle.apply(true));
    let l = lamps(true, false, true).after(Effect { red: LineOp::Toggle, orange: LineOp::High, green: LineOp::Keep });
    assert_eq!(l, lamps(false, true, true));
    assert_eq!(lamps(true, true, true).after(Effect::all_low()), Lamps::dark());
    assert_eq!(lamps(true, false, true).after(Effect::none()), lamps(true, false, true));
}

#[test]
fn phase_table() {
    assert_eq!(Phase::Blinking(FLASH_MS).successor(), Phase::AllStop(20_000));
    assert_eq!(Phase::AllStop(STOP_MS).successor(), Phase::PrepareToGo(3_000));
    assert_eq!(Phase::PrepareToGo(READY_MS).successor(), Phase::Go(15_000));
    assert_eq!(Phase::Go(GO_MS).successor(), Phase::GoEnding(500));
    assert_eq!(Phase::GoEnding(FLASH_MS).successor(), Phase::Caution(3_000));
    assert_eq!(Phase::Caution(CAUTION_MS).successor(), Phase::AllStop(20_000));
    assert_eq!(Phase::Blinking(FLASH_MS).ticks(), 10);
    assert_eq!(Phase::GoEnding(FLASH_MS).ticks(), 5);
    assert_eq!(Phase::Go(GO_MS).ticks(), 1);
    assert_eq!(Phase::Go(GO_MS).wait_ms(), 15_000);
    assert_eq!(Phase::Go(GO_MS).entry(), Effect { red: LineOp::Low, orange: LineOp::Low, green: LineOp::High });
    assert_eq!(Phase::Go(GO_MS).exit(), Effect::none());
    assert_eq!(CAUTION_MS, READY_MS);
}
