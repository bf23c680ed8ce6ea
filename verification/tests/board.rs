use triangle_blink::board::{fire, Board};
use triangle_blink::isr::{Action, Event, Phase, Service};
use triangle_blink::pattern::{BlinkState, Pattern};

#[test]
fn board_starts_dark_and_quiet() {
    assert_eq!(
        Board::new(),
        Board { led_on: false, toggles: 0, load_ticks: 0, elapsed: false, relatches: 0 }
    );
}

#[test]
fn elapse_sets_the_flag() {
    let mut b = Board::new();
    b.elapse(3);
    assert_eq!(
        b,
        Board { led_on: false, toggles: 0, load_ticks: 0, elapsed: true, relatches: 3 }
    );
}

#[test]
fn toggle_inverts_the_line_and_counts() {
    let mut b = Board::new();
    assert_eq!(b.perform(Action::ToggleLed), Event::Done);
    assert_eq!((b.led_on, b.toggles), (true, 1));
    assert_eq!(b.perform(Action::ToggleLed), Event::Done);
    assert_eq!((b.led_on, b.toggles), (false, 2));
}

#[test]
fn arm_loads_the_timer_and_leaves_the_flag() {
    let mut b = Board::new();
    b.elapse(0);
    assert_eq!(b.perform(Action::Arm(245_000)), Event::Done);
    assert_eq!(
        b,
        Board { led_on: false, toggles: 0, load_ticks: 245_000, elapsed: true, relatches: 0 }
    );
}

#[test]
fn read_reports_the_flag_and_changes_nothing() {
    let mut b = Board::new();
    assert_eq!(b.perform(Action::ReadElapsed), Event::Elapsed(false));
    assert_eq!(b, Board::new());
    b.elapse(2);
    let before = b;
    assert_eq!(b.perform(Action::ReadElapsed), Event::Elapsed(true));
    assert_eq!(b, before);
}

#[test]
fn clear_is_idempotent() {
    let mut b = Board::new();
    b.elapse(0);
    assert_eq!(b.perform(Action::ClearElapsed), Event::Done);
    assert_eq!(b, Board::new());
    assert_eq!(b.perform(Action::ClearElapsed), Event::Done);
    assert_eq!(b, Board::new());
    assert_eq!(b.perform(Action::ReadElapsed), Event::Elapsed(false));
}

#[test]
fn clear_eventually_reports_false() {
    let mut b = Board::new();
    b.elapse(3);
    for left in [2, 1, 0] {
        b.perform(Action::ClearElapsed);
        assert_eq!((b.elapsed, b.relatches), (true, left));
        assert_eq!(b.perform(Action::ReadElapsed), Event::Elapsed(true));
    }
    b.perform(Action::ClearElapsed);
    assert_eq!((b.elapsed, b.relatches), (false, 0));
    assert_eq!(b.perform(Action::ReadElapsed), Event::Elapsed(false));
}

#[test]
fn clear_of_a_clear_flag_keeps_outstanding_latches() {
    let mut b = Board { led_on: true, toggles: 9, load_ticks: 7, elapsed: false, relatches: 4 };
    let before = b;
    b.perform(Action::ClearElapsed);
    assert_eq!(b, before);
}

#[test]
fn firing_toggles_once_arms_and_acknowledges() {
    let mut s = Service::standard();
    let mut b = Board::new();
    b.elapse(0);
    assert!(fire(&mut s, &mut b));
    assert_eq!(
        b,
        Board { led_on: true, toggles: 1, load_ticks: 245_000, elapsed: false, relatches: 0 }
    );
    assert_eq!(s.state(), BlinkState { current_delay_ms: 245, accelerating: true });
    assert_eq!(s.phase(), Phase::Idle);
}

#[test]
fn firing_ends_however_often_the_flag_latches() {
    for relatches in [0, 1, 2, 17, 100_000] {
        let mut s = Service::standard();
        let mut b = Board::new();
        b.elapse(relatches);
        assert!(fire(&mut s, &mut b));
        assert_eq!(
            b,
            Board { led_on: true, toggles: 1, load_ticks: 245_000, elapsed: false, relatches: 0 }
        );
    }
}

#[test]
fn firing_with_a_clear_flag_acknowledges_nothing() {
    let mut s = Service::standard();
    let mut b = Board { led_on: true, toggles: 8, load_ticks: 1, elapsed: false, relatches: 6 };
    assert!(fire(&mut s, &mut b));
    assert_eq!(
        b,
        Board { led_on: false, toggles: 9, load_ticks: 245_000, elapsed: false, relatches: 6 }
    );
}

#[test]
fn one_toggle_per_step_over_a_whole_period() {
    let mut s = Service::standard();
    let mut b = Board::new();
    for n in 1..=98u64 {
        let before = s.state();
        b.elapse((n % 4) as u32);
        assert!(fire(&mut s, &mut b));
        let mut expected = before;
        expected.step(&Pattern::standard());
        assert_eq!(s.state(), expected);
        assert_eq!(b.toggles, n);
        assert_eq!(b.led_on, n % 2 == 1);
        assert_eq!(b.load_ticks, 1_000 * expected.current_delay_ms);
        assert!(!b.elapsed);
    }
    assert_eq!(s.state(), BlinkState { current_delay_ms: 250, accelerating: true });
}

#[test]
fn uneven_pattern_on_the_board() {
    let p = Pattern::new(5, 12, 5).expect("bounds in order");
    let mut s = Service::new(p, 1_000_000).expect("ticks fit");
    let mut b = Board::new();
    let mut loads = Vec::new();
    for _ in 0..4 {
        b.elapse(1);
        assert!(fire(&mut s, &mut b));
        loads.push(b.load_ticks);
    }
    assert_eq!(loads, vec![7_000, 5_000, 10_000, 12_000]);
    assert_eq!(b.toggles, 4);
}

#[test]
fn firing_in_the_middle_of_a_firing_is_refused() {
    let mut s = Service::standard();
    s.next(Event::Fired);
    let mut b = Board::new();
    b.elapse(2);
    let before = b;
    assert!(!fire(&mut s, &mut b));
    assert_eq!(b, before);
    assert_eq!(s.phase(), Phase::Toggling);
    assert_eq!(s.state(), BlinkState { current_delay_ms: 250, accelerating: true });
}
