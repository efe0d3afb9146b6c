use input_automation::timing::{
    apply_jitter, draw_humanized_timing, draw_jitter, humanized_timing, steady_timing,
    target_interval_ms, ClickTiming, JitterDraw,
};

const NONE: JitterDraw = JitterDraw { amount: 0, upward: true };

#[test]
fn interval_is_a_thousand_over_the_rate() {
    assert_eq!(target_interval_ms(1), 1000);
    assert_eq!(target_interval_ms(3), 333);
    assert_eq!(target_interval_ms(10), 100);
    assert_eq!(target_interval_ms(1000), 1);
    assert_eq!(target_interval_ms(1001), 0);
    assert_eq!(target_interval_ms(u64::MAX), 0);
}

#[test]
fn ten_clicks_per_second_steady_is_fifty_fifty() {
    assert_eq!(target_interval_ms(10), 100);
    assert_eq!(steady_timing(10), ClickTiming { hold_ms: 50, gap_ms: 50 });
}

#[test]
fn steady_hold_is_twenty_at_least() {
    assert_eq!(steady_timing(1), ClickTiming { hold_ms: 500, gap_ms: 500 });
    assert_eq!(steady_timing(25), ClickTiming { hold_ms: 20, gap_ms: 20 });
    assert_eq!(steady_timing(40), ClickTiming { hold_ms: 20, gap_ms: 5 });
    assert_eq!(steady_timing(50), ClickTiming { hold_ms: 20, gap_ms: 0 });
    assert_eq!(steady_timing(100), ClickTiming { hold_ms: 20, gap_ms: 0 });
    assert_eq!(steady_timing(5000), ClickTiming { hold_ms: 20, gap_ms: 0 });
}

#[test]
fn steady_split_fills_the_interval_up_to_fifty_per_second() {
    for cps in 1..=50u64 {
        let t = steady_timing(cps);
        assert_eq!(t.hold_ms + t.gap_ms, 1000 / cps, "cps {}", cps);
    }
    for cps in 51..=2000u64 {
        let t = steady_timing(cps);
        assert_eq!((t.hold_ms, t.gap_ms), (20, 0), "cps {}", cps);
    }
}

#[test]
fn jitter_moves_up_and_down() {
    assert_eq!(apply_jitter(40, JitterDraw { amount: 3, upward: true }), 43);
    assert_eq!(apply_jitter(40, JitterDraw { amount: 3, upward: false }), 37);
    assert_eq!(apply_jitter(40, JitterDraw { amount: 0, upward: false }), 40);
}

#[test]
fn jitter_saturates_at_both_ends() {
    assert_eq!(apply_jitter(5, JitterDraw { amount: 9, upward: false }), 0);
    assert_eq!(apply_jitter(0, JitterDraw { amount: u64::MAX, upward: false }), 0);
    assert_eq!(apply_jitter(u64::MAX - 1, JitterDraw { amount: 9, upward: true }), u64::MAX);
    assert_eq!(apply_jitter(u64::MAX, JitterDraw { amount: u64::MAX, upward: true }), u64::MAX);
}

#[test]
fn humanized_split_for_given_draws() {
    let t = humanized_timing(
        10,
        5,
        40,
        JitterDraw { amount: 3, upward: false },
        JitterDraw { amount: 5, upward: true },
    );
    assert_eq!(t, ClickTiming { hold_ms: 37, gap_ms: 68 });
    let t = humanized_timing(
        10,
        5,
        40,
        JitterDraw { amount: 5, upward: true },
        JitterDraw { amount: 2, upward: false },
    );
    assert_eq!(t, ClickTiming { hold_ms: 45, gap_ms: 53 });
}

#[test]
fn humanized_hold_is_clamped_to_a_quarter_and_three_quarters() {
    assert_eq!(humanized_timing(10, 0, 0, NONE, NONE), ClickTiming { hold_ms: 25, gap_ms: 75 });
    assert_eq!(humanized_timing(10, 0, 24, NONE, NONE), ClickTiming { hold_ms: 25, gap_ms: 75 });
    assert_eq!(humanized_timing(10, 0, 25, NONE, NONE), ClickTiming { hold_ms: 25, gap_ms: 75 });
    assert_eq!(humanized_timing(10, 0, 75, NONE, NONE), ClickTiming { hold_ms: 75, gap_ms: 25 });
    assert_eq!(humanized_timing(10, 0, 76, NONE, NONE), ClickTiming { hold_ms: 75, gap_ms: 25 });
    assert_eq!(
        humanized_timing(10, 0, u64::MAX, NONE, NONE),
        ClickTiming { hold_ms: 75, gap_ms: 25 }
    );
}

#[test]
fn humanized_jitter_is_clamped_too() {
    let down = JitterDraw { amount: 1000, upward: false };
    let up = JitterDraw { amount: 1000, upward: true };
    assert_eq!(humanized_timing(10, 1000, 40, down, down), ClickTiming { hold_ms: 25, gap_ms: 0 });
    assert_eq!(humanized_timing(10, 1000, 40, up, up), ClickTiming { hold_ms: 75, gap_ms: 1025 });
    assert_eq!(humanized_timing(10, 1000, 40, up, down), ClickTiming { hold_ms: 75, gap_ms: 0 });
}

#[test]
fn draws_are_ignored_without_randomness() {
    let wild = JitterDraw { amount: 999, upward: true };
    assert_eq!(humanized_timing(10, 0, 40, wild, wild), ClickTiming { hold_ms: 40, gap_ms: 60 });
}

#[test]
fn humanized_bounds_at_very_high_rates() {
    // interval 3 ms: the bounds are 2 and 2
    assert_eq!(humanized_timing(300, 0, 1, NONE, NONE), ClickTiming { hold_ms: 2, gap_ms: 1 });
    // interval 1 ms: the hold alone is longer than the interval
    assert_eq!(humanized_timing(1000, 0, 0, NONE, NONE), ClickTiming { hold_ms: 2, gap_ms: 0 });
    // interval 0 ms
    assert_eq!(humanized_timing(5000, 0, 0, NONE, NONE), ClickTiming { hold_ms: 2, gap_ms: 0 });
    // interval 1000 ms
    assert_eq!(
        humanized_timing(1, 0, 600, NONE, NONE),
        ClickTiming { hold_ms: 600, gap_ms: 400 }
    );
    assert_eq!(
        humanized_timing(1, 0, 900, NONE, NONE),
        ClickTiming { hold_ms: 750, gap_ms: 250 }
    );
}

#[test]
fn unjittered_humanized_split_fills_the_interval() {
    for cps in 1..=500u64 {
        let target = 1000 / cps;
        for base in [0, target * 3 / 10, target / 2, target * 6 / 10, target, target + 7] {
            let t = humanized_timing(cps, 0, base, NONE, NONE);
            assert_eq!(t.hold_ms + t.gap_ms, target, "cps {} base {}", cps, base);
        }
    }
}

#[test]
fn humanized_hold_stays_within_its_bounds() {
    for cps in [1u64, 2, 7, 10, 33, 100, 250, 251, 500, 1000, 4000] {
        let target = 1000 / cps;
        let lowest = std::cmp::max(2, target / 4);
        let highest = std::cmp::max(target * 3 / 4, lowest);
        for randomness in [0u64, 1, 50, 100_000] {
            for base in [0u64, 1, target / 3, target, u64::MAX] {
                for amount in [0u64, 1, randomness] {
                    for upward in [false, true] {
                        let d = JitterDraw { amount, upward };
                        let t = humanized_timing(cps, randomness, base, d, d);
                        assert!(lowest <= t.hold_ms && t.hold_ms <= highest);
                    }
                }
            }
        }
    }
}

#[test]
fn drawn_jitter_stays_within_the_randomness() {
    let mut below = false;
    let mut up = false;
    let mut down = false;
    for _ in 0..400 {
        let d = draw_jitter(1000);
        assert!(d.amount <= 1000);
        below = below || d.amount < 1000;
        up = up || d.upward;
        down = down || !d.upward;
    }
    assert!(below);
    assert!(up && down);
}

#[test]
fn nothing_is_drawn_without_randomness() {
    for _ in 0..50 {
        assert_eq!(draw_jitter(0), JitterDraw { amount: 0, upward: true });
    }
}

#[test]
fn drawn_timing_stays_within_what_the_draws_allow() {
    for _ in 0..400 {
        let t = draw_humanized_timing(10, 5, 40);
        assert!(35 <= t.hold_ms && t.hold_ms <= 45, "{:?}", t);
        let rest = 100 - t.hold_ms;
        assert!(rest - 5 <= t.gap_ms && t.gap_ms <= rest + 5, "{:?}", t);
    }
}

#[test]
fn drawn_timing_without_randomness_is_exact() {
    for _ in 0..20 {
        assert_eq!(draw_humanized_timing(10, 0, 40), ClickTiming { hold_ms: 40, gap_ms: 60 });
    }
}
