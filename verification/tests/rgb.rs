use rgbcal::rgb::{active_duration, frame, frame_period, Phase, MICROS_PER_SECOND};
use rgbcal::shared::{frame_rate_for, SharedState};
use rgbcal::LEVELS;

#[test]
fn frame_period_in_microseconds() {
    assert_eq!(MICROS_PER_SECOND, 1_000_000);
    assert_eq!(frame_period(10), 100_000);
    assert_eq!(frame_period(100), 10_000);
    assert_eq!(frame_period(160), 6_250);
    assert_eq!(frame_period(30), 33_333);
    assert_eq!(frame_period(70), 14_285);
}

#[test]
fn active_duration_is_the_share_of_the_period() {
    assert_eq!(active_duration(0, 100), 0);
    assert_eq!(active_duration(15, 100), 10_000);
    assert_eq!(active_duration(7, 100), 4_666);
    assert_eq!(active_duration(8, 100), 5_333);
    assert_eq!(active_duration(1, 160), 416);
    assert_eq!(active_duration(14, 10), 93_333);
    assert_eq!(active_duration(3, 30), 6_666);
}

#[test]
fn active_duration_is_zero_only_at_level_zero_and_full_only_at_the_top() {
    for knob in 0..LEVELS {
        let rate = frame_rate_for(knob);
        let period = frame_period(rate);
        for level in 0..LEVELS {
            let active = active_duration(level, rate);
            assert!(active <= period);
            assert_eq!(active == 0, level == 0);
            assert_eq!(active == period, level == LEVELS - 1);
        }
    }
}

#[test]
fn full_brightness_at_one_hundred_hertz_is_on_for_ten_milliseconds() {
    for channel in 0..3 {
        let levels = [15, 15, 15];
        assert_eq!(active_duration(levels[channel], 100), 10_000);
    }
    let phases = frame(&SharedState { levels: [15, 15, 15], frame_rate: 100 });
    assert_eq!(phases, vec![Phase { lit: [true, true, true], micros: 10_000 }]);
}

#[test]
fn dark_frame_never_switches_on() {
    let phases = frame(&SharedState { levels: [0, 0, 0], frame_rate: 100 });
    assert_eq!(phases, vec![Phase { lit: [false, false, false], micros: 10_000 }]);
}

#[test]
fn frame_of_the_first_shared_state() {
    let phases = frame(&SharedState::new());
    assert_eq!(phases, vec![Phase { lit: [false, false, false], micros: 100_000 }]);
}

#[test]
fn channels_switch_off_at_their_own_times() {
    let phases = frame(&SharedState { levels: [15, 0, 7], frame_rate: 100 });
    assert_eq!(
        phases,
        vec![
            Phase { lit: [true, false, true], micros: 4_666 },
            Phase { lit: [true, false, false], micros: 5_334 },
        ]
    );
    let phases = frame(&SharedState { levels: [3, 12, 9], frame_rate: 50 });
    assert_eq!(
        phases,
        vec![
            Phase { lit: [true, true, true], micros: 4_000 },
            Phase { lit: [false, true, true], micros: 8_000 },
            Phase { lit: [false, true, false], micros: 4_000 },
            Phase { lit: [false, false, false], micros: 4_000 },
        ]
    );
}

#[test]
fn channels_of_one_level_switch_off_together() {
    let phases = frame(&SharedState { levels: [5, 5, 5], frame_rate: 160 });
    assert_eq!(
        phases,
        vec![
            Phase { lit: [true, true, true], micros: 2_083 },
            Phase { lit: [false, false, false], micros: 4_167 },
        ]
    );
}

#[test]
fn every_frame_lights_each_channel_for_its_active_time() {
    for knob in 0..LEVELS {
        let rate = frame_rate_for(knob);
        let period = frame_period(rate);
        for red in 0..LEVELS {
            for green in 0..LEVELS {
                for blue in 0..LEVELS {
                    let levels = [red, green, blue];
                    let phases = frame(&SharedState { levels, frame_rate: rate });
                    assert!(!phases.is_empty() && phases.len() <= 4);
                    let mut lit_for = [0u64; 3];
                    let mut start = 0;
                    let mut last: Option<[bool; 3]> = None;
                    for phase in &phases {
                        assert!(phase.micros > 0);
                        assert_ne!(last, Some(phase.lit));
                        for channel in 0..3 {
                            let active = active_duration(levels[channel], rate);
                            assert_eq!(phase.lit[channel], start < active);
                            if phase.lit[channel] {
                                assert!(start + phase.micros <= active);
                                lit_for[channel] += phase.micros;
                            }
                        }
                        start += phase.micros;
                        last = Some(phase.lit);
                    }
                    assert_eq!(start, period);
                    for channel in 0..3 {
                        assert_eq!(lit_for[channel], active_duration(levels[channel], rate));
                    }
                }
            }
        }
    }
}

#[test]
fn level_zero_is_never_on_and_the_highest_level_never_off() {
    for knob in 0..LEVELS {
        let rate = frame_rate_for(knob);
        for middle in 0..LEVELS {
            let phases = frame(&SharedState { levels: [0, middle, 15], frame_rate: rate });
            for phase in &phases {
                assert!(!phase.lit[0]);
                assert!(phase.lit[2]);
            }
            let lit: u64 = phases.iter().filter(|p| p.lit[1]).map(|p| p.micros).sum();
            assert_eq!(lit, active_duration(middle, rate));
        }
    }
}
