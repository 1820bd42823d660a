use tree_lights::color::{apply_brightness, scale_brightness, step_toward, Rgb};
use tree_lights::geometry::{get_row_start_index, row_size, NUM_LEDS, NUM_ROWS};
use tree_lights::rows::RowsAnimation;
use tree_lights::sequencer::{Phase, Sequencer, CYCLE_TICKS};
use tree_lights::sparkle::SparkleAnimation;
use tree_lights::starfield::starfield_frame;
use tree_lights::twinkle::TwinkleAnimation;

fn fresh_buffer() -> Vec<Rgb> {
    let mut data: Vec<Rgb> = Vec::new();
    for _ in 0..NUM_LEDS {
        data.push(Rgb::new(0, 0, 0));
    }
    data
}

fn off() -> Rgb {
    Rgb::new(0, 0, 0)
}

fn green() -> Rgb {
    Rgb::new(0, 25, 0)
}

fn yellow() -> Rgb {
    Rgb::new(25, 25, 0)
}

fn warm_star() -> Rgb {
    Rgb::new(25, 21, 0)
}

fn white() -> Rgb {
    Rgb::new(25, 25, 25)
}

#[test]
fn scale_brightness_matches_formula() {
    for v in 0..=255u16 {
        let expected = (v * 25 / 255) as u8;
        assert_eq!(scale_brightness(v as u8), expected);
    }
    assert_eq!(scale_brightness(255), 25);
    assert_eq!(scale_brightness(220), 21);
    assert_eq!(scale_brightness(128), 12);
    assert_eq!(scale_brightness(0), 0);
}

#[test]
fn scale_brightness_is_monotonic() {
    for v in 0..255u8 {
        assert!(scale_brightness(v) <= scale_brightness(v + 1));
    }
}

#[test]
fn row_starts_are_prefix_sums() {
    let expected_starts = [0usize, 6, 11, 15, 18, 20, 21];
    let mut sum = 0usize;
    for r in 0..NUM_ROWS {
        assert_eq!(get_row_start_index(r), expected_starts[r]);
        assert_eq!(get_row_start_index(r), sum);
        sum += row_size(r);
    }
    assert_eq!(get_row_start_index(0), 0);
    assert_eq!(get_row_start_index(2), 11);
    assert_eq!(sum, NUM_LEDS);
    // One past the last row, the prefix sum is the whole buffer length.
    assert_eq!(get_row_start_index(NUM_ROWS), NUM_LEDS);
}

#[test]
fn rows_clear_then_first_row() {
    let mut rows = RowsAnimation::new();
    let mut data = fresh_buffer();
    // Start from a dirty buffer to check the clear tick really clears.
    data[3] = Rgb::new(9, 9, 9);
    data[21] = Rgb::new(1, 2, 3);

    let done = rows.step(&mut data);
    assert!(!done);
    for i in 0..NUM_LEDS {
        assert_eq!(data[i], off());
    }

    let done = rows.step(&mut data);
    assert!(!done);
    for i in 0..6 {
        assert_eq!(data[i], green());
    }
    for i in 6..NUM_LEDS {
        assert_eq!(data[i], off());
    }
    assert_eq!(data[21], off());
}

#[test]
fn rows_fill_is_contiguous_per_row() {
    let mut rows = RowsAnimation::new();
    let mut data = fresh_buffer();
    let _ = rows.step(&mut data); // clear
    for r in 0..6 {
        let _ = rows.step(&mut data);
        let start = get_row_start_index(r);
        let end = start + row_size(r);
        for i in 0..start {
            assert_eq!(data[i], green(), "visited pixel {} after row {}", i, r);
        }
        for i in start..end {
            assert_eq!(data[i], green(), "row pixel {} after row {}", i, r);
        }
        for i in end..21 {
            assert_eq!(data[i], off(), "unvisited pixel {} after row {}", i, r);
        }
        assert_eq!(data[21], off(), "star after row {}", r);
    }
}

#[test]
fn rows_star_blinks_and_phase_ends() {
    let mut rows = RowsAnimation::new();
    let mut data = fresh_buffer();
    let mut emitted = 0usize;
    let mut finished = false;
    for tick in 0..39 {
        assert!(!finished);
        finished = rows.step(&mut data);
        emitted += 1;
        let k = tick % 13;
        if k >= 7 {
            let expected = if (k - 7) % 2 == 0 { yellow() } else { off() };
            assert_eq!(data[21], expected, "star at tick {}", tick);
            // All six rows stay lit while the star blinks.
            for i in 0..21 {
                assert_eq!(data[i], green());
            }
        } else {
            assert_eq!(data[21], off(), "star at tick {}", tick);
        }
    }
    assert!(finished, "three passes must end the rows phase");
    assert_eq!(emitted, 39);
}

fn twinkle_expected(time: u64, i: usize) -> Rgb {
    if i == 21 {
        if time % 3 == 0 {
            yellow()
        } else {
            off()
        }
    } else if (time + i as u64 * 7919) % 5 == 0 {
        green()
    } else {
        off()
    }
}

#[test]
fn twinkle_matches_hash_of_time_and_index() {
    let times = [0u64, 1, 2, 3, 100_000, 123_456_789, 999_999_999_999];
    for &time in times.iter() {
        let mut twinkle = TwinkleAnimation::new();
        let mut data = fresh_buffer();
        let _ = twinkle.step(&mut data, time);
        for i in 0..NUM_LEDS {
            assert_eq!(data[i], twinkle_expected(time, i), "time {} pixel {}", time, i);
        }
    }
}

#[test]
fn twinkle_is_deterministic_in_the_timestamps() {
    let times: Vec<u64> = (0..50u64).map(|k| 1_000_000 + 17 * k).collect();
    let mut a = TwinkleAnimation::new();
    let mut b = TwinkleAnimation::new();
    let mut data_a = fresh_buffer();
    let mut data_b = fresh_buffer();
    let mut done_a = false;
    let mut done_b = false;
    for &t in times.iter() {
        assert!(!done_a && !done_b);
        done_a = a.step(&mut data_a, t);
        done_b = b.step(&mut data_b, t);
        for i in 0..NUM_LEDS {
            assert_eq!(data_a[i], data_b[i]);
        }
    }
    assert!(done_a && done_b, "the twinkle phase runs exactly 50 ticks");
}

#[test]
fn starfield_concrete_scenario() {
    let mut data = fresh_buffer();
    starfield_frame(&mut data, 100_000);
    // (100000 + 3 * 7919) % 5 == 123757 % 5 == 2, so pixel 3 is off.
    assert_eq!(data[3], off());
    // 100000 % 5 == 0, so pixel 0 is lit white.
    assert_eq!(data[0], white());
    for i in 0..NUM_LEDS {
        let expected = if (100_000 + i as u64 * 7919) % 5 == 0 { white() } else { off() };
        assert_eq!(data[i], expected, "pixel {}", i);
    }
}

#[test]
fn fade_step_moves_by_five_toward_target() {
    assert_eq!(step_toward(0, 25), 5);
    assert_eq!(step_toward(20, 25), 25);
    assert_eq!(step_toward(25, 25), 25);
    assert_eq!(step_toward(25, 0), 20);
    assert_eq!(step_toward(3, 0), 0);
    assert_eq!(step_toward(253, 255), 255);
    // A channel within reach of its target lands on it, never past it.
    assert_eq!(step_toward(21, 25), 25);
    assert_eq!(step_toward(27, 25), 25);
    assert_eq!(step_toward(2, 0), 0);
    for c in 0..=255u16 {
        for &t in [0u8, 21, 25, 255].iter() {
            let r = step_toward(c as u8, t) as i32;
            let c = c as i32;
            assert!((r - c).abs() <= 5);
            if c < t as i32 {
                assert!(r > c);
            } else if c > t as i32 {
                assert!(r < c);
            } else {
                assert_eq!(r, c);
            }
        }
    }
}

#[test]
fn brightness_factor_application() {
    assert_eq!(apply_brightness(25, 100), 25);
    assert_eq!(apply_brightness(25, 20), 5);
    assert_eq!(apply_brightness(25, 25), 6);
    assert_eq!(apply_brightness(0, 55), 0);
    assert_eq!(apply_brightness(255, 0), 0);
}

#[test]
fn sparkle_keeps_star_lit_and_factors_in_range() {
    let mut sparkle = SparkleAnimation::new();
    let mut data = fresh_buffer();
    let mut time = 1u64;
    for _ in 0..500 {
        let _ = sparkle.step(&mut data, time);
        assert_eq!(data[21], warm_star());
        for i in 0..21 {
            let f = sparkle.factors[i];
            assert!((20..=100).contains(&f), "factor {} out of range", f);
            assert_eq!(f % 5, 0);
        }
        time += 50_000;
    }
}

#[test]
fn sparkle_dim_event_drops_to_twenty_and_records_time() {
    let mut sparkle = SparkleAnimation::new();
    let mut data = fresh_buffer();
    // 50_000_000 % 50 == 0: the dim trigger fires for pixel 0, which is at
    // full brightness, and 50_000_000 % 10 == 0 assigns pixel 0 the palette
    // color at index 50_000_000 % 4 == 0 (red).
    let time = 50_000_000u64;
    let _ = sparkle.step(&mut data, time);
    assert_eq!(sparkle.factors[0], 20);
    assert_eq!(sparkle.dim_start_times[0], time);
    assert_eq!(sparkle.targets[0], Rgb::new(25, 0, 0));
    // One fade step from off toward red, then the 20% factor applied.
    assert_eq!(data[0], Rgb::new(1, 0, 0));
}

#[test]
fn sparkle_factor_recovers_to_full_after_grace_period() {
    let mut sparkle = SparkleAnimation::new();
    let mut data = fresh_buffer();
    let mut time = 50_000_000u64;
    let _ = sparkle.step(&mut data, time);
    assert_eq!(sparkle.factors[0], 20);
    // Within the 200ms grace period the factor stays dimmed.
    time += 100_000;
    let _ = sparkle.step(&mut data, time);
    assert_eq!(sparkle.factors[0], 20);
    // Past the grace period it recovers by exactly 5 per tick: 16 ticks
    // from 20 back to 100, then it stays there.
    let mut recovering_ticks = 0;
    while sparkle.factors[0] < 100 {
        time += 300_000;
        let before = sparkle.factors[0];
        let _ = sparkle.step(&mut data, time);
        assert!(sparkle.factors[0] >= before, "factor must not decrease while dimmed");
        recovering_ticks += 1;
        assert!(recovering_ticks <= 16, "recovery must be bounded");
    }
    assert_eq!(recovering_ticks, 16);
    assert_eq!(sparkle.factors[0], 100);
}

#[test]
fn sparkle_fades_five_per_channel_without_overshoot() {
    let mut sparkle = SparkleAnimation::new();
    let mut data = fresh_buffer();
    // At time 1 no dim trigger fires for any pixel, so every factor stays
    // 100 and the displayed color is the faded color itself. Pixel 1 is
    // assigned the white palette entry ((1 + 1234) % 4 == 3); pixel 0 keeps
    // its unlit target.
    for k in 1..=7u8 {
        let _ = sparkle.step(&mut data, 1);
        let expected = 5u8.saturating_mul(k).min(25);
        assert_eq!(data[1], Rgb::new(expected, expected, expected), "tick {}", k);
        assert_eq!(data[0], off());
        assert_eq!(sparkle.factors[1], 100);
    }
    assert_eq!(data[1], white());
}

#[test]
fn sequencer_runs_one_full_cycle() {
    let mut seq = Sequencer::new();
    let mut data = fresh_buffer();
    assert_eq!(seq.phase, Phase::Sparkle);
    assert_eq!(seq.tick_period_ms(), 50);
    let mut frames = 0usize;
    for tick in 0..CYCLE_TICKS {
        match tick {
            0..=499 => assert_eq!(seq.phase, Phase::Sparkle, "tick {}", tick),
            500..=538 => assert_eq!(seq.phase, Phase::Rows, "tick {}", tick),
            _ => assert_eq!(seq.phase, Phase::Twinkle, "tick {}", tick),
        }
        seq.step(&mut data, 1 + tick as u64 * 50_000);
        frames += 1;
    }
    // One frame per tick, and the cycle wraps back to a fresh sparkle phase.
    assert_eq!(frames, CYCLE_TICKS);
    assert_eq!(seq.phase, Phase::Sparkle);
    assert_eq!(seq.sparkle.tick, 0);
    assert_eq!(seq.tick_period_ms(), 50);
}

#[test]
fn sequencer_periods_follow_the_active_phase() {
    let mut seq = Sequencer::new();
    let mut data = fresh_buffer();
    for _ in 0..500 {
        assert_eq!(seq.tick_period_ms(), 50);
        seq.step(&mut data, 7);
    }
    for _ in 0..39 {
        assert_eq!(seq.tick_period_ms(), 300);
        seq.step(&mut data, 7);
    }
    for _ in 0..50 {
        assert_eq!(seq.tick_period_ms(), 100);
        seq.step(&mut data, 7);
    }
    assert_eq!(seq.tick_period_ms(), 50);
}
