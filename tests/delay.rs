use fxcore::{msec_to_n_samples, Delay};

#[test]
fn msec_counts_whole_seconds() {
    assert_eq!(msec_to_n_samples(2000, 48000), 96000);
    assert_eq!(msec_to_n_samples(1500, 44100), 44100);
    assert_eq!(msec_to_n_samples(999, 48000), 0);
    assert_eq!(msec_to_n_samples(0, 48000), 0);
}

#[test]
fn new_line_is_silent_and_inactive() {
    let d: Delay<f64> = Delay::new(16, 0.0);
    assert_eq!(d.capacity(), 16);
    assert_eq!(d.length(), 0);
    assert_eq!(d.index(), 0);
    assert_eq!(d.current(), 0.0);
}

#[test]
fn set_length_clamps_to_capacity() {
    let mut d: Delay<i32> = Delay::new(8, 0);
    d.set_length(5);
    assert_eq!(d.length(), 5);
    d.set_length(100);
    assert_eq!(d.length(), 8);
    d.set_length(0);
    assert_eq!(d.length(), 0);
}

#[test]
fn zero_length_delays_by_one() {
    let mut d: Delay<i32> = Delay::new(4, 0);
    assert_eq!(d.exchange(7), 0);
    assert_eq!(d.exchange(8), 7);
    assert_eq!(d.exchange(9), 8);
    assert_eq!(d.index(), 0);
}

#[test]
fn input_returns_after_exactly_length_exchanges() {
    let length = 5usize;
    let mut d: Delay<i64> = Delay::new(12, 0);
    d.set_length(length);
    let inputs: Vec<i64> = (1..=40).map(|i| i * 3 - 7).collect();
    let outputs: Vec<i64> = inputs.iter().map(|x| d.exchange(*x)).collect();
    for k in 0..length {
        assert_eq!(outputs[k], 0);
    }
    for k in length..inputs.len() {
        assert_eq!(outputs[k], inputs[k - length]);
    }
}

#[test]
fn simple_delay_with_level_is_scaled_copy() {
    let level = 0.5f64;
    let mut d: Delay<f64> = Delay::new(100, 0.0);
    d.set_length(3);
    let inputs = [1.0f64, -2.0, 0.25, 4.0, 8.0, -1.5, 3.0];
    let outputs: Vec<f64> = inputs.iter().map(|x| d.exchange(*x) * level).collect();
    assert_eq!(outputs, vec![0.0, 0.0, 0.0, 0.5, -1.0, 0.125, 2.0]);
}

#[test]
fn shrinking_below_position_wraps_on_next_exchange() {
    let mut d: Delay<i32> = Delay::new(10, 0);
    d.set_length(10);
    for i in 0..6 {
        d.exchange(i);
    }
    assert_eq!(d.index(), 6);
    d.set_length(3);
    assert_eq!(d.index(), 6);
    assert_eq!(d.exchange(100), 0);
    assert_eq!(d.index(), 0);
    assert_eq!(d.exchange(101), 0);
    assert_eq!(d.exchange(102), 1);
    assert_eq!(d.exchange(103), 2);
    assert_eq!(d.index(), 0);
    assert_eq!(d.exchange(104), 101);
}

#[test]
fn position_wraps_at_capacity() {
    let mut d: Delay<u8> = Delay::new(3, 0);
    d.set_length(3);
    assert_eq!(d.exchange(1), 0);
    assert_eq!(d.exchange(2), 0);
    assert_eq!(d.exchange(3), 0);
    assert_eq!(d.index(), 0);
    assert_eq!(d.exchange(4), 1);
}

// Feedback topology on top of the line: y = x - feedback * delayed, y is
// stored and returned scaled by the level.
fn feedback_step(d: &mut Delay<f64>, feedback: f64, level: f64, x: f64) -> f64 {
    let y = x - feedback * d.current();
    d.exchange(y);
    y * level
}

#[test]
fn feedback_impulse_gives_decaying_echo_train() {
    let mut d: Delay<f64> = Delay::new(48000, 0.0);
    d.set_length(24000);
    let feedback = 0.5;
    let level = 1.0;
    let n = 24000 * 5;
    let mut out = Vec::with_capacity(n);
    for i in 0..n {
        let x = if i == 0 { 1.0 } else { 0.0 };
        out.push(feedback_step(&mut d, feedback, level, x));
    }
    assert_eq!(out[0], 1.0);
    assert!(out[24000] != 0.0);
    let mut expected = 1.0f64;
    for m in 0..5 {
        assert_eq!(out[m * 24000], expected);
        expected = -feedback * expected;
        for k in 1..24000 {
            assert_eq!(out[m * 24000 + k], 0.0);
        }
    }
    for m in 1..5 {
        assert!(out[m * 24000].abs() < out[(m - 1) * 24000].abs());
    }
}
