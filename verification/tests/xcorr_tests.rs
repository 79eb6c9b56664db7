use taiko_hid::cross_correlation::xcorr;

/// A deterministic broadband test signal within the centered 12-bit range.
fn test_signal(n: usize) -> Vec<i16> {
    let mut s = Vec::with_capacity(n);
    let mut x: i64 = 12345;
    for _ in 0..n {
        // Small linear congruential generator, values in -2000..=2000.
        x = (x * 1103515245 + 12345) % 2147483648;
        s.push(((x % 4001) - 2000) as i16);
    }
    s
}

fn median_of(s: &[i16]) -> i16 {
    let mut v = s.to_vec();
    v.sort();
    v[v.len() / 2]
}

/// Correlating a signal with an exact copy of itself returns delay 0.
#[test]
fn self_correlation_returns_zero_delay() {
    let s = test_signal(256);
    let m = median_of(&s);
    let delay = xcorr(&s, m, &s.clone(), m);
    assert_eq!(delay, 0);
}

/// Correlating a signal with a copy shifted by k samples returns a delay
/// within one sample of k, allowing for fixed-point quantization.
#[test]
fn shifted_copy_returns_shift() {
    let n = 256;
    let reference = test_signal(n);
    for &k in &[3usize, 10, 40] {
        // `signal` carries the reference delayed by k samples.
        let mut signal = vec![0i16; n];
        for t in k..n {
            signal[t] = reference[t - k];
        }
        let delay = xcorr(
            &signal,
            median_of(&signal),
            &reference,
            median_of(&reference),
        );
        let err = (delay - k as isize).abs();
        assert!(err <= 1, "shift {}: delay {} too far off", k, delay);
    }
}

/// The shift test in the other direction: a leading copy gives a negative
/// delay.
#[test]
fn leading_copy_returns_negative_shift() {
    let n = 256;
    let reference = test_signal(n);
    let k = 10usize;
    let mut signal = vec![0i16; n];
    for t in 0..n - k {
        signal[t] = reference[t + k];
    }
    let delay = xcorr(
        &signal,
        median_of(&signal),
        &reference,
        median_of(&reference),
    );
    let err = (delay + k as isize).abs();
    assert!(err <= 1, "delay {} should be near {}", delay, -(k as isize));
}
