use taiko_hid::cfg::DrumConfig;
use taiko_hid::parser::{check_deviation, Parser};
use taiko_hid::piezo::PiezoSample;

/// Deviation check boundary: median 100, min 90, max 140, sharpness 64.
/// With sensitivity 50, the maximal deviation (140-100)/64 = 0.625
/// exceeds 0.5; with sensitivity 100 it stays below 1.0.
#[test]
fn deviation_check_boundary() {
    assert!(check_deviation(100, 90, 140, 64, 50));
    assert!(!check_deviation(100, 90, 140, 64, 100));
}

#[test]
fn deviation_check_minimum_side() {
    // min deviates by (100-20)/64 = 1.25: above 1.0, so it trips even at
    // sensitivity 100.
    assert!(check_deviation(100, 20, 120, 64, 100));
    // Exactly at the threshold nothing trips: (132-100)/64 = 0.5.
    assert!(!check_deviation(100, 90, 132, 64, 50));
}

/// A deterministic broadband waveform within the centered 12-bit range.
fn waveform(n: usize, amplitude: i64) -> Vec<i16> {
    let mut s = Vec::with_capacity(n);
    let mut x: i64 = 99991;
    for _ in 0..n {
        x = (x * 1103515245 + 12345) % 2147483648;
        s.push((x % (2 * amplitude + 1) - amplitude) as i16);
    }
    s
}

fn raw(centered: i16) -> u16 {
    (centered as i32 + 2048) as u16
}

#[test]
fn quiet_channels_report_nothing() {
    let mut p = Parser::with_window_len(16, 0);
    let cfg = DrumConfig::default();
    for _ in 0..32 {
        let r = p.parse(&cfg, PiezoSample { le: 2048, lc: 2048, rc: 2048, re: 2048 });
        assert!(r.is_none());
    }
    assert_eq!(p.states, vec![false, false, false, false]);
}

#[test]
fn single_hit_reports_its_keycode() {
    let mut p = Parser::with_window_len(16, 0);
    let cfg = DrumConfig::default();
    for t in 0..16 {
        let spike = if (8..12).contains(&t) { 1000 } else { 0 };
        let r = p.parse(
            &cfg,
            PiezoSample { le: raw(spike), lc: 2048, rc: 2048, re: 2048 },
        );
        if t < 15 {
            assert!(r.is_none(), "no report before the cursor wraps");
        } else {
            let report = r.expect("hit must be reported at the cadence");
            assert_eq!(report.keycode, vec![0x1d, 0, 0, 0, 0, 0]);
        }
    }
    assert_eq!(p.states, vec![true, false, false, false]);
}

#[test]
fn hit_release_is_reported_once() {
    let mut p = Parser::with_window_len(16, 0);
    let cfg = DrumConfig::default();
    // First window: a spike on channel 1 -> hit reported.
    let mut last = None;
    for t in 0..16 {
        let spike = if (4..8).contains(&t) { 1200 } else { 0 };
        last = p.parse(
            &cfg,
            PiezoSample { le: 2048, lc: raw(spike), rc: 2048, re: 2048 },
        );
    }
    assert_eq!(last.take().unwrap().keycode, vec![0x1b, 0, 0, 0, 0, 0]);
    // Second window: quiet again -> the release is reported as an empty
    // report.
    for _ in 0..16 {
        last = p.parse(&cfg, PiezoSample { le: 2048, lc: 2048, rc: 2048, re: 2048 });
    }
    assert_eq!(last.take().unwrap().keycode, vec![0, 0, 0, 0, 0, 0]);
    // Third window: still quiet -> no change, nothing reported.
    for _ in 0..16 {
        last = p.parse(&cfg, PiezoSample { le: 2048, lc: 2048, rc: 2048, re: 2048 });
    }
    assert!(last.is_none());
}

/// Crosstalk suppression: two channels carry the same waveform shape,
/// channel B delayed 10 samples relative to channel A; with the tie-break
/// threshold at 5, channel A remains hit and channel B is cleared.
#[test]
fn crosstalk_suppression_clears_lagging_channel() {
    let n = 64;
    let delay = 10usize;
    let w = waveform(n, 1000);
    let mut p = Parser::with_window_len(n, 0);
    let cfg = DrumConfig::default();
    let mut last = None;
    for t in 0..n {
        let a = w[t];
        let b = if t >= delay { w[t - delay] } else { 0 };
        last = p.parse(&cfg, PiezoSample { le: raw(a), lc: raw(b), rc: 2048, re: 2048 });
    }
    let report = last.expect("the evaluation at the cadence must report");
    assert_eq!(
        p.states,
        vec![true, false, false, false],
        "channel A stays hit, the lagging channel B is crosstalk"
    );
    assert_eq!(report.keycode, vec![0x1d, 0, 0, 0, 0, 0]);
}

/// Two channels carrying the very same waveform count as genuine
/// simultaneous strikes: the delay is zero, within the tie-break band.
#[test]
fn simultaneous_strikes_both_kept() {
    let n = 64;
    let w = waveform(n, 1000);
    let mut p = Parser::with_window_len(n, 0);
    let cfg = DrumConfig::default();
    let mut last = None;
    for t in 0..n {
        last = p.parse(
            &cfg,
            PiezoSample { le: raw(w[t]), lc: raw(w[t]), rc: 2048, re: 2048 },
        );
    }
    let report = last.expect("the evaluation at the cadence must report");
    assert_eq!(p.states, vec![true, true, false, false]);
    assert_eq!(report.keycode, vec![0x1d, 0x1b, 0, 0, 0, 0]);
}

#[test]
fn default_parser_shape() {
    let p = Parser::default();
    assert_eq!(p.windows.len(), 4);
    assert_eq!(p.states, vec![false, false, false, false]);
    for w in &p.windows {
        assert_eq!(w.fifo.len(), 256);
        assert_eq!(w.fifo, vec![0; 256]);
    }
}
