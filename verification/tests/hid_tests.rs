use taiko_hid::hid::{DrumHitStrokeHidReport, REPORT_KEYS};

#[test]
fn report_pads_missing_keys_with_zero() {
    let report = DrumHitStrokeHidReport::new(&vec![0x1d, 0x1b]);
    assert_eq!(report.keycode, vec![0x1d, 0x1b, 0, 0, 0, 0]);
    assert_eq!(report.modifier, 0);
    assert_eq!(report.reserved, 0);
    assert_eq!(report.leds, 0);
}

#[test]
fn report_ignores_keys_beyond_capacity() {
    let keys = vec![1, 2, 3, 4, 5, 6, 7, 8];
    let report = DrumHitStrokeHidReport::new(&keys);
    assert_eq!(report.keycode.len(), REPORT_KEYS);
    assert_eq!(report.keycode, vec![1, 2, 3, 4, 5, 6]);
}

#[test]
fn empty_report_releases_all_keys() {
    let report = DrumHitStrokeHidReport::empty();
    assert_eq!(report.keycode, vec![0; 6]);
}
