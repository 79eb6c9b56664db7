use taiko_hid::version::version_to_bcd;

#[test]
fn major_minor_patch() {
    assert_eq!(version_to_bcd("1.2.3"), 0x0102);
}

#[test]
fn major_minor() {
    assert_eq!(version_to_bcd("0.1"), 0x0001);
    assert_eq!(version_to_bcd("1.2"), 0x0102);
}

#[test]
fn multi_digit_segments() {
    assert_eq!(version_to_bcd("12.34"), 0x0c22);
    assert_eq!(version_to_bcd("255.255.9"), 0xffff);
}

#[test]
fn major_only() {
    assert_eq!(version_to_bcd("5"), 0x0500);
}

#[test]
fn empty_version() {
    assert_eq!(version_to_bcd(""), 0x0000);
}
