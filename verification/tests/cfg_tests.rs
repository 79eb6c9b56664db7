use taiko_hid::cfg::{DrumConfig, HitMapping, SignalParsingConfiguration};

#[test]
fn default_configuration() {
    let cfg = DrumConfig::default();
    assert_eq!(cfg.hit_mapping.left_kat, 0x1d);
    assert_eq!(cfg.hit_mapping.left_don, 0x1b);
    assert_eq!(cfg.hit_mapping.right_don, 0x06);
    assert_eq!(cfg.hit_mapping.right_kat, 0x19);
    assert_eq!(cfg.parse_cfg.sensitivity, 100);
    assert_eq!(cfg.parse_cfg.sharpness, 32);
}

#[test]
fn serialize_exact_bytes() {
    let cfg = DrumConfig::default();
    let bytes = cfg.serialize();
    assert_eq!(
        bytes,
        vec![
            0x10, 0x1d, // left kat
            0x12, 0x06, // right don
            0x11, 0x1b, // left don
            0x13, 0x19, // right kat
            0x20, 0, 0, 0, 100, // sensitivity, big endian
            0x21, 0, 32, // sharpness, big endian
        ]
    );
}

#[test]
fn round_trip() {
    let cfg = DrumConfig {
        hit_mapping: HitMapping {
            left_kat: 0x04,
            left_don: 0x05,
            right_don: 0x06,
            right_kat: 0x07,
        },
        parse_cfg: SignalParsingConfiguration {
            sensitivity: 73,
            sharpness: 999,
        },
    };
    let bytes = cfg.serialize();
    let back = DrumConfig::default().deserialize(&bytes).unwrap();
    assert_eq!(back, cfg);
}

#[test]
fn deserialize_unknown_tag() {
    let cfg = DrumConfig::default();
    assert_eq!(cfg.deserialize(&vec![0x42]), Err(0x42));
}

#[test]
fn deserialize_truncated_key() {
    let cfg = DrumConfig::default();
    assert_eq!(cfg.deserialize(&vec![0x10]), Err(0));
}

#[test]
fn deserialize_truncated_sensitivity() {
    let cfg = DrumConfig::default();
    assert_eq!(cfg.deserialize(&vec![0x20, 0, 0, 0]), Err(0));
}

#[test]
fn deserialize_truncated_sharpness() {
    let cfg = DrumConfig::default();
    assert_eq!(cfg.deserialize(&vec![0x21, 1]), Err(0));
}

#[test]
fn deserialize_caps_sensitivity() {
    let cfg = DrumConfig::default();
    // 0x00010000 = 65536, far above the percentage range.
    let got = cfg.deserialize(&vec![0x20, 0x00, 0x01, 0x00, 0x00]).unwrap();
    assert_eq!(got.parse_cfg.sensitivity, 100);
    let got = cfg.deserialize(&vec![0x20, 0x00, 0x00, 0x00, 0x2a]).unwrap();
    assert_eq!(got.parse_cfg.sensitivity, 42);
}

#[test]
fn deserialize_sharpness_big_endian() {
    let cfg = DrumConfig::default();
    let got = cfg.deserialize(&vec![0x21, 0x01, 0x02]).unwrap();
    assert_eq!(got.parse_cfg.sharpness, 258);
}

#[test]
fn deserialize_updates_one_key_only() {
    let cfg = DrumConfig::default();
    let got = cfg.deserialize(&vec![0x11, 0x2c]).unwrap();
    assert_eq!(got.hit_mapping.left_don, 0x2c);
    assert_eq!(got.hit_mapping.left_kat, cfg.hit_mapping.left_kat);
    assert_eq!(got.hit_mapping.right_don, cfg.hit_mapping.right_don);
    assert_eq!(got.hit_mapping.right_kat, cfg.hit_mapping.right_kat);
    assert_eq!(got.parse_cfg, cfg.parse_cfg);
}

#[test]
fn deserialize_empty_is_identity() {
    let cfg = DrumConfig::default();
    assert_eq!(cfg.deserialize(&Vec::new()), Ok(cfg));
}
