//! Drum configuration: the tunable detection parameters, the hit-to-keycode
//! mapping, and the tag/value byte codec used by the runtime programmer to
//! read and rewrite the configuration over the serial link.

use vstd::prelude::*;

verus! {

/// Tag byte announcing the left-kat keycode in the configuration stream.
pub const LEFTKAT: u8 = 0x10;

/// Tag byte announcing the left-don keycode in the configuration stream.
pub const LEFTDON: u8 = 0x11;

/// Tag byte announcing the right-don keycode in the configuration stream.
pub const RIGHTDON: u8 = 0x12;

/// Tag byte announcing the right-kat keycode in the configuration stream.
pub const RIGHTKAT: u8 = 0x13;

/// Tag byte announcing the sensitivity value (four big-endian bytes).
pub const SENS: u8 = 0x20;

/// Tag byte announcing the sharpness value (two big-endian bytes).
pub const SHARP: u8 = 0x21;

/// Number of bytes in a serialized configuration record.
pub const CFG_RECORD_LEN: usize = 16;

/// Individual hit mapping for each piezoelectric sensor, as HID keyboard
/// usage codes.
#[derive(Clone, Copy, Debug, PartialEq, Eq, Structural)]
pub struct HitMapping {
    pub left_kat: u8,
    pub left_don: u8,
    pub right_don: u8,
    pub right_kat: u8,
}

impl Default for HitMapping {
    /// Default mapping: the HID usages for the Z, X, C and V keys.
    fn default() -> (r: HitMapping)
        ensures
            r == (HitMapping { left_kat: 0x1d, left_don: 0x1b, right_don: 0x06, right_kat: 0x19 }),
    {
        HitMapping { left_kat: 0x1d, left_don: 0x1b, right_don: 0x06, right_kat: 0x19 }
    }
}

/// Signal processing related configuration.
#[derive(Clone, Copy, Debug, PartialEq, Eq, Structural)]
pub struct SignalParsingConfiguration {
    /// Deviation threshold as a percentage (0 to 100). The lower the value,
    /// the more sensitive the drum becomes; small values lead to spurious
    /// hits from the noise floor.
    pub sensitivity: u8,
    /// Scale divisor applied to the deviation of each extreme from the
    /// median. It shall not be too small so that proper hits can be
    /// detected, but not too big, because that causes a huge input lag.
    pub sharpness: u16,
}

impl Default for SignalParsingConfiguration {
    /// Default tuning: least sensitive threshold, moderate sharpness.
    fn default() -> (r: SignalParsingConfiguration)
        ensures
            r == (SignalParsingConfiguration { sensitivity: 100u8, sharpness: 32u16 }),
    {
        SignalParsingConfiguration { sensitivity: 100, sharpness: 32 }
    }
}

/// Drum configuration consumed by value on each parse call.
#[derive(Clone, Copy, Debug, PartialEq, Eq, Structural)]
pub struct DrumConfig {
    pub hit_mapping: HitMapping,
    pub parse_cfg: SignalParsingConfiguration,
}

impl Default for DrumConfig {
    fn default() -> (r: DrumConfig)
        ensures
            r.hit_mapping == (HitMapping {
                left_kat: 0x1d,
                left_don: 0x1b,
                right_don: 0x06,
                right_kat: 0x19,
            }),
            r.parse_cfg == (SignalParsingConfiguration { sensitivity: 100u8, sharpness: 32u16 }),
    {
        DrumConfig { hit_mapping: Default::default(), parse_cfg: Default::default() }
    }
}

/// Big-endian value of four consecutive bytes.
pub open spec fn be32(buff: Seq<u8>, i: int) -> int {
    buff[i] * 0x1000000 + buff[i + 1] * 0x10000 + buff[i + 2] * 0x100 + buff[i + 3]
}

/// Big-endian value of two consecutive bytes.
pub open spec fn be16(buff: Seq<u8>, i: int) -> int {
    buff[i] * 0x100 + buff[i + 1]
}

/// Sensitivity values above the percentage range are capped at 100.
pub open spec fn cap100(v: int) -> u8 {
    if v > 100 {
        100u8
    } else {
        v as u8
    }
}

/// A configuration is well formed when its sensitivity lies in the
/// percentage range.
pub open spec fn cfg_wf(c: DrumConfig) -> bool {
    c.parse_cfg.sensitivity <= 100
}

/// The exact byte image written for a configuration: tag/value pairs for
/// the four keycodes, then the sensitivity as four big-endian bytes, then
/// the sharpness as two big-endian bytes.
pub open spec fn spec_serialize(c: DrumConfig) -> Seq<u8> {
    seq![
        LEFTKAT,
        c.hit_mapping.left_kat,
        RIGHTDON,
        c.hit_mapping.right_don,
        LEFTDON,
        c.hit_mapping.left_don,
        RIGHTKAT,
        c.hit_mapping.right_kat,
        SENS,
        0u8,
        0u8,
        0u8,
        c.parse_cfg.sensitivity,
        SHARP,
        (c.parse_cfg.sharpness / 0x100) as u8,
        (c.parse_cfg.sharpness % 0x100) as u8,
    ]
}

/// One step of the configuration stream parser, applied on top of the
/// current configuration `c` from position `idx`. A truncated record is
/// reported as `Err(0)`; an unknown tag as `Err(tag)`.
pub open spec fn spec_deserialize(c: DrumConfig, buff: Seq<u8>, idx: int) -> Result<DrumConfig, u8>
    decreases buff.len() - idx,
{
    if idx < 0 || idx >= buff.len() {
        Ok(c)
    } else {
        let tag = buff[idx];
        if tag == LEFTKAT || tag == LEFTDON || tag == RIGHTDON || tag == RIGHTKAT {
            if idx + 1 < buff.len() {
                spec_deserialize(with_key(c, tag, buff[idx + 1]), buff, idx + 2)
            } else {
                Err(0u8)
            }
        } else if tag == SENS {
            if buff.len() - idx > 4 {
                spec_deserialize(with_sensitivity(c, cap100(be32(buff, idx + 1))), buff, idx + 5)
            } else {
                Err(0u8)
            }
        } else if tag == SHARP {
            if buff.len() - idx > 2 {
                spec_deserialize(with_sharpness(c, be16(buff, idx + 1) as u16), buff, idx + 3)
            } else {
                Err(0u8)
            }
        } else {
            Err(tag)
        }
    }
}

/// The configuration with one keycode replaced, selected by its tag.
pub open spec fn with_key(c: DrumConfig, tag: u8, key: u8) -> DrumConfig {
    if tag == LEFTKAT {
        DrumConfig { hit_mapping: HitMapping { left_kat: key, ..c.hit_mapping }, ..c }
    } else if tag == LEFTDON {
        DrumConfig { hit_mapping: HitMapping { left_don: key, ..c.hit_mapping }, ..c }
    } else if tag == RIGHTDON {
        DrumConfig { hit_mapping: HitMapping { right_don: key, ..c.hit_mapping }, ..c }
    } else {
        DrumConfig { hit_mapping: HitMapping { right_kat: key, ..c.hit_mapping }, ..c }
    }
}

/// The configuration with the sensitivity replaced.
pub open spec fn with_sensitivity(c: DrumConfig, s: u8) -> DrumConfig {
    DrumConfig {
        parse_cfg: SignalParsingConfiguration { sensitivity: s, ..c.parse_cfg },
        ..c
    }
}

/// The configuration with the sharpness replaced.
pub open spec fn with_sharpness(c: DrumConfig, s: u16) -> DrumConfig {
    DrumConfig {
        parse_cfg: SignalParsingConfiguration { sharpness: s, ..c.parse_cfg },
        ..c
    }
}

impl DrumConfig {
    /// Serializes the configuration in the record format scanned by the
    /// host-side utility.
    pub fn serialize(&self) -> (r: Vec<u8>)
        ensures
            r@ == spec_serialize(*self),
            r@.len() == CFG_RECORD_LEN,
    {
        let mut r: Vec<u8> = Vec::new();
        r.push(LEFTKAT);
        r.push(self.hit_mapping.left_kat);
        r.push(RIGHTDON);
        r.push(self.hit_mapping.right_don);
        r.push(LEFTDON);
        r.push(self.hit_mapping.left_don);
        r.push(RIGHTKAT);
        r.push(self.hit_mapping.right_kat);
        r.push(SENS);
        r.push(0);
        r.push(0);
        r.push(0);
        r.push(self.parse_cfg.sensitivity);
        r.push(SHARP);
        r.push((self.parse_cfg.sharpness / 0x100) as u8);
        r.push((self.parse_cfg.sharpness % 0x100) as u8);
        proof {
            assert(r@ =~= spec_serialize(*self));
        }
        r
    }

    /// Mutates a copy of the current configuration according to the
    /// tag/value stream in `buff`. Reports `Err(0)` for a record truncated
    /// inside a value, and `Err(tag)` for an unknown tag byte.
    pub fn deserialize(&self, buff: &Vec<u8>) -> (r: Result<DrumConfig, u8>)
        ensures
            r == spec_deserialize(*self, buff@, 0),
            r matches Ok(c) ==> (cfg_wf(*self) ==> cfg_wf(c)),
    {
        let mut cfg = *self;
        let mut idx: usize = 0;
        loop
            invariant
                spec_deserialize(*self, buff@, 0) == spec_deserialize(cfg, buff@, idx as int),
                cfg_wf(*self) ==> cfg_wf(cfg),
            decreases buff@.len() - idx,
        {
            if idx >= buff.len() {
                return Ok(cfg);
            }
            let tag = buff[idx];
            if tag == LEFTKAT || tag == LEFTDON || tag == RIGHTDON || tag == RIGHTKAT {
                if idx + 1 < buff.len() {
                    let key = buff[idx + 1];
                    if tag == LEFTKAT {
                        cfg.hit_mapping.left_kat = key;
                    } else if tag == LEFTDON {
                        cfg.hit_mapping.left_don = key;
                    } else if tag == RIGHTDON {
                        cfg.hit_mapping.right_don = key;
                    } else {
                        cfg.hit_mapping.right_kat = key;
                    }
                    idx = idx + 2;
                } else {
                    return Err(0);
                }
            } else if tag == SENS {
                if buff.len() - idx > 4 {
                    let v: u32 = (buff[idx + 1] as u32) * 0x1000000 + (buff[idx + 2] as u32)
                        * 0x10000 + (buff[idx + 3] as u32) * 0x100 + (buff[idx + 4] as u32);
                    cfg.parse_cfg.sensitivity = if v > 100 {
                        100
                    } else {
                        v as u8
                    };
                    proof {
                        assert(v == be32(buff@, idx + 1));
                    }
                    idx = idx + 5;
                } else {
                    return Err(0);
                }
            } else if tag == SHARP {
                if buff.len() - idx > 2 {
                    let v: u16 = (buff[idx + 1] as u16) * 0x100 + (buff[idx + 2] as u16);
                    cfg.parse_cfg.sharpness = v;
                    idx = idx + 3;
                } else {
                    return Err(0);
                }
            } else {
                return Err(tag);
            }
        }
    }
}

/// Round trip: parsing a serialized configuration on top of any base
/// configuration reproduces the serialized one exactly (well-formed
/// configurations keep their sensitivity within the percentage range, so
/// the cap on parsing is the identity).
pub proof fn lemma_config_round_trip(base: DrumConfig, c: DrumConfig)
    requires
        cfg_wf(c),
    ensures
        spec_deserialize(base, spec_serialize(c), 0) == Ok::<DrumConfig, u8>(c),
{
    let s = spec_serialize(c);
    let c1 = with_key(base, LEFTKAT, c.hit_mapping.left_kat);
    let c2 = with_key(c1, RIGHTDON, c.hit_mapping.right_don);
    let c3 = with_key(c2, LEFTDON, c.hit_mapping.left_don);
    let c4 = with_key(c3, RIGHTKAT, c.hit_mapping.right_kat);
    let c5 = with_sensitivity(c4, cap100(be32(s, 9)));
    let c6 = with_sharpness(c5, be16(s, 14) as u16);
    assert(be32(s, 9) == c.parse_cfg.sensitivity);
    assert(be16(s, 14) == c.parse_cfg.sharpness) by {
        let sh = c.parse_cfg.sharpness;
        assert(sh == (sh / 0x100) * 0x100 + sh % 0x100);
        assert(sh / 0x100 < 0x100);
    }
    assert(spec_deserialize(base, s, 0) == spec_deserialize(c1, s, 2));
    assert(spec_deserialize(c1, s, 2) == spec_deserialize(c2, s, 4));
    assert(spec_deserialize(c2, s, 4) == spec_deserialize(c3, s, 6));
    assert(spec_deserialize(c3, s, 6) == spec_deserialize(c4, s, 8));
    assert(spec_deserialize(c4, s, 8) == spec_deserialize(c5, s, 13));
    assert(spec_deserialize(c5, s, 13) == spec_deserialize(c6, s, 16));
    assert(spec_deserialize(c6, s, 16) == Ok::<DrumConfig, u8>(c6));
    assert(c6 == c);
}

} // verus!
