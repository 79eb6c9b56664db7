//! HID report contents for drum hit strokes: the keycode payload of a
//! boot-keyboard style input report, filled from the currently hit
//! channels. Descriptor framing and USB delivery belong to the device
//! layer around this library.

use vstd::prelude::*;

verus! {

/// Number of keycode slots in one report.
pub const REPORT_KEYS: usize = 6;

/// The first six keys, padded with zeroes to the fixed report width.
pub open spec fn pad6(keys: Seq<u8>) -> Seq<u8> {
    Seq::new(6, |i: int| if i < keys.len() { keys[i] } else { 0u8 })
}

/// Drum stroke HID report payload.
///
/// Acts as a keyboard device that sends keycodes mapped to the hit strokes
/// obtained from the four drum sensors.
#[derive(Debug, PartialEq, Eq)]
pub struct DrumHitStrokeHidReport {
    pub modifier: u8,
    pub reserved: u8,
    pub leds: u8,
    pub keycode: Vec<u8>,
}

impl DrumHitStrokeHidReport {
    /// A report payload is well formed when it has exactly six keycode
    /// slots and clear modifier, reserved and LED bytes.
    pub open spec fn wf(self) -> bool {
        &&& self.modifier == 0
        &&& self.reserved == 0
        &&& self.leds == 0
        &&& self.keycode@.len() == 6
    }

    /// Generates a new keystroke report from the provided pressed keys.
    /// At most six keys fit in a report; further keys are ignored.
    pub fn new(keys: &Vec<u8>) -> (r: DrumHitStrokeHidReport)
        ensures
            r.wf(),
            r.keycode@ == pad6(keys@),
    {
        let mut keycode: Vec<u8> = Vec::new();
        let mut i: usize = 0;
        while i < 6
            invariant
                i <= 6,
                keycode@.len() == i,
                forall|k: int| 0 <= k < i ==> keycode@[k] == pad6(keys@)[k],
            decreases 6 - i,
        {
            if i < keys.len() {
                keycode.push(keys[i]);
            } else {
                keycode.push(0);
            }
            i = i + 1;
        }
        proof {
            assert(keycode@ =~= pad6(keys@));
        }
        DrumHitStrokeHidReport { modifier: 0, reserved: 0, leds: 0, keycode }
    }

    /// Constructs an empty report, which releases all keys when sent.
    pub fn empty() -> (r: DrumHitStrokeHidReport)
        ensures
            r.wf(),
            r.keycode@ == pad6(Seq::<u8>::empty()),
    {
        let keys: Vec<u8> = Vec::new();
        DrumHitStrokeHidReport::new(&keys)
    }
}

} // verus!
