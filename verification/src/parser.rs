//! Per-channel threshold detector.
//!
//! Performs complete analysis of the samples arriving from the
//! piezoelectric sensors: every composite sample feeds four sliding
//! statistic windows, and once per window length the deviation of each
//! channel's extremes from its median decides the per-channel hit state.
//! When two or more channels trip together, pairwise cross-correlation
//! suppresses the lagging (crosstalk) channel. A report is produced only
//! when the overall hit state differs from what was last reported.

use vstd::prelude::*;
use vstd::math::abs;

use crate::cfg::{DrumConfig, HitMapping};
use crate::cross_correlation::{xcorr, xcorr_delay, MAX_FFT_LEN};
use crate::hid::{pad6, DrumHitStrokeHidReport};
use crate::is_pow2;
use crate::piezo::PiezoSample;
use crate::window::{ordered, SampleWindow};

verus! {

/// Midpoint of the 12-bit conversion range; readings are centered around
/// it before entering the windows.
pub const MID_RANGE: i16 = 2048;

/// Window length per channel, based on each piezo signal lasting around
/// 1 to 2 ms at the sampling cadence in use.
pub const WINDOW_SIZE: usize = 256;

/// Delays whose magnitude stays within this band count as genuine
/// simultaneous strikes; larger delays mark the lagging channel as
/// crosstalk.
pub const TIE_BREAK_DELAY: isize = 5;

/// Saturation of an integer into the signed 16-bit range.
pub open spec fn sat16(v: int) -> i16 {
    if v > 0x7fff {
        0x7fffi16
    } else if v < -0x8000 {
        (-0x8000) as i16
    } else {
        v as i16
    }
}

/// A raw reading centered on the signal midpoint, saturating instead of
/// trapping on readings beyond the converter's range.
pub open spec fn centered(raw: u16) -> i16 {
    sat16(raw - MID_RANGE)
}

/// Whether `value` deviates from `median`, relative to the `scale`
/// divisor, by more than `percent` hundredths: exactly the comparison
/// |value - median| / scale > percent / 100 over the rationals.
pub open spec fn deviation_exceeds(median: i16, value: i16, scale: u16, percent: u8) -> bool {
    100 * abs(value - median) > (percent as int) * (scale as int)
}

/// Whether a window's statistics trip the detector: either extreme
/// deviates from the median by more than the configured threshold.
#[verifier::opaque]
pub open spec fn window_hit(fifo: Seq<i16>, sharpness: u16, sensitivity: u8) -> bool {
    let s = ordered(fifo);
    let med = s[fifo.len() as int / 2];
    deviation_exceeds(med, s[fifo.len() as int - 1], sharpness, sensitivity)
        || deviation_exceeds(med, s[0], sharpness, sensitivity)
}

/// The median of a window's contents: the middle entry of their sorted
/// arrangement.
pub open spec fn median_of(fifo: Seq<i16>) -> i16 {
    ordered(fifo)[fifo.len() as int / 2]
}

/// The cross-correlation delay of channel `j` relative to channel `i`,
/// each signal centered by its own median.
pub open spec fn pair_delay(ws: Seq<Seq<i16>>, i: int, j: int) -> int {
    xcorr_delay(ws[j], median_of(ws[j]), ws[i], median_of(ws[i]))
}

/// One pairwise disambiguation step: when both channels of the pair are
/// still flagged, the delay between them beyond the tie-break band clears
/// the lagging channel; a cleared channel drops out of later pairs.
#[verifier::opaque]
pub open spec fn disamb_step(states: Seq<bool>, ws: Seq<Seq<i16>>, i: int, j: int) -> Seq<bool> {
    if states[i] && states[j] {
        let d = pair_delay(ws, i, j);
        if d > TIE_BREAK_DELAY as int {
            states.update(j, false)
        } else if d < -(TIE_BREAK_DELAY as int) {
            states.update(i, false)
        } else {
            states
        }
    } else {
        states
    }
}

/// Crosstalk decision rule for one pair of channels that both evaluate
/// as hit: a delay beyond the tie-break band clears exactly the lagging
/// channel and keeps the leading one; a delay within the band keeps both
/// as genuine simultaneous strikes.
pub proof fn lemma_tie_break_clears_lagging(states: Seq<bool>, ws: Seq<Seq<i16>>, i: int, j: int)
    requires
        0 <= i < states.len(),
        0 <= j < states.len(),
        i != j,
        states[i],
        states[j],
    ensures
        pair_delay(ws, i, j) > TIE_BREAK_DELAY as int ==> disamb_step(states, ws, i, j)
            == states.update(j, false) && disamb_step(states, ws, i, j)[i],
        pair_delay(ws, i, j) < -(TIE_BREAK_DELAY as int) ==> disamb_step(states, ws, i, j)
            == states.update(i, false) && disamb_step(states, ws, i, j)[j],
        -(TIE_BREAK_DELAY as int) <= pair_delay(ws, i, j) <= TIE_BREAK_DELAY as int
            ==> disamb_step(states, ws, i, j) == states,
{
    reveal(disamb_step);
}

/// Every unordered channel pair compared in order; clearing a channel
/// removes it from consideration for the pairs that follow.
pub open spec fn disambiguated(states: Seq<bool>, ws: Seq<Seq<i16>>) -> Seq<bool> {
    disamb_step(
        disamb_step(
            disamb_step(
                disamb_step(disamb_step(disamb_step(states, ws, 0, 1), ws, 0, 2), ws, 0, 3),
                ws,
                1,
                2,
            ),
            ws,
            1,
            3,
        ),
        ws,
        2,
        3,
    )
}

/// The per-channel hit states decided by one cadence evaluation, before
/// disambiguation.
pub open spec fn stage1_states(ws: Seq<Seq<i16>>, sharpness: u16, sensitivity: u8) -> Seq<bool> {
    Seq::new(4, |ch: int| window_hit(ws[ch], sharpness, sensitivity))
}

/// The second stage runs only when some channel newly transitions to hit.
pub open spec fn needs_second_stage(old_states: Seq<bool>, s1: Seq<bool>) -> bool {
    exists|ch: int| 0 <= ch < 4 && s1[ch] && !old_states[ch]
}

/// The complete hit-state decision of one cadence evaluation: adaptive
/// thresholds per channel, then pairwise crosstalk suppression when at
/// least one channel newly trips.
pub open spec fn parse_states(
    old_states: Seq<bool>,
    ws: Seq<Seq<i16>>,
    sharpness: u16,
    sensitivity: u8,
) -> Seq<bool> {
    let s1 = stage1_states(ws, sharpness, sensitivity);
    if needs_second_stage(old_states, s1) {
        disambiguated(s1, ws)
    } else {
        s1
    }
}

/// The keycode, as a one-element sequence, of a channel that is hit, and
/// nothing for a quiet channel.
pub open spec fn maybe_key(hit: bool, key: u8) -> Seq<u8> {
    if hit {
        seq![key]
    } else {
        Seq::<u8>::empty()
    }
}

/// The keycodes of the currently hit channels, in channel order.
pub open spec fn pressed_keys(states: Seq<bool>, hm: HitMapping) -> Seq<u8> {
    maybe_key(states[0], hm.left_kat) + maybe_key(states[1], hm.left_don) + maybe_key(
        states[2],
        hm.right_don,
    ) + maybe_key(states[3], hm.right_kat)
}

/// Checks whether either extreme of a window deviates too far from the
/// median: the exact rational comparison |extreme - median| / scale >
/// percent / 100, carried out in integers.
pub fn check_deviation(median: i16, min_val: i16, max_val: i16, scale: u16, percent: u8) -> (r:
    bool)
    ensures
        r == (deviation_exceeds(median, max_val, scale, percent) || deviation_exceeds(
            median,
            min_val,
            scale,
            percent,
        )),
{
    let max_d: i64 = max_val as i64 - median as i64;
    let max_d: i64 = if max_d < 0 {
        -max_d
    } else {
        max_d
    };
    let min_d: i64 = min_val as i64 - median as i64;
    let min_d: i64 = if min_d < 0 {
        -min_d
    } else {
        min_d
    };
    proof {
        assert((percent as int) * (scale as int) <= 0x1000000) by (nonlinear_arith)
            requires
                percent as int <= 0x100,
                scale as int <= 0x10000,
        ;
        assert((percent as int) * (scale as int) >= 0) by (nonlinear_arith)
            requires
                percent as int >= 0,
                scale as int >= 0,
        ;
    }
    let lim: i64 = percent as i64 * scale as i64;
    100 * max_d > lim || 100 * min_d > lim
}

/// Logical structure that performs complete analysis of the upcoming
/// samples from the piezoelectric sensors.
pub struct Parser {
    /// Sliding windows of samples, one per sensor.
    pub windows: Vec<SampleWindow>,
    /// Four booleans representing the current state of the four hit spots.
    pub states: Vec<bool>,
}

impl Parser {
    /// Length of every channel window.
    pub open spec fn window_len(self) -> nat {
        self.windows@[0].n()
    }

    /// The shared write cursor of the four windows.
    pub open spec fn cursor(self) -> nat {
        self.windows@[0].index_fifo as nat
    }

    /// The four window contents, in channel order.
    pub open spec fn fifos(self) -> Seq<Seq<i16>> {
        Seq::new(4, |ch: int| self.windows@[ch].fifo@)
    }

    /// Detector invariant: four well-formed windows of one power-of-two
    /// length within the transform's range, advancing in lock-step, and
    /// one hit flag per channel.
    pub open spec fn wf(self) -> bool {
        &&& self.windows@.len() == 4
        &&& self.states@.len() == 4
        &&& forall|ch: int| 0 <= ch < 4 ==> (#[trigger] self.windows@[ch]).wf()
        &&& forall|ch: int|
            0 <= ch < 4 ==> (#[trigger] self.windows@[ch]).n() == self.windows@[0].n()
        &&& forall|ch: int|
            0 <= ch < 4 ==> (#[trigger] self.windows@[ch]).index_fifo
                == self.windows@[0].index_fifo
        &&& 2 <= self.window_len() <= MAX_FFT_LEN
    }

    /// Builds a detector whose four windows have the given power-of-two
    /// length and start filled with `filler`.
    pub fn with_window_len(n: usize, filler: i16) -> (p: Parser)
        requires
            is_pow2(n as nat),
            2 <= n <= MAX_FFT_LEN,
        ensures
            p.wf(),
            p.window_len() == n,
            p.cursor() == 0,
            p.states@ == seq![false, false, false, false],
            forall|ch: int|
                0 <= ch < 4 ==> p.fifos()[ch] == Seq::new(n as nat, |i: int| filler),
    {
        let mut windows: Vec<SampleWindow> = Vec::new();
        windows.push(SampleWindow::new(n, filler));
        windows.push(SampleWindow::new(n, filler));
        windows.push(SampleWindow::new(n, filler));
        windows.push(SampleWindow::new(n, filler));
        let mut states: Vec<bool> = Vec::new();
        states.push(false);
        states.push(false);
        states.push(false);
        states.push(false);
        let p = Parser { windows, states };
        proof {
            assert(p.states@ =~= seq![false, false, false, false]);
        }
        p
    }

    /// Currently pressed keys mapped into a HID report.
    pub fn current(&self, hit_mapping: HitMapping) -> (r: DrumHitStrokeHidReport)
        requires
            self.states@.len() == 4,
        ensures
            r.wf(),
            r.keycode@ == pad6(pressed_keys(self.states@, hit_mapping)),
    {
        let mut keys: Vec<u8> = Vec::new();
        if self.states[0] {
            keys.push(hit_mapping.left_kat);
        }
        if self.states[1] {
            keys.push(hit_mapping.left_don);
        }
        if self.states[2] {
            keys.push(hit_mapping.right_don);
        }
        if self.states[3] {
            keys.push(hit_mapping.right_kat);
        }
        proof {
            assert(keys@ =~= pressed_keys(self.states@, hit_mapping));
        }
        DrumHitStrokeHidReport::new(&keys)
    }

    /// Parses an upcoming sample and returns a report when the overall
    /// hit state changed.
    ///
    /// Every call stores one centered reading per channel. Once per
    /// window length — when the shared cursor wraps — the adaptive
    /// deviation check decides each channel's hit state, crosstalk
    /// suppression arbitrates simultaneous new hits, and a report is
    /// emitted exactly when the resulting state differs from the previous
    /// one.
    #[verifier::rlimit(80)]
    pub fn parse(&mut self, cfg: &DrumConfig, sample: PiezoSample) -> (r: Option<
        DrumHitStrokeHidReport,
    >)
        requires
            old(self).wf(),
        ensures
            final(self).wf(),
            final(self).window_len() == old(self).window_len(),
            forall|ch: int|
                0 <= ch < 4 ==> final(self).fifos()[ch] == old(self).fifos()[ch].update(
                    old(self).cursor() as int,
                    centered(sample.channels()[ch]),
                ),
            final(self).cursor() == if old(self).cursor() + 1 == old(self).window_len() {
                0int
            } else {
                old(self).cursor() as int + 1
            },
            old(self).cursor() + 1 < old(self).window_len() ==> final(self).states@
                == old(self).states@ && r is None,
            old(self).cursor() + 1 == old(self).window_len() ==> final(self).states@
                == parse_states(
                old(self).states@,
                final(self).fifos(),
                cfg.parse_cfg.sharpness,
                cfg.parse_cfg.sensitivity,
            ),
            r is Some <==> (old(self).cursor() + 1 == old(self).window_len()
                && final(self).states@ != old(self).states@),
            r matches Some(rep) ==> rep.wf() && rep.keycode@ == pad6(
                pressed_keys(final(self).states@, cfg.hit_mapping),
            ),
    {
        let sharp = cfg.parse_cfg.sharpness;
        let sens = cfg.parse_cfg.sensitivity;
        let ghost prev = *self;

        // Stage 1: store the centered reading of every channel.
        self.store_sample(sample);

        // The detection cadence: evaluate only when the cursor has just
        // wrapped to zero, once every window length.
        if self.windows[0].index_fifo != 0 {
            return None;
        }

        let ghost ws = self.fifos();
        let p0 = self.states[0];
        let p1 = self.states[1];
        let p2 = self.states[2];
        let p3 = self.states[3];

        // Adaptive deviation check per channel; a transition to hit in
        // any channel requests the second stage.
        let h0 = eval_channel(&self.windows[0], sharp, sens);
        let h1 = eval_channel(&self.windows[1], sharp, sens);
        let h2 = eval_channel(&self.windows[2], sharp, sens);
        let h3 = eval_channel(&self.windows[3], sharp, sens);
        let second_stage = (h0 && !p0) || (h1 && !p1) || (h2 && !p2) || (h3 && !p3);
        self.states[0] = h0;
        self.states[1] = h1;
        self.states[2] = h2;
        self.states[3] = h3;
        proof {
            assert(self.states@ =~= stage1_states(ws, sharp, sens));
            assert(second_stage == needs_second_stage(prev.states@, self.states@));
        }

        // Stage 2: pairwise cross-correlation. A delayed hit is more
        // likely to be sensor crosstalk, so the lagging channel of a pair
        // whose delay exceeds the tie-break band is cleared.
        if second_stage {
            let ghost s1 = self.states@;
            self.disambiguate_pair(0, 1);
            self.disambiguate_pair(0, 2);
            self.disambiguate_pair(0, 3);
            self.disambiguate_pair(1, 2);
            self.disambiguate_pair(1, 3);
            self.disambiguate_pair(2, 3);
            proof {
                assert(self.states@ == disambiguated(s1, ws));
            }
        }

        // A report goes out exactly when the overall state changed from
        // what was last reported.
        let changed = self.states[0] != p0 || self.states[1] != p1 || self.states[2] != p2
            || self.states[3] != p3;
        if changed {
            Some(self.current(cfg.hit_mapping))
        } else {
            proof {
                assert(self.states@ =~= prev.states@);
            }
            None
        }
    }

    /// Stores the centered reading of every channel into its window; the
    /// four windows advance in lock-step.
    fn store_sample(&mut self, sample: PiezoSample)
        requires
            old(self).wf(),
        ensures
            final(self).wf(),
            final(self).window_len() == old(self).window_len(),
            final(self).states@ == old(self).states@,
            forall|ch: int|
                0 <= ch < 4 ==> final(self).fifos()[ch] == old(self).fifos()[ch].update(
                    old(self).cursor() as int,
                    centered(sample.channels()[ch]),
                ),
            final(self).cursor() == if old(self).cursor() + 1 == old(self).window_len() {
                0int
            } else {
                old(self).cursor() as int + 1
            },
    {
        let ghost prev = *self;
        self.windows[0].store(center_reading(sample.le));
        self.windows[1].store(center_reading(sample.lc));
        self.windows[2].store(center_reading(sample.rc));
        self.windows[3].store(center_reading(sample.re));
        proof {
            assert(self.fifos()[0] == prev.fifos()[0].update(
                prev.cursor() as int,
                centered(sample.channels()[0]),
            ));
            assert(self.fifos()[1] == prev.fifos()[1].update(
                prev.cursor() as int,
                centered(sample.channels()[1]),
            ));
            assert(self.fifos()[2] == prev.fifos()[2].update(
                prev.cursor() as int,
                centered(sample.channels()[2]),
            ));
            assert(self.fifos()[3] == prev.fifos()[3].update(
                prev.cursor() as int,
                centered(sample.channels()[3]),
            ));
        }
    }

    /// Compares one pair of still-flagged channels and clears the lagging
    /// one when the delay between them exceeds the tie-break band.
    fn disambiguate_pair(&mut self, i: usize, j: usize)
        requires
            old(self).wf(),
            i < 4,
            j < 4,
            i != j,
        ensures
            final(self).wf(),
            final(self).windows == old(self).windows,
            final(self).states@ == disamb_step(old(self).states@, old(self).fifos(), i as int, j as int),
    {
        proof {
            reveal(disamb_step);
        }
        if self.states[i] && self.states[j] {
            let med_j = self.windows[j].threshold();
            let med_i = self.windows[i].threshold();
            let delay = xcorr(&self.windows[j].fifo, med_j, &self.windows[i].fifo, med_i);
            if delay > TIE_BREAK_DELAY {
                self.states[j] = false;
                proof {
                    assert(self.states@ =~= old(self).states@.update(j as int, false));
                }
            } else if delay < -TIE_BREAK_DELAY {
                self.states[i] = false;
                proof {
                    assert(self.states@ =~= old(self).states@.update(i as int, false));
                }
            }
        }
    }
}

impl Default for Parser {
    /// A detector with default-size windows filled with the neutral
    /// center value, all channels quiet.
    fn default() -> (p: Parser)
        ensures
            p.wf(),
            p.window_len() == WINDOW_SIZE,
            p.cursor() == 0,
            p.states@ == seq![false, false, false, false],
            forall|ch: int|
                0 <= ch < 4 ==> p.fifos()[ch] == Seq::new(WINDOW_SIZE as nat, |i: int| 0i16),
    {
        proof {
            reveal_with_fuel(is_pow2, 10);
        }
        Parser::with_window_len(WINDOW_SIZE, 0)
    }
}

/// Evaluates one window against the adaptive deviation threshold.
fn eval_channel(w: &SampleWindow, sharp: u16, sens: u8) -> (r: bool)
    requires
        w.wf(),
    ensures
        r == window_hit(w.fifo@, sharp, sens),
{
    proof {
        reveal(window_hit);
    }
    check_deviation(w.threshold(), w.min(), w.max(), sharp, sens)
}

/// Centers a raw reading on the signal midpoint, saturating on readings
/// beyond the signed 16-bit range.
fn center_reading(raw: u16) -> (r: i16)
    ensures
        r == centered(raw),
{
    let c: i32 = raw as i32 - MID_RANGE as i32;
    if c > 0x7fff {
        0x7fff
    } else {
        c as i16
    }
}

} // verus!
