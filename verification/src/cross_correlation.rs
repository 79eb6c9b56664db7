//! FFT-based cross-correlation.
//!
//! The delay between two similar signals is estimated in the frequency
//! domain: both signals are transformed, one spectrum is multiplied by the
//! conjugate of the other, and the inverse transform of that product peaks
//! at the index corresponding to the time delay. The library's own
//! arithmetic around the transform saturates, and the transform itself is
//! handed only values within the band that its fixed-point butterflies
//! accept without overflowing, so no input can trap in an
//! interrupt-adjacent context.

use vstd::prelude::*;

use crate::is_pow2;

verus! {

/// Largest transform length the fixed-point FFT supports.
pub const MAX_FFT_LEN: usize = 1024;

/// Largest component magnitude handed to the transform.
///
/// With the scaled forward and the inverse directions, every butterfly
/// halves both of its operands before adding, so complex magnitudes grow
/// only by rounding — under three units per stage, at most ten stages.
/// Components within this band keep every magnitude under
/// `sqrt(2) * 16384 + 30 < 23201`, so no intermediate sum can leave the
/// signed 16-bit range.
pub const FFT_COMPONENT_LIMIT: i16 = 16384;

/// A complex value whose components both lie within the transform's band.
pub open spec fn in_band(z: (i16, i16)) -> bool {
    &&& -(FFT_COMPONENT_LIMIT as int) <= z.0 <= FFT_COMPONENT_LIMIT as int
    &&& -(FFT_COMPONENT_LIMIT as int) <= z.1 <= FFT_COMPONENT_LIMIT as int
}

/// What `fixed_fft::fft_radix2_q15` leaves in its buffer: a pure function
/// of the buffer contents and the chosen direction alone.
pub uninterp spec fn fft_of(forward: bool, s: Seq<(i16, i16)>) -> Seq<(i16, i16)>;

/// Relies on `fixed_fft::fft_radix2_q15`: an in-place radix-2 Q15
/// transform (scaled forward, or inverse) whose output depends only on
/// the buffer contents and the direction; it keeps the buffer length and
/// succeeds for every power-of-two length between 2 and 1024. Its
/// butterflies add halved operands with plain 16-bit `+`, so inputs are
/// admitted only within the band under which no such sum can overflow
/// (see `FFT_COMPONENT_LIMIT`); within it the call neither fails nor
/// panics.
#[verifier::external_body]
fn fft_q15(buf: &mut Vec<(i16, i16)>, forward: bool)
    requires
        is_pow2(old(buf)@.len()),
        2 <= old(buf)@.len() <= MAX_FFT_LEN,
        forall|i: int| 0 <= i < old(buf)@.len() ==> in_band(#[trigger] old(buf)@[i]),
    ensures
        final(buf)@ == fft_of(forward, old(buf)@),
        final(buf)@.len() == old(buf)@.len(),
{
    let mut data: Vec<num_complex::Complex<i16>> = buf
        .iter()
        .map(|p| num_complex::Complex::new(p.0, p.1))
        .collect();
    let dir = if forward {
        fixed_fft::Direction::ForwardScaled
    } else {
        fixed_fft::Direction::Inverse
    };
    fixed_fft::fft_radix2_q15(&mut data, dir).unwrap();
    for (slot, z) in buf.iter_mut().zip(data.iter()) {
        *slot = (z.re, z.im);
    }
}

/// Saturation of an integer into the transform's admissible band.
pub open spec fn sat_band(v: int) -> i16 {
    if v > FFT_COMPONENT_LIMIT as int {
        FFT_COMPONENT_LIMIT
    } else if v < -(FFT_COMPONENT_LIMIT as int) {
        (-(FFT_COMPONENT_LIMIT as int)) as i16
    } else {
        v as i16
    }
}

/// A signal centered by saturating subtraction of its median, laid out as
/// complex values with zero imaginary parts, within the transform's band.
pub open spec fn center_samples(s: Seq<i16>, median: i16) -> Seq<(i16, i16)> {
    Seq::new(s.len(), |i: int| (sat_band(s[i] - median), 0i16))
}

/// Saturating product of one complex value with the conjugate of another,
/// kept within the transform's band.
pub open spec fn conj_mul(z1: (i16, i16), z2: (i16, i16)) -> (i16, i16) {
    (sat_band(z1.0 * z2.0 + z1.1 * z2.1), sat_band(z1.1 * z2.0 - z1.0 * z2.1))
}

/// Element-wise saturating product of a spectrum with the conjugate of
/// another.
pub open spec fn conj_product(a: Seq<(i16, i16)>, b: Seq<(i16, i16)>) -> Seq<(i16, i16)> {
    Seq::new(a.len(), |i: int| conj_mul(a[i], b[i]))
}

/// The sequence rotated so that zero lag sits at the middle index.
pub open spec fn rotate_half(s: Seq<(i16, i16)>) -> Seq<(i16, i16)> {
    s.subrange(s.len() as int / 2, s.len() as int) + s.subrange(0, s.len() as int / 2)
}

/// Index of the last occurrence of the maximal real part.
pub open spec fn argmax_last(s: Seq<(i16, i16)>) -> int
    decreases s.len(),
{
    if s.len() <= 1 {
        0
    } else {
        let rest = argmax_last(s.drop_last());
        if s.last().0 >= s[rest].0 {
            s.len() - 1
        } else {
            rest
        }
    }
}

/// The estimated delay of `signal` relative to `reference`: the index of
/// the maximal bin of the inverse transform of the conjugate spectrum
/// product, re-centered so that zero lag maps to delay zero.
pub open spec fn xcorr_delay(
    signal: Seq<i16>,
    signal_median: i16,
    reference: Seq<i16>,
    reference_median: i16,
) -> int {
    let fs = fft_of(true, center_samples(signal, signal_median));
    let fr = fft_of(true, center_samples(reference, reference_median));
    let corr = fft_of(false, conj_product(fs, fr));
    argmax_last(rotate_half(corr)) - signal.len() as int / 2
}

/// The last-maximum index lies inside the sequence.
proof fn lemma_argmax_last_in_range(s: Seq<(i16, i16)>)
    requires
        s.len() > 0,
    ensures
        0 <= argmax_last(s) < s.len(),
        forall|i: int| 0 <= i < s.len() ==> (#[trigger] s[i]).0 <= s[argmax_last(s)].0,
    decreases s.len(),
{
    if s.len() > 1 {
        lemma_argmax_last_in_range(s.drop_last());
        assert forall|i: int| 0 <= i < s.len() implies (#[trigger] s[i]).0 <= s[argmax_last(s)].0
            by {
            if i < s.len() - 1 {
                assert(s.drop_last()[i] == s[i]);
            }
        }
    }
}

/// Cross-correlation of `signal` against `reference`.
///
/// Both signals are centered by their own medians, correlated in the
/// frequency domain, and the lag of the tallest correlation bin is
/// returned as a signed sample count: positive when `signal` lags
/// `reference`, negative when it leads.
pub fn xcorr(
    signal: &Vec<i16>,
    signal_median: i16,
    reference: &Vec<i16>,
    reference_median: i16,
) -> (r: isize)
    requires
        signal@.len() == reference@.len(),
        is_pow2(signal@.len()),
        2 <= signal@.len() <= MAX_FFT_LEN,
    ensures
        r as int == xcorr_delay(signal@, signal_median, reference@, reference_median),
        -(signal@.len() as int) / 2 <= r as int,
        (r as int) < signal@.len() as int - signal@.len() as int / 2,
{
    let n = signal.len();

    let mut buf_signal = center(signal, signal_median);
    let mut buf_reference = center(reference, reference_median);
    proof {
        assert forall|i: int| 0 <= i < buf_signal@.len() implies in_band(
            #[trigger] buf_signal@[i],
        ) by {}
        assert forall|i: int| 0 <= i < buf_reference@.len() implies in_band(
            #[trigger] buf_reference@[i],
        ) by {}
    }
    fft_q15(&mut buf_signal, true);
    fft_q15(&mut buf_reference, true);

    // Multiplies the signal spectrum by the conjugate of the reference
    // spectrum, element by element, saturating into the transform's band.
    let ghost fs = buf_signal@;
    let mut i: usize = 0;
    while i < n
        invariant
            buf_signal@.len() == n,
            buf_reference@.len() == n,
            i <= n,
            forall|k: int| 0 <= k < i ==> buf_signal@[k] == conj_mul(fs[k], buf_reference@[k]),
            forall|k: int| i <= k < n ==> buf_signal@[k] == fs[k],
        decreases n - i,
    {
        let z1 = buf_signal[i];
        let z2 = buf_reference[i];
        let re: i64 = mul16(z1.0, z2.0) + mul16(z1.1, z2.1);
        let im: i64 = mul16(z1.1, z2.0) - mul16(z1.0, z2.1);
        buf_signal[i] = (clamp_band(re), clamp_band(im));
        i = i + 1;
    }
    proof {
        assert(buf_signal@ =~= conj_product(fs, buf_reference@));
        assert forall|k: int| 0 <= k < buf_signal@.len() implies in_band(
            #[trigger] buf_signal@[k],
        ) by {}
    }

    fft_q15(&mut buf_signal, false);

    // Re-centers the result so that zero lag is the middle index.
    let ghost corr = buf_signal@;
    let mut rotated: Vec<(i16, i16)> = Vec::new();
    let mut i: usize = n / 2;
    while i < n
        invariant
            buf_signal@ == corr,
            corr.len() == n,
            n / 2 <= i <= n,
            rotated@ == corr.subrange(n as int / 2, i as int),
        decreases n - i,
    {
        rotated.push(buf_signal[i]);
        proof {
            assert(rotated@ =~= corr.subrange(n as int / 2, i + 1));
        }
        i = i + 1;
    }
    let mut i: usize = 0;
    while i < n / 2
        invariant
            buf_signal@ == corr,
            corr.len() == n,
            i <= n / 2,
            rotated@ == corr.subrange(n as int / 2, n as int) + corr.subrange(0, i as int),
        decreases n / 2 - i,
    {
        rotated.push(buf_signal[i]);
        proof {
            assert(rotated@ =~= corr.subrange(n as int / 2, n as int) + corr.subrange(
                0,
                i + 1,
            ));
        }
        i = i + 1;
    }
    proof {
        assert(rotated@ == rotate_half(corr));
        assert(rotated@.len() == n);
    }

    // The maximum bin corresponds to the delay value; ties go to the
    // later index.
    let mut max_idx: usize = 0;
    let mut i: usize = 1;
    while i < n
        invariant
            rotated@.len() == n,
            n >= 1,
            1 <= i <= n,
            max_idx == argmax_last(rotated@.subrange(0, i as int)),
            max_idx < i,
        decreases n - i,
    {
        proof {
            lemma_argmax_last_in_range(rotated@.subrange(0, i as int));
            assert(rotated@.subrange(0, i + 1).drop_last() =~= rotated@.subrange(0, i as int));
        }
        if rotated[i].0 >= rotated[max_idx].0 {
            max_idx = i;
        }
        i = i + 1;
    }
    proof {
        assert(rotated@.subrange(0, n as int) =~= rotated@);
    }

    max_idx as isize - (n / 2) as isize
}

/// Product of two 16-bit values, computed without overflow.
fn mul16(a: i16, b: i16) -> (r: i64)
    ensures
        r as int == a as int * b as int,
        -0x40000000 <= r as int <= 0x40000000,
{
    proof {
        assert(-0x40000000 <= (a as int) * (b as int) <= 0x40000000) by (nonlinear_arith)
            requires
                -0x8000 <= a as int <= 0x7fff,
                -0x8000 <= b as int <= 0x7fff,
        ;
    }
    a as i64 * b as i64
}

/// Clamps a wide intermediate into the transform's admissible band.
fn clamp_band(v: i64) -> (r: i16)
    ensures
        r == sat_band(v as int),
{
    if v > FFT_COMPONENT_LIMIT as i64 {
        FFT_COMPONENT_LIMIT
    } else if v < -(FFT_COMPONENT_LIMIT as i64) {
        -FFT_COMPONENT_LIMIT
    } else {
        v as i16
    }
}

/// Centers a signal by saturating subtraction of its median, producing
/// complex values with zero imaginary parts within the transform's band.
fn center(s: &Vec<i16>, median: i16) -> (r: Vec<(i16, i16)>)
    ensures
        r@ == center_samples(s@, median),
        r@.len() == s@.len(),
{
    let mut r: Vec<(i16, i16)> = Vec::new();
    let mut i: usize = 0;
    while i < s.len()
        invariant
            i <= s@.len(),
            r@.len() == i,
            forall|k: int| 0 <= k < i ==> r@[k] == center_samples(s@, median)[k],
        decreases s@.len() - i,
    {
        let c: i64 = s[i] as i64 - median as i64;
        r.push((clamp_band(c), 0));
        i = i + 1;
    }
    proof {
        assert(r@ =~= center_samples(s@, median));
    }
    r
}

} // verus!
