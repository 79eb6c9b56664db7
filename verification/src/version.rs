//! Firmware version formatting: converts a dotted decimal version string
//! into the binary-coded-decimal release number reported in the USB
//! device descriptor.

use vstd::prelude::*;
use vstd::string::StrSliceExecFns;

verus! {

/// A decimal digit character.
pub open spec fn is_digit(c: char) -> bool {
    '0' as int <= c as int <= '9' as int
}

/// A character that ends a version segment.
pub open spec fn is_sep(c: char) -> bool {
    c == '.' || c == '\0'
}

/// The numeric value of a digit character.
pub open spec fn digit(c: char) -> int {
    c as int - '0' as int
}

/// The first separator position at or after `from`, or the end of the
/// string.
pub open spec fn seg_end(s: Seq<char>, from: int) -> int
    decreases s.len() - from,
{
    if from < 0 || from >= s.len() {
        s.len() as int
    } else if is_sep(s[from]) {
        from
    } else {
        seg_end(s, from + 1)
    }
}

/// The decimal value of the digit run `s[from..to)`.
pub open spec fn dec_value(s: Seq<char>, from: int, to: int) -> int
    decreases to - from,
{
    if from >= to {
        0
    } else {
        dec_value(s, from, to - 1) * 10 + digit(s[to - 1])
    }
}

/// The binary-coded-decimal form of a version string: the major number in
/// the high byte, the minor number in the low byte; a third segment, if
/// present, is ignored.
pub open spec fn bcd_of(s: Seq<char>) -> int {
    let major_end = seg_end(s, 0);
    let major = dec_value(s, 0, major_end);
    let minor = if major_end + 1 <= s.len() {
        dec_value(s, major_end + 1, seg_end(s, major_end + 1))
    } else {
        0
    };
    major * 0x100 + minor
}

/// A version string this conversion is defined for: the major and minor
/// segments hold only digits and each value fits in one byte.
pub open spec fn version_wf(s: Seq<char>) -> bool {
    let major_end = seg_end(s, 0);
    &&& forall|i: int| 0 <= i < major_end ==> is_digit(#[trigger] s[i])
    &&& dec_value(s, 0, major_end) <= 0xff
    &&& major_end + 1 <= s.len() ==> {
        let minor_end = seg_end(s, major_end + 1);
        (forall|i: int| major_end + 1 <= i < minor_end ==> is_digit(#[trigger] s[i]))
            && dec_value(s, major_end + 1, minor_end) <= 0xff
    }
}

/// Converts a version string of the form `major.minor` (with an optional
/// further segment, which is ignored) to binary-coded decimal.
pub fn version_to_bcd(version: &str) -> (r: u16)
    requires
        version_wf(version@),
    ensures
        r as int == bcd_of(version@),
{
    let ghost s = version@;
    let n = version.unicode_len();
    let mut idx: usize = 0;
    let mut major: u16 = 0;
    proof {
        seg_end_bound(s, 0);
    }

    // Major segment.
    loop
        invariant
            version@ == s,
            n == s.len(),
            version_wf(s),
            0 <= idx <= seg_end(s, 0),
            seg_end(s, 0) <= n,
            forall|k: int| 0 <= k < idx ==> !is_sep(#[trigger] s[k]),
            major as int == dec_value(s, 0, idx as int),
        ensures
            idx as int == seg_end(s, 0),
            major as int == dec_value(s, 0, seg_end(s, 0)),
        decreases n - idx,
    {
        if idx >= n {
            proof {
                lemma_seg_end_at(s, 0, idx as int);
            }
            break;
        }
        let c = version.get_char(idx);
        if c == '.' || c == '\0' {
            proof {
                lemma_seg_end_at(s, 0, idx as int);
            }
            break;
        }
        proof {
            lemma_seg_end_not_sep(s, 0, idx as int);
            lemma_dec_value_prefix_le(s, 0, idx + 1, seg_end(s, 0));
            lemma_dec_value_nonneg(s, 0, idx as int);
        }
        major = major * 10 + (c as u32 - 48) as u16;
        idx = idx + 1;
    }
    let ghost major_end = seg_end(s, 0);

    // Minor segment.
    let mut minor: u16 = 0;
    let ghost minor_from = major_end + 1;
    if idx < n {
        idx = idx + 1;
        proof {
            seg_end_bound(s, minor_from);
        }
        loop
            invariant
                version@ == s,
                n == s.len(),
                version_wf(s),
                major_end == seg_end(s, 0),
                0 <= major_end < n,
                minor_from == major_end + 1,
                minor_from <= idx as int <= seg_end(s, minor_from),
                seg_end(s, minor_from) <= n,
                forall|k: int| minor_from <= k < idx ==> !is_sep(#[trigger] s[k]),
                minor as int == dec_value(s, minor_from, idx as int),
            ensures
                minor as int == dec_value(s, minor_from, seg_end(s, minor_from)),
            decreases n - idx,
        {
            if idx >= n {
                proof {
                    lemma_seg_end_at(s, minor_from, idx as int);
                }
                break;
            }
            let c = version.get_char(idx);
            if c == '.' || c == '\0' {
                proof {
                    lemma_seg_end_at(s, minor_from, idx as int);
                }
                break;
            }
            proof {
                lemma_seg_end_not_sep(s, minor_from, idx as int);
                lemma_dec_value_prefix_le(s, minor_from, idx + 1, seg_end(s, minor_from));
                lemma_dec_value_nonneg(s, minor_from, idx as int);
            }
            minor = minor * 10 + (c as u32 - 48) as u16;
            idx = idx + 1;
        }
    }

    major * 0x100 + minor
}

/// A run of digits has a non-negative value.
proof fn lemma_dec_value_nonneg(s: Seq<char>, from: int, to: int)
    requires
        forall|i: int| from <= i < to ==> is_digit(#[trigger] s[i]),
    ensures
        dec_value(s, from, to) >= 0,
    decreases to - from,
{
    if from < to {
        lemma_dec_value_nonneg(s, from, to - 1);
    }
}

/// Extending a run of digits on the right never shrinks its value.
proof fn lemma_dec_value_prefix_le(s: Seq<char>, from: int, mid: int, to: int)
    requires
        from <= mid <= to,
        forall|i: int| from <= i < to ==> is_digit(#[trigger] s[i]),
    ensures
        dec_value(s, from, mid) <= dec_value(s, from, to),
    decreases to - mid,
{
    if mid < to {
        lemma_dec_value_prefix_le(s, from, mid, to - 1);
        lemma_dec_value_nonneg(s, from, to - 1);
    }
}

/// When no separator occurs at or after `from` until `i`, and `i` holds a
/// separator or ends the string, `i` is the segment end.
proof fn lemma_seg_end_at(s: Seq<char>, from: int, i: int)
    requires
        0 <= from <= i <= s.len(),
        forall|k: int| from <= k < i ==> !is_sep(#[trigger] s[k]),
        i == s.len() || is_sep(s[i]),
    ensures
        seg_end(s, from) == i,
    decreases i - from,
{
    if from < i {
        lemma_seg_end_at(s, from + 1, i);
    }
}

/// The segment end lies between `from` and the string length.
proof fn seg_end_bound(s: Seq<char>, from: int)
    ensures
        seg_end(s, from) <= s.len(),
        0 <= from <= s.len() ==> from <= seg_end(s, from),
    decreases s.len() - from,
{
    if 0 <= from < s.len() && !is_sep(s[from]) {
        seg_end_bound(s, from + 1);
    }
}

/// A non-separator position preceded by no separator stays below the
/// segment end.
proof fn lemma_seg_end_not_sep(s: Seq<char>, from: int, i: int)
    requires
        0 <= from <= i < s.len(),
        forall|k: int| from <= k < i ==> !is_sep(#[trigger] s[k]),
        !is_sep(s[i]),
    ensures
        seg_end(s, from) > i,
    decreases i - from,
{
    if from < i {
        lemma_seg_end_not_sep(s, from + 1, i);
    } else {
        seg_end_bound(s, from + 1);
    }
}

} // verus!
