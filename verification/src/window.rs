//! Sliding statistic window: a fixed-capacity FIFO ring of samples kept
//! alongside an always-sorted copy of the same values, so that the median,
//! minimum and maximum of the most recent `n` samples are available in
//! constant time.

use vstd::prelude::*;
use vstd::relations::{sorted_by, total_ordering};
use vstd::seq_lib::*;

use crate::is_pow2;

verus! {

/// The ordering used for window samples.
pub open spec fn cmp_le() -> spec_fn(i16, i16) -> bool {
    |a: i16, b: i16| a <= b
}

/// The canonical sorted arrangement of a sequence of samples.
pub open spec fn ordered(s: Seq<i16>) -> Seq<i16> {
    s.sort_by(cmp_le())
}

/// `cmp_le` is a total order, so a sequence has exactly one sorted
/// arrangement per multiset of values.
pub proof fn lemma_cmp_le_total()
    ensures
        total_ordering(cmp_le()),
{
}

/// Time window that holds the `n` most recent samples of one sensor channel.
///
/// The FIFO ring records arrival order; `sorted` holds the same values in
/// ascending order, which makes the adaptive noise threshold (the median)
/// and both extremes cheap to read. `wf` is the window invariant: the two
/// buffers always hold the same multiset of values.
pub struct SampleWindow {
    /// This buffer is guaranteed to be always sorted.
    pub sorted: Vec<i16>,
    /// FIFO ring of the `n` last samples.
    pub fifo: Vec<i16>,
    /// Write cursor into `fifo`; wraps to zero after the last slot.
    pub index_fifo: usize,
}

impl SampleWindow {
    /// Window capacity.
    pub open spec fn n(self) -> nat {
        self.fifo@.len()
    }

    /// Window invariant: both buffers have the fixed power-of-two length,
    /// the cursor is in range, the sorted copy is indeed sorted, and it is
    /// a permutation (multiset equality) of the FIFO contents.
    pub open spec fn wf(self) -> bool {
        &&& self.sorted@.len() == self.fifo@.len()
        &&& is_pow2(self.fifo@.len())
        &&& self.index_fifo < self.fifo@.len()
        &&& sorted_by(self.sorted@, cmp_le())
        &&& self.sorted@.to_multiset() == self.fifo@.to_multiset()
    }

    /// Creates a window with every slot holding `filler`, so that no
    /// spurious deviation is reported before real statistics accumulate.
    pub fn new(n: usize, filler: i16) -> (w: SampleWindow)
        requires
            is_pow2(n as nat),
        ensures
            w.wf(),
            w.n() == n,
            w.index_fifo == 0,
            w.fifo@ == Seq::new(n as nat, |i: int| filler),
    {
        let sorted: Vec<i16> = vec![filler; n];
        let fifo: Vec<i16> = vec![filler; n];
        let w = SampleWindow { sorted, fifo, index_fifo: 0 };
        proof {
            assert(w.sorted@ =~= w.fifo@);
            assert(n > 0) by {
                reveal_with_fuel(is_pow2, 2);
            }
        }
        w
    }

    /// Stores `new` into the ring slot under the cursor, replaces the
    /// outgoing value in the sorted copy, and advances the cursor modulo
    /// the window length.
    pub fn store(&mut self, new: i16)
        requires
            old(self).wf(),
        ensures
            final(self).wf(),
            final(self).n() == old(self).n(),
            final(self).fifo@ == old(self).fifo@.update(old(self).index_fifo as int, new),
            final(self).index_fifo == if old(self).index_fifo + 1 == old(self).n() {
                0int
            } else {
                old(self).index_fifo + 1
            },
            final(self).sorted@ == ordered(final(self).fifo@),
    {
        let ghost pre = *self;
        let old_val = self.fifo[self.index_fifo];

        // Removes the outgoing value from the sorted copy. The window
        // invariant guarantees an exact match is present.
        let i = lower_bound(&self.sorted, old_val);
        proof {
            broadcast use group_to_multiset_ensures;

            assert(pre.fifo@.contains(old_val));
            assert(pre.sorted@.to_multiset().count(old_val) > 0);
            assert(pre.sorted@.contains(old_val));
            let k = choose|k: int| 0 <= k < pre.sorted@.len() && pre.sorted@[k] == old_val;
            assert(i <= k) by {
                if k < i {
                    assert(pre.sorted@[k] < old_val);
                }
            }
            assert(cmp_le()(pre.sorted@[i as int], pre.sorted@[k]) || i == k);
            assert(pre.sorted@[i as int] == old_val);
        }
        self.sorted.remove(i);
        proof {
            broadcast use group_to_multiset_ensures;

            lemma_sorted_remove(pre.sorted@, i as int);
            assert(self.sorted@.to_multiset() =~= pre.sorted@.to_multiset().remove(old_val));
        }

        // Inserts the new value at its ordered position.
        let ghost mid = self.sorted@;
        let j = lower_bound(&self.sorted, new);
        self.sorted.insert(j, new);
        proof {
            broadcast use group_to_multiset_ensures;

            lemma_sorted_insert(mid, j as int, new);
            assert(self.sorted@.to_multiset() =~= mid.to_multiset().insert(new));
        }

        self.fifo[self.index_fifo] = new;
        let ring_len = self.fifo.len();
        proof {
            assert(self.index_fifo < ring_len);
        }
        self.index_fifo = if self.index_fifo + 1 < ring_len {
            self.index_fifo + 1
        } else {
            0
        };

        proof {
            broadcast use group_to_multiset_ensures;
            broadcast use to_multiset_update;

            assert(self.fifo@ =~= pre.fifo@.update(pre.index_fifo as int, new));
            assert(self.fifo@.to_multiset() =~= pre.fifo@.to_multiset().insert(new).remove(
                old_val,
            ));
            assert(self.sorted@.to_multiset() =~= self.fifo@.to_multiset()) by {
                broadcast use vstd::multiset::group_multiset_axioms;

                assert(pre.sorted@.to_multiset().count(old_val) > 0);
            }
            lemma_sorted_is_ordered(*self);
        }
    }

    /// Returns the minimal value in the whole window.
    pub fn min(&self) -> (r: i16)
        requires
            self.wf(),
        ensures
            self.fifo@.contains(r),
            forall|i: int| 0 <= i < self.fifo@.len() ==> r <= #[trigger] self.fifo@[i],
            r == ordered(self.fifo@)[0],
    {
        proof {
            lemma_window_len_positive(*self);
            lemma_extremes(*self);
            lemma_sorted_is_ordered(*self);
        }
        self.sorted[0]
    }

    /// Returns the maximal value in the whole window.
    pub fn max(&self) -> (r: i16)
        requires
            self.wf(),
        ensures
            self.fifo@.contains(r),
            forall|i: int| 0 <= i < self.fifo@.len() ==> #[trigger] self.fifo@[i] <= r,
            r == ordered(self.fifo@)[self.fifo@.len() - 1],
    {
        proof {
            lemma_window_len_positive(*self);
            lemma_extremes(*self);
            lemma_sorted_is_ordered(*self);
        }
        self.sorted[self.sorted.len() - 1]
    }

    /// Adaptive threshold, calculated as the median value of the `n` samples:
    /// the middle entry of the sorted arrangement of the window contents.
    pub fn threshold(&self) -> (r: i16)
        requires
            self.wf(),
        ensures
            r == ordered(self.fifo@)[self.fifo@.len() as int / 2],
            self.fifo@.contains(r),
    {
        proof {
            lemma_window_len_positive(*self);
            lemma_sorted_is_ordered(*self);
            broadcast use group_to_multiset_ensures;

            let m = self.fifo@.len() as int / 2;
            assert(self.sorted@.to_multiset().count(self.sorted@[m]) > 0);
        }
        self.sorted[self.sorted.len() / 2]
    }
}

/// A power-of-two window length is never zero.
pub proof fn lemma_window_len_positive(w: SampleWindow)
    requires
        w.wf(),
    ensures
        w.fifo@.len() >= 1,
        w.sorted@.len() >= 1,
{
    reveal_with_fuel(is_pow2, 2);
}

/// After every store, the sorted copy is a permutation of the window's
/// current contents, which are the `n` most recently inserted values
/// (filler values counting as inserted until the ring first wraps).
pub proof fn lemma_window_permutation(w: SampleWindow)
    requires
        w.wf(),
    ensures
        w.sorted@.to_multiset() == w.fifo@.to_multiset(),
        w.sorted@.len() == w.fifo@.len(),
{
}

/// The sorted copy of a well-formed window is exactly the canonical sorted
/// arrangement of the window contents, so the values read at its ends and
/// middle are the true order statistics of the current multiset.
pub proof fn lemma_sorted_is_ordered(w: SampleWindow)
    requires
        w.wf(),
    ensures
        w.sorted@ == ordered(w.fifo@),
{
    w.fifo@.lemma_sort_by_ensures(cmp_le());
    lemma_cmp_le_total();
    lemma_sorted_unique(w.sorted@, ordered(w.fifo@), cmp_le());
}

/// The first and last entries of the sorted copy bound every value in the
/// window.
pub proof fn lemma_extremes(w: SampleWindow)
    requires
        w.wf(),
        w.fifo@.len() >= 1,
    ensures
        forall|i: int|
            0 <= i < w.fifo@.len() ==> w.sorted@[0] <= #[trigger] w.fifo@[i] <= w.sorted@[
                w.sorted@.len() - 1
            ],
        w.fifo@.contains(w.sorted@[0]),
        w.fifo@.contains(w.sorted@[w.sorted@.len() - 1]),
{
    broadcast use group_to_multiset_ensures;

    assert forall|i: int| 0 <= i < w.fifo@.len() implies w.sorted@[0] <= #[trigger] w.fifo@[i]
        <= w.sorted@[w.sorted@.len() - 1] by {
        assert(w.fifo@.contains(w.fifo@[i]));
        assert(w.sorted@.to_multiset().count(w.fifo@[i]) > 0);
        assert(w.sorted@.contains(w.fifo@[i]));
        let k = choose|k: int| 0 <= k < w.sorted@.len() && w.sorted@[k] == w.fifo@[i];
        assert(k == 0 || cmp_le()(w.sorted@[0], w.sorted@[k]));
        assert(k == w.sorted@.len() - 1 || cmp_le()(w.sorted@[k], w.sorted@[w.sorted@.len() - 1]));
    }
    assert(w.sorted@.to_multiset().count(w.sorted@[0]) > 0);
    assert(w.sorted@.to_multiset().count(w.sorted@[w.sorted@.len() - 1]) > 0);
}

/// Inserting one constant value into every slot of the window yields a
/// sorted copy equal to that constant repeated, so median, minimum and
/// maximum all equal the constant.
pub proof fn lemma_constant_window(w: SampleWindow, v: i16)
    requires
        w.wf(),
        forall|i: int| 0 <= i < w.fifo@.len() ==> #[trigger] w.fifo@[i] == v,
    ensures
        w.sorted@ == Seq::new(w.n(), |i: int| v),
        ordered(w.fifo@) == Seq::new(w.n(), |i: int| v),
{
    broadcast use group_to_multiset_ensures;

    assert forall|k: int| 0 <= k < w.sorted@.len() implies w.sorted@[k] == v by {
        assert(w.sorted@.contains(w.sorted@[k]));
        assert(w.sorted@.to_multiset().count(w.sorted@[k]) > 0);
        assert(w.fifo@.contains(w.sorted@[k]));
    }
    assert(w.sorted@ =~= Seq::new(w.n(), |i: int| v));
    lemma_sorted_is_ordered(w);
}

/// Removing an element from a sorted sequence keeps it sorted.
proof fn lemma_sorted_remove(s: Seq<i16>, i: int)
    requires
        sorted_by(s, cmp_le()),
        0 <= i < s.len(),
    ensures
        sorted_by(s.remove(i), cmp_le()),
{
    let t = s.remove(i);
    assert forall|p: int, q: int| 0 <= p < q < t.len() implies #[trigger] cmp_le()(t[p], t[q]) by {
        let sp: int = if p < i {
            p
        } else {
            p + 1
        };
        let sq: int = if q < i {
            q
        } else {
            q + 1
        };
        assert(t[p] == s[sp]);
        assert(t[q] == s[sq]);
        assert(cmp_le()(s[sp], s[sq]));
    }
}

/// Inserting a value at its ordered position keeps a sorted sequence sorted.
proof fn lemma_sorted_insert(s: Seq<i16>, j: int, v: i16)
    requires
        sorted_by(s, cmp_le()),
        0 <= j <= s.len(),
        forall|i: int| 0 <= i < j ==> s[i] < v,
        forall|i: int| j <= i < s.len() ==> v <= #[trigger] s[i],
    ensures
        sorted_by(s.insert(j, v), cmp_le()),
{
    let t = s.insert(j, v);
    s.insert_ensures(j, v);
    assert forall|p: int, q: int| 0 <= p < q < t.len() implies #[trigger] cmp_le()(t[p], t[q]) by {
        if p != j && q != j {
            let sp: int = if p < j {
                p
            } else {
                p - 1
            };
            let sq: int = if q < j {
                q
            } else {
                q - 1
            };
            assert(t[p] == s[sp]);
            assert(t[q] == s[sq]);
            assert(cmp_le()(s[sp], s[sq]));
        }
    }
}

/// Binary search for the first position whose value is at least `key`.
fn lower_bound(v: &Vec<i16>, key: i16) -> (r: usize)
    requires
        sorted_by(v@, cmp_le()),
    ensures
        r <= v@.len(),
        forall|i: int| 0 <= i < r ==> #[trigger] v@[i] < key,
        forall|i: int| r <= i < v@.len() ==> key <= #[trigger] v@[i],
{
    let mut lo: usize = 0;
    let mut hi: usize = v.len();
    while lo < hi
        invariant
            lo <= hi <= v@.len(),
            sorted_by(v@, cmp_le()),
            forall|i: int| 0 <= i < lo ==> #[trigger] v@[i] < key,
            forall|i: int| hi <= i < v@.len() ==> key <= #[trigger] v@[i],
        decreases hi - lo,
    {
        let mid = lo + (hi - lo) / 2;
        if v[mid] < key {
            proof {
                assert forall|i: int| 0 <= i < mid + 1 implies #[trigger] v@[i] < key by {
                    if i < mid {
                        assert(cmp_le()(v@[i], v@[mid as int]));
                    }
                }
            }
            lo = mid + 1;
        } else {
            proof {
                assert forall|i: int| mid <= i < v@.len() implies key <= #[trigger] v@[i] by {
                    if i > mid {
                        assert(cmp_le()(v@[mid as int], v@[i]));
                    }
                }
            }
            hi = mid;
        }
    }
    lo
}

} // verus!
