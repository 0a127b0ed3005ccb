//! Replay-protection window for per-account transaction nonces.
//!
//! A nonce `n` is split into a generation `n / 32` and a slot `n % 32`.
//! The pool remembers, in fixed memory, explicit used/unused flags for
//! slots of the current generation below a cursor, together with the tail
//! that the previous generation left behind above it.  Anything at least
//! two generations old is conservatively treated as used; anything beyond
//! the current generation as unused.

use vstd::prelude::*;

verus! {

/// Mathematical model of a nonce pool: the generation counter, the cursor
/// into the 32-slot window, and the window's flags.
pub ghost struct PoolModel {
    pub gen: int,
    pub cur: int,
    pub slots: Seq<bool>,
}

impl PoolModel {
    /// A model is well formed when the generation is a count, the cursor
    /// lies inside the window, and the window has exactly 32 slots.
    pub open spec fn wf(self) -> bool {
        0 <= self.gen && 0 <= self.cur < 32 && self.slots.len() == 32
    }

    /// The suggested next nonce: the first slot at or past the cursor.
    pub open spec fn next(self) -> int {
        self.gen * 32 + self.cur
    }

    /// Whether the pool classifies `nonce` as already used.
    ///
    /// Two or more generations stale: used by age.  Previous generation:
    /// used once the cursor has overwritten its slot, or when its flag is
    /// still set.  Current generation: used only when explicitly flagged
    /// below the cursor.  Future generations: never used.
    pub open spec fn used(self, nonce: u64) -> bool {
        let g = nonce_gen(nonce);
        let s = nonce_slot(nonce);
        if g + 1 < self.gen {
            true
        } else if g + 1 == self.gen {
            s < self.cur || self.slots[s]
        } else if g == self.gen {
            s < self.cur && self.slots[s]
        } else {
            false
        }
    }
}

/// Fixed-memory record of which nonces an account has consumed.
///
/// Only the current and the immediately previous generation are tracked
/// explicitly; everything else is classified by the two-generation policy
/// described on [`PoolModel::used`].
#[derive(Debug, Clone)]
pub struct NoncePool {
    iter: u64,
    buf_end: usize,
    buf: [bool; 32],
}

impl View for NoncePool {
    type V = PoolModel;

    closed spec fn view(&self) -> PoolModel {
        PoolModel { gen: self.iter as int, cur: self.buf_end as int, slots: self.buf@ }
    }
}

impl NoncePool {
    /// Well-formedness of the concrete pool, stated over its model.
    pub open spec fn wf(self) -> bool {
        self@.wf()
    }

    /// A fresh pool: generation zero, cursor zero, no slot flagged, so no
    /// nonce is classified as used and the suggested next nonce is zero.
    pub fn new() -> (r: Self)
        ensures
            r.wf(),
            r@.gen == 0,
            r@.cur == 0,
            forall|j: int| 0 <= j < 32 ==> !r@.slots[j],
            forall|n: u64| !r@.used(n),
            r@.next() == 0,
    {
        NoncePool { iter: 0, buf_end: 0, buf: [false; 32] }
    }

    /// Suggested next nonce for a client to use; purely advisory.  The
    /// bound only keeps the suggestion representable in a machine word.
    pub fn next(&self) -> (r: u64)
        requires
            self.wf(),
            self@.next() <= u64::MAX,
        ensures
            r as int == self@.next(),
    {
        self.iter * 32 + (self.buf_end as u64)
    }

    /// Classify `nonce` under the two-generation policy; total, and reads
    /// nothing but the pool.
    pub fn is_marked_used(&self, nonce: u64) -> (r: bool)
        requires
            self.wf(),
        ensures
            r == self@.used(nonce),
    {
        let g = nonce / 32;
        let s = (nonce % 32) as usize;

        // two or more generations stale: used by age
        if self.iter >= 1 && g < self.iter - 1 {
            return true;
        }

        // previous generation: overwritten by the cursor, or flagged
        if self.iter >= 1 && g == self.iter - 1 {
            return s < self.buf_end || self.buf[s];
        }

        // current generation: flagged below the cursor
        if g == self.iter {
            return s < self.buf_end && self.buf[s];
        }

        // future generation: never seen
        false
    }

    /// Record `nonce` as consumed; total, and never fails.
    ///
    /// The transition clauses pin the new state exactly; the remaining
    /// clauses state its headline consequences: a nonce no older than the
    /// previous generation reads back as used, marking the suggested next
    /// nonce advances the suggestion by one, and a jump of more than one
    /// generation leaves every other nonce of the new generation unused.
    #[verifier::loop_isolation(false)]
    pub fn mark_used(&mut self, nonce: u64)
        requires
            old(self).wf(),
        ensures
            final(self).wf(),
            final(self)@.gen == gen_after(old(self)@, nonce),
            final(self)@.cur == cur_after(old(self)@, nonce),
            forall|j: int| 0 <= j < 32 ==> final(self)@.slots[j] == slot_after(
                old(self)@,
                nonce,
                j,
            ),
            nonce_gen(nonce) + 1 >= old(self)@.gen ==> final(self)@.used(nonce),
            nonce as int == old(self)@.next() ==> final(self)@.next() == nonce as int + 1,
            nonce_gen(nonce) > old(self)@.gen + 1 ==> forall|m: u64|
                nonce_gen(m) == nonce_gen(nonce) && m != nonce ==> !final(self)@.used(m),
    {
        let g = nonce / 32;
        let s = (nonce % 32) as usize;

        if self.iter >= 1 && g < self.iter - 1 {
            // two or more generations stale: already implicitly used,
            // nothing to record
        } else if self.iter >= 1 && g == self.iter - 1 {
            // previous generation: below the cursor it is implicitly
            // used; above it, flag it in the inherited tail
            if s >= self.buf_end {
                self.buf[s] = true;
            }
        } else if g == self.iter {
            if s < self.buf_end {
                // in-window: simple record
                self.buf[s] = true;
            } else {
                // extends the window forward: the skipped slots are
                // genuinely still unused
                let mut i: usize = self.buf_end;
                while i < s
                    invariant
                        old(self).buf_end <= i <= s,
                        self.iter == old(self).iter,
                        self.buf_end == old(self).buf_end,
                        forall|j: int|
                            0 <= j < 32 && !(self.buf_end <= j < i) ==> self.buf@[j] == old(
                                self,
                            ).buf@[j],
                        forall|j: int| self.buf_end <= j < i ==> !self.buf@[j],
                    decreases s - i,
                {
                    self.buf[i] = false;
                    i = i + 1;
                }
                self.buf[s] = true;
                self.buf_end = (s + 1) % 32;
                if self.buf_end == 0 {
                    self.iter = self.iter + 1;
                }
            }
        } else if g == self.iter + 1 {
            // one generation ahead: the unwritten tail of the old
            // generation and the head of the new one are genuinely
            // unknown, hence unused
            let mut i: usize = self.buf_end;
            while i < 32
                invariant
                    old(self).buf_end <= i <= 32,
                    self.iter == old(self).iter,
                    self.buf_end == old(self).buf_end,
                    forall|j: int|
                        0 <= j < 32 && !(self.buf_end <= j < i) ==> self.buf@[j] == old(
                            self,
                        ).buf@[j],
                    forall|j: int| self.buf_end <= j < i ==> !self.buf@[j],
                decreases 32 - i,
            {
                self.buf[i] = false;
                i = i + 1;
            }
            let mut k: usize = 0;
            while k < s
                invariant
                    0 <= k <= s,
                    self.iter == old(self).iter,
                    self.buf_end == old(self).buf_end,
                    forall|j: int| self.buf_end <= j < 32 ==> !self.buf@[j],
                    forall|j: int| 0 <= j < k ==> !self.buf@[j],
                    forall|j: int|
                        k <= j < self.buf_end ==> self.buf@[j] == old(self).buf@[j],
                decreases s - k,
            {
                self.buf[k] = false;
                k = k + 1;
            }
            self.iter = g;
            self.buf[s] = true;
            self.buf_end = (s + 1) % 32;
            if self.buf_end == 0 {
                self.iter = self.iter + 1;
            }
        } else {
            // a jump of more than one generation: discard all history and
            // start a fresh window
            let mut i: usize = 0;
            while i < 32
                invariant
                    i <= 32,
                    self.iter == old(self).iter,
                    self.buf_end == old(self).buf_end,
                    forall|j: int| 0 <= j < i ==> !self.buf@[j],
                decreases 32 - i,
            {
                self.buf[i] = false;
                i = i + 1;
            }
            self.iter = g;
            self.buf[s] = true;
            self.buf_end = (s + 1) % 32;
            if self.buf_end == 0 {
                self.iter = self.iter + 1;
            }
        }
        proof {
            lemma_mark_consequences(old(self)@, self@, nonce);
        }
    }
}

/// The three headline consequences of the `mark_used` transition, proved
/// once over the models so that every branch of the mutator shares them.
proof fn lemma_mark_consequences(pre: PoolModel, post: PoolModel, nonce: u64)
    requires
        pre.wf(),
        post.gen == gen_after(pre, nonce),
        post.cur == cur_after(pre, nonce),
        post.slots.len() == 32,
        forall|j: int| 0 <= j < 32 ==> post.slots[j] == slot_after(pre, nonce, j),
    ensures
        nonce_gen(nonce) + 1 >= pre.gen ==> post.used(nonce),
        nonce as int == pre.next() ==> post.next() == nonce as int + 1,
        nonce_gen(nonce) > pre.gen + 1 ==> forall|m: u64|
            nonce_gen(m) == nonce_gen(nonce) && m != nonce ==> !post.used(m),
{
    let g = nonce_gen(nonce);
    let s = nonce_slot(nonce);
    if g > pre.gen + 1 {
        assert forall|m: u64| nonce_gen(m) == g && m != nonce implies !post.used(m) by {
            let sm = nonce_slot(m);
            assert(32 * nonce_gen(m) + sm == m as int);
            assert(sm != s);
            assert(post.slots[sm] == slot_after(pre, nonce, sm));
        }
    }
}

impl Default for NoncePool {
    /// Same fresh pool as [`NoncePool::new`].
    fn default() -> (r: Self)
        ensures
            r.wf(),
            r@.gen == 0,
            r@.cur == 0,
            forall|n: u64| !r@.used(n),
            r@.next() == 0,
    {
        NoncePool::new()
    }
}

/// Generation counter after `mark_used(nonce)` on a pool modelled by `m`:
/// unchanged when the nonce is stale, belongs to the previous generation,
/// or sits below the cursor of the current one; otherwise the nonce's own
/// generation, plus one when recording it wraps the cursor.
pub open spec fn gen_after(m: PoolModel, nonce: u64) -> int {
    let g = nonce_gen(nonce);
    let s = nonce_slot(nonce);
    if g < m.gen || (g == m.gen && s < m.cur) {
        m.gen
    } else if s == 31 {
        g + 1
    } else {
        g
    }
}

/// Cursor after `mark_used(nonce)`: unchanged in the same cases as the
/// generation; otherwise just past the nonce's slot, modulo the window.
pub open spec fn cur_after(m: PoolModel, nonce: u64) -> int {
    let g = nonce_gen(nonce);
    let s = nonce_slot(nonce);
    if g < m.gen || (g == m.gen && s < m.cur) {
        m.cur
    } else {
        (s + 1) % 32
    }
}

/// Window flag at offset `j` after `mark_used(nonce)`, case by case: a
/// stale nonce touches nothing; one of the previous generation flags its
/// own slot in the inherited tail; one of the current generation flags its
/// slot and clears everything skipped when it extends the window; one a
/// single generation ahead keeps only the flags between its slot and the
/// old cursor; a farther jump starts from a fresh window.
pub open spec fn slot_after(m: PoolModel, nonce: u64, j: int) -> bool {
    let g = nonce_gen(nonce);
    let s = nonce_slot(nonce);
    if g + 1 < m.gen {
        m.slots[j]
    } else if g + 1 == m.gen {
        if s >= m.cur && j == s {
            true
        } else {
            m.slots[j]
        }
    } else if g == m.gen {
        if s < m.cur {
            if j == s {
                true
            } else {
                m.slots[j]
            }
        } else {
            if j == s {
                true
            } else if m.cur <= j < s {
                false
            } else {
                m.slots[j]
            }
        }
    } else if g == m.gen + 1 {
        if j == s {
            true
        } else if s < j < m.cur {
            m.slots[j]
        } else {
            false
        }
    } else {
        j == s
    }
}

/// Generation of a nonce: which 32-wide block it belongs to.
pub open spec fn nonce_gen(nonce: u64) -> int {
    nonce as int / 32
}

/// Slot of a nonce: its offset inside its 32-wide block.
pub open spec fn nonce_slot(nonce: u64) -> int {
    nonce as int % 32
}

/// Any nonce at least two generations behind the current one is classified
/// as used, whatever the window's flags hold.
pub proof fn lemma_stale_generation_used(p: PoolModel, nonce: u64)
    requires
        p.wf(),
        nonce_gen(nonce) + 1 < p.gen,
    ensures
        p.used(nonce),
{
}

} // verus!
