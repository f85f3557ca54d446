//! Circular indexing: delay-line write heads, interpolation neighbours and
//! window capture.
//!
//! Delay lines, sample loops, wavetable frames and frozen windows are all
//! read circularly. The sample values are the caller's; this module keeps
//! every index that touches them inside the buffer.

use vstd::prelude::*;

verus! {

/// A write head moving round a circular buffer of `len` samples.
#[derive(Clone, Copy, Debug)]
pub struct RingCursor {
    len: usize,
    pos: usize,
}

impl RingCursor {
    #[verifier::type_invariant]
    closed spec fn in_bounds(self) -> bool {
        0 < self.len && self.pos < self.len
    }

    /// The buffer length.
    pub closed spec fn spec_len(self) -> int {
        self.len as int
    }

    /// The head's position.
    pub closed spec fn spec_pos(self) -> int {
        self.pos as int
    }

    /// A head at the start of a buffer of `max_samples` samples (at least one).
    pub fn new(max_samples: usize) -> (c: RingCursor)
        ensures
            c.spec_len() == if max_samples < 1 { 1 } else { max_samples as int },
            c.spec_pos() == 0,
    {
        let len = if max_samples < 1 { 1 } else { max_samples };
        RingCursor { len, pos: 0 }
    }

    /// A head at `start` (taken round the buffer) in a buffer of `len` samples.
    pub fn starting_at(len: usize, start: usize) -> (c: RingCursor)
        requires
            len > 0,
        ensures
            c.spec_len() == len,
            c.spec_pos() == start as int % len as int,
    {
        RingCursor { len, pos: start % len }
    }

    /// The buffer length.
    pub fn len(&self) -> (n: usize)
        ensures
            n == self.spec_len(),
            n > 0,
    {
        proof {
            use_type_invariant(self);
        }
        self.len
    }

    /// The head's position; always inside the buffer.
    pub fn position(&self) -> (p: usize)
        ensures
            p == self.spec_pos(),
            p < self.spec_len(),
    {
        proof {
            use_type_invariant(self);
        }
        self.pos
    }

    /// Move the head one sample on, wrapping at the end.
    pub fn advance(&mut self)
        ensures
            final(self).spec_len() == old(self).spec_len(),
            final(self).spec_pos() == (old(self).spec_pos() + 1) % old(self).spec_len(),
    {
        proof {
            use_type_invariant(&*self);
        }
        let next = if self.pos + 1 == self.len { 0 } else { self.pos + 1 };
        proof {
            if self.pos + 1 == self.len {
                vstd::arithmetic::div_mod::lemma_mod_self_0(self.len as int);
            } else {
                vstd::arithmetic::div_mod::lemma_small_mod((self.pos + 1) as nat, self.len as nat);
            }
        }
        self.pos = next;
    }
}

/// The head's position after `k` single-sample moves from `pos` round a
/// buffer of `len`.
pub open spec fn position_after(pos: int, k: nat, len: int) -> int
    decreases k,
{
    if k == 0 {
        pos
    } else {
        (position_after(pos, (k - 1) as nat, len) + 1) % len
    }
}

/// After `k` moves the head is `k` samples on, taken round the buffer; in
/// particular a full lap of `len` moves brings it back where it started.
pub proof fn lemma_position_after(pos: int, k: nat, len: int)
    requires
        0 <= pos < len,
    ensures
        position_after(pos, k, len) == (pos + k) % len,
        position_after(pos, len as nat, len) == pos,
{
    lemma_position_after_steps(pos, k, len);
    lemma_position_after_steps(pos, len as nat, len);
    vstd::arithmetic::div_mod::lemma_mod_add_multiples_vanish(pos, len);
    vstd::arithmetic::div_mod::lemma_small_mod(pos as nat, len as nat);
}

proof fn lemma_position_after_steps(pos: int, k: nat, len: int)
    requires
        0 <= pos < len,
    ensures
        position_after(pos, k, len) == (pos + k) % len,
    decreases k,
{
    if k == 0 {
        vstd::arithmetic::div_mod::lemma_small_mod(pos as nat, len as nat);
    } else {
        lemma_position_after_steps(pos, (k - 1) as nat, len);
        vstd::arithmetic::div_mod::lemma_add_mod_noop_right(1, pos + k - 1, len);
    }
}

/// The two neighbouring samples for a linear-interpolated read at integer
/// part `i` of a buffer of `n`: `i` and the sample after it, both taken round
/// the buffer.
pub fn wrap_pair(i: usize, n: usize) -> (r: (usize, usize))
    requires
        n > 0,
    ensures
        r.0 == i % n,
        r.1 == (r.0 + 1) % (n as int),
        r.0 < n,
        r.1 < n,
{
    let a = i % n;
    let b = if a + 1 == n { 0 } else { a + 1 };
    proof {
        if a + 1 == n {
            vstd::arithmetic::div_mod::lemma_mod_self_0(n as int);
        } else {
            vstd::arithmetic::div_mod::lemma_small_mod((a + 1) as nat, n as nat);
        }
    }
    (a, b)
}

/// The frame after `a` in a stack of `n` frames, held at the last frame:
/// the lesser of `a + 1` and `n - 1`.
pub fn next_frame_clamped(a: usize, n: usize) -> (b: usize)
    requires
        n > 0,
    ensures
        b == if a + 1 < n { a + 1 } else { (n - 1) as int },
        b < n,
{
    if a < n - 1 {
        a + 1
    } else {
        n - 1
    }
}

/// The shortest window a freeze captures, in samples.
pub const MIN_CAPTURE: usize = 256;

/// Length of a captured window: the requested length held to at least
/// `MIN_CAPTURE` and at most the whole sample.
pub fn capture_len(requested: usize, available: usize) -> (n: usize)
    requires
        available >= MIN_CAPTURE,
    ensures
        n == if requested < MIN_CAPTURE { MIN_CAPTURE as int } else if requested > available { available as int } else { requested as int },
        MIN_CAPTURE <= n <= available,
{
    if requested < MIN_CAPTURE {
        MIN_CAPTURE
    } else if requested > available {
        available
    } else {
        requested
    }
}

/// Copy the `want` samples of `sample` centred on `center` (taken round the
/// sample): the window starts `want / 2` samples before the centre and reads
/// circularly from there.
pub fn capture_window<T: Copy>(sample: &[T], center: usize, want: usize) -> (w: Vec<T>)
    requires
        0 < sample@.len(),
        want <= sample@.len(),
    ensures
        w@.len() == want,
        forall|k: int|
            0 <= k < want ==> #[trigger] w@[k] == sample@[(center as int % sample@.len() as int
                + sample@.len() as int - want as int / 2 + k) % sample@.len() as int],
{
    let n = sample.len();
    let c = center % n;
    let h = want / 2;
    let first = if c >= h { c - h } else { c + (n - h) };
    let mut cursor = RingCursor::starting_at(n, first);
    let mut w: Vec<T> = Vec::new();
    let ghost lead = c as int + n as int - h as int;
    proof {
        vstd::arithmetic::div_mod::lemma_small_mod(first as nat, n as nat);
    }
    let mut k: usize = 0;
    while k < want
        invariant
            n == sample@.len(),
            n > 0,
            c == center as int % n as int,
            h == want / 2,
            lead == c as int + n as int - h as int,
            first < n,
            lead == first as int || lead == first as int + n as int,
            k <= want,
            w@.len() == k,
            cursor.spec_len() == n,
            cursor.spec_pos() == (first + k) % (n as int),
            forall|j: int| 0 <= j < k ==> #[trigger] w@[j] == sample@[(lead + j) % n as int],
        decreases want - k,
    {
        let p = cursor.position();
        proof {
            if lead != first as int {
                vstd::arithmetic::div_mod::lemma_mod_add_multiples_vanish(first + k, n as int);
            }
            assert((first + k) % (n as int) == (lead + k) % (n as int));
        }
        w.push(sample[p]);
        cursor.advance();
        proof {
            vstd::arithmetic::div_mod::lemma_add_mod_noop_right(1, first + k, n as int);
        }
        k = k + 1;
    }
    w
}

} // verus!
