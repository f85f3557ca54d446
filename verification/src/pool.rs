//! Fixed-size slot pools for grains and voices.
//!
//! Every pool in the instruments is sized once and never grows: the grain
//! cloud's 16 grains, the arp's 16 voices and the string bed's 12. A slot is
//! active while its grain or voice sounds; the caller holds the audio state of
//! each slot and releases the slot when its sound has died away. New sounds
//! take the first free slot below a limit; when there is none the grain cloud
//! drops the request, while the voice pools steal the slot with the smallest
//! stamp (the string bed stamps a voice with its age, the arp with its
//! loudness, so the arp steals its quietest voice).

use vstd::prelude::*;

verus! {

/// Grains in a grain cloud.
pub const MAX_GRAINS: usize = 16;

/// Voices in the arp's pool.
pub const ARP_MAX_VOICES: usize = 16;

/// Voices in the string bed's pool.
pub const STRING_MAX_VOICES: usize = 12;

/// The arp never starts more than this many voices on one clock tick.
pub const PER_TICK: usize = 3;

/// Number of active slots.
pub open spec fn count_active(s: Seq<bool>) -> nat
    decreases s.len(),
{
    if s.len() == 0 {
        0
    } else {
        count_active(s.drop_last()) + if s.last() { 1nat } else { 0nat }
    }
}

/// No slot at or above `limit` is active.
pub open spec fn within_limit(s: Seq<bool>, limit: int) -> bool {
    forall|j: int| limit <= j < s.len() ==> !#[trigger] s[j]
}

#[derive(Clone, Copy, Debug)]
struct Slot {
    active: bool,
    stamp: u64,
}

/// A fixed number of slots, each active or free, each carrying a stamp.
pub struct SlotPool {
    slots: Vec<Slot>,
}

impl SlotPool {
    /// Which slots are active.
    pub closed spec fn slots(&self) -> Seq<bool> {
        self.slots@.map_values(|s: Slot| s.active)
    }

    /// Each slot's stamp.
    pub closed spec fn stamps(&self) -> Seq<u64> {
        self.slots@.map_values(|s: Slot| s.stamp)
    }

    /// `capacity` free slots, all stamped 0.
    pub fn new(capacity: usize) -> (p: SlotPool)
        ensures
            p.slots() == Seq::new(capacity as nat, |i: int| false),
            p.stamps() == Seq::new(capacity as nat, |i: int| 0u64),
    {
        let mut slots: Vec<Slot> = Vec::new();
        let mut i: usize = 0;
        while i < capacity
            invariant
                i <= capacity,
                slots@.len() == i,
                forall|k: int| 0 <= k < i ==> #[trigger] slots@[k] == (Slot { active: false, stamp: 0 }),
            decreases capacity - i,
        {
            slots.push(Slot { active: false, stamp: 0 });
            i = i + 1;
        }
        let p = SlotPool { slots };
        assert(p.slots() =~= Seq::new(capacity as nat, |i: int| false));
        assert(p.stamps() =~= Seq::new(capacity as nat, |i: int| 0u64));
        p
    }

    /// Number of slots.
    pub fn capacity(&self) -> (n: usize)
        ensures
            n == self.slots().len(),
            n == self.stamps().len(),
    {
        self.slots.len()
    }

    /// Whether slot `i` is active.
    pub fn is_active(&self, i: usize) -> (b: bool)
        requires
            i < self.slots().len(),
        ensures
            b == self.slots()[i as int],
    {
        self.slots[i].active
    }

    /// Stamp of slot `i`.
    pub fn stamp(&self, i: usize) -> (s: u64)
        requires
            i < self.stamps().len(),
        ensures
            s == self.stamps()[i as int],
    {
        self.slots[i].stamp
    }

    /// Number of active slots.
    pub fn count_active(&self) -> (n: usize)
        ensures
            n == count_active(self.slots()),
    {
        let ghost act = self.slots();
        let mut n: usize = 0;
        let mut i: usize = 0;
        while i < self.slots.len()
            invariant
                act == self.slots(),
                act.len() == self.slots@.len(),
                i <= act.len(),
                n == count_active(act.take(i as int)),
                n <= i,
            decreases act.len() - i,
        {
            assert(act.take(i + 1).drop_last() == act.take(i as int));
            if self.slots[i].active {
                n = n + 1;
            }
            i = i + 1;
        }
        assert(act.take(i as int) == act);
        n
    }

    /// The first free slot below `limit`, if any.
    pub fn first_free(&self, limit: usize) -> (r: Option<usize>)
        ensures
            r matches Some(i) ==> {
                &&& i < limit
                &&& i < self.slots().len()
                &&& !self.slots()[i as int]
                &&& forall|j: int| 0 <= j < i ==> #[trigger] self.slots()[j]
            },
            r is None ==> forall|j: int| 0 <= j < limit && j < self.slots().len() ==> #[trigger] self.slots()[j],
    {
        let mut i: usize = 0;
        while i < limit && i < self.slots.len()
            invariant
                i <= self.slots@.len(),
                forall|j: int| 0 <= j < i ==> #[trigger] self.slots()[j],
            decreases self.slots@.len() - i,
        {
            if !self.slots[i].active {
                return Some(i);
            }
            i = i + 1;
        }
        None
    }

    /// The slot below `limit` with the smallest stamp (the first of equals).
    pub fn oldest(&self, limit: usize) -> (r: usize)
        requires
            0 < limit <= self.stamps().len(),
        ensures
            r < limit,
            forall|j: int| 0 <= j < limit ==> self.stamps()[r as int] <= #[trigger] self.stamps()[j],
            forall|j: int| 0 <= j < r ==> self.stamps()[r as int] < #[trigger] self.stamps()[j],
    {
        let mut best: usize = 0;
        let mut i: usize = 1;
        while i < limit
            invariant
                1 <= i <= limit <= self.slots@.len(),
                best < i,
                forall|j: int| 0 <= j < i ==> self.stamps()[best as int] <= #[trigger] self.stamps()[j],
                forall|j: int| 0 <= j < best ==> self.stamps()[best as int] < #[trigger] self.stamps()[j],
            decreases limit - i,
        {
            if self.slots[i].stamp < self.slots[best].stamp {
                best = i;
            }
            i = i + 1;
        }
        best
    }

    /// Mark slot `i` active with stamp `stamp`.
    pub fn activate(&mut self, i: usize, stamp: u64)
        requires
            i < old(self).slots().len(),
        ensures
            final(self).slots() == old(self).slots().update(i as int, true),
            final(self).stamps() == old(self).stamps().update(i as int, stamp),
            final(self).slots().len() == old(self).slots().len(),
    {
        self.slots.set(i, Slot { active: true, stamp });
        assert(self.slots() =~= old(self).slots().update(i as int, true));
        assert(self.stamps() =~= old(self).stamps().update(i as int, stamp));
    }

    /// Free slot `i` (its sound has died away).
    pub fn release(&mut self, i: usize)
        requires
            i < old(self).slots().len(),
        ensures
            final(self).slots() == old(self).slots().update(i as int, false),
            final(self).stamps() == old(self).stamps(),
            final(self).slots().len() == old(self).slots().len(),
    {
        let stamp = self.slots[i].stamp;
        self.slots.set(i, Slot { active: false, stamp });
        assert(self.slots() =~= old(self).slots().update(i as int, false));
        assert(self.stamps() =~= old(self).stamps());
    }

    /// Free every slot (reset).
    pub fn release_all(&mut self)
        ensures
            final(self).slots() == Seq::new(old(self).slots().len(), |i: int| false),
            final(self).stamps() == old(self).stamps(),
            final(self).slots().len() == old(self).slots().len(),
    {
        let n = self.slots.len();
        let mut i: usize = 0;
        while i < n
            invariant
                n == self.slots().len() == old(self).slots().len(),
                self.stamps() == old(self).stamps(),
                i <= n,
                forall|j: int| 0 <= j < i ==> !#[trigger] self.slots()[j],
            decreases n - i,
        {
            self.release(i);
            i = i + 1;
        }
        assert(self.slots() =~= Seq::new(n as nat, |i: int| false));
    }

    /// Take the first free slot below `limit` and mark it active with `stamp`;
    /// `None` (the pool unchanged) when every slot below `limit` is busy.
    pub fn claim(&mut self, limit: usize, stamp: u64) -> (r: Option<usize>)
        ensures
            r matches Some(i) ==> {
                &&& i < limit
                &&& i < old(self).slots().len()
                &&& !old(self).slots()[i as int]
                &&& forall|j: int| 0 <= j < i ==> #[trigger] old(self).slots()[j]
                &&& final(self).slots() == old(self).slots().update(i as int, true)
                &&& final(self).stamps() == old(self).stamps().update(i as int, stamp)
            },
            r is None ==> {
                &&& forall|j: int| 0 <= j < limit && j < old(self).slots().len() ==> #[trigger] old(self).slots()[j]
                &&& final(self).slots() == old(self).slots()
                &&& final(self).stamps() == old(self).stamps()
            },
            final(self).slots().len() == old(self).slots().len(),
    {
        match self.first_free(limit) {
            Some(i) => {
                self.activate(i, stamp);
                Some(i)
            },
            None => None,
        }
    }

    /// The slot below `limit` a new voice takes: the first free one, or else,
    /// when every slot below `limit` is busy, the one with the smallest stamp
    /// (the first of equals).
    pub fn free_or_oldest(&self, limit: usize) -> (i: usize)
        requires
            0 < limit <= self.slots().len(),
        ensures
            i < limit,
            (exists|j: int| 0 <= j < limit && !#[trigger] self.slots()[j]) ==> {
                &&& !self.slots()[i as int]
                &&& forall|j: int| 0 <= j < i ==> #[trigger] self.slots()[j]
            },
            (forall|j: int| 0 <= j < limit ==> #[trigger] self.slots()[j]) ==> {
                &&& forall|j: int| 0 <= j < limit ==> self.stamps()[i as int] <= #[trigger] self.stamps()[j]
                &&& forall|j: int| 0 <= j < i ==> self.stamps()[i as int] < #[trigger] self.stamps()[j]
            },
    {
        match self.first_free(limit) {
            Some(i) => i,
            None => self.oldest(limit),
        }
    }

    /// Re-stamp slot `i`, leaving every slot's activity as it was (the arp
    /// stamps a voice with its current loudness).
    pub fn set_stamp(&mut self, i: usize, stamp: u64)
        requires
            i < old(self).slots().len(),
        ensures
            final(self).slots() == old(self).slots(),
            final(self).stamps() == old(self).stamps().update(i as int, stamp),
    {
        let active = self.slots[i].active;
        self.slots.set(i, Slot { active, stamp });
        assert(self.slots() =~= old(self).slots());
        assert(self.stamps() =~= old(self).stamps().update(i as int, stamp));
    }

    /// Take a slot below `limit` for a new voice stamped `stamp`: the first free
    /// one, or else the one with the oldest stamp.
    pub fn claim_or_steal_oldest(&mut self, limit: usize, stamp: u64) -> (i: usize)
        requires
            0 < limit <= old(self).slots().len(),
        ensures
            i < limit,
            (exists|j: int| 0 <= j < limit && !#[trigger] old(self).slots()[j]) ==> {
                &&& !old(self).slots()[i as int]
                &&& forall|j: int| 0 <= j < i ==> #[trigger] old(self).slots()[j]
            },
            (forall|j: int| 0 <= j < limit ==> #[trigger] old(self).slots()[j]) ==> {
                &&& forall|j: int| 0 <= j < limit ==> old(self).stamps()[i as int] <= #[trigger] old(self).stamps()[j]
                &&& forall|j: int| 0 <= j < i ==> old(self).stamps()[i as int] < #[trigger] old(self).stamps()[j]
            },
            final(self).slots() == old(self).slots().update(i as int, true),
            final(self).stamps() == old(self).stamps().update(i as int, stamp),
            final(self).slots().len() == old(self).slots().len(),
            within_limit(old(self).slots(), limit as int) ==> {
                &&& within_limit(final(self).slots(), limit as int)
                &&& count_active(final(self).slots()) <= limit
            },
    {
        let i = self.free_or_oldest(limit);
        self.activate(i, stamp);
        proof {
            if within_limit(old(self).slots(), limit as int) {
                lemma_voice_cap_kept(old(self).slots(), i as int, true, limit as int);
            }
        }
        i
    }
}

/// The number of voices in force for a requested count: at least one, at
/// most the pool's size.
pub fn voice_limit(requested: usize, max: usize) -> (n: usize)
    requires
        max >= 1,
    ensures
        n == if requested < 1 { 1 } else if requested > max { max } else { requested },
        1 <= n <= max,
{
    if requested < 1 {
        1
    } else if requested > max {
        max
    } else {
        requested
    }
}

/// Voices the arp starts on one tick: `PER_TICK`, or fewer when the voice
/// limit is smaller.
pub fn spawn_count(n_voices: usize) -> (n: usize)
    ensures
        n == if n_voices < PER_TICK { n_voices } else { PER_TICK },
        n <= PER_TICK,
{
    if n_voices < PER_TICK {
        n_voices
    } else {
        PER_TICK
    }
}

/// The active count never exceeds the number of slots.
pub proof fn lemma_count_at_most_capacity(s: Seq<bool>)
    ensures
        count_active(s) <= s.len(),
    decreases s.len(),
{
    if s.len() > 0 {
        lemma_count_at_most_capacity(s.drop_last());
    }
}

/// Activating a free slot raises the active count by exactly one; freeing an
/// active slot lowers it by one.
pub proof fn lemma_count_update(s: Seq<bool>, i: int, v: bool)
    requires
        0 <= i < s.len(),
    ensures
        count_active(s.update(i, v)) + (if s[i] { 1int } else { 0int }) == count_active(s) + (if v { 1int } else { 0int }),
    decreases s.len(),
{
    if i == s.len() - 1 {
        assert(s.update(i, v).drop_last() == s.drop_last());
    } else {
        assert(s.update(i, v).drop_last() == s.drop_last().update(i, v));
        lemma_count_update(s.drop_last(), i, v);
    }
}

/// Every slot is active exactly when the active count equals the capacity.
pub proof fn lemma_full_iff_count(s: Seq<bool>)
    ensures
        (count_active(s) == s.len()) <==> (forall|j: int| 0 <= j < s.len() ==> #[trigger] s[j]),
    decreases s.len(),
{
    if s.len() > 0 {
        lemma_full_iff_count(s.drop_last());
        lemma_count_at_most_capacity(s.drop_last());
        if forall|j: int| 0 <= j < s.len() ==> #[trigger] s[j] {
            assert forall|j: int| 0 <= j < s.drop_last().len() implies #[trigger] s.drop_last()[j] by {
                assert(s[j]);
            }
        }
        if count_active(s) == s.len() {
            assert forall|j: int| 0 <= j < s.len() implies #[trigger] s[j] by {
                if j < s.len() - 1 {
                    assert(s.drop_last()[j]);
                }
            }
        }
    }
}

/// When no slot at or above `limit` is active, at most `limit` slots are.
pub proof fn lemma_count_within_limit(s: Seq<bool>, limit: int)
    requires
        0 <= limit,
        within_limit(s, limit),
    ensures
        count_active(s) <= limit,
    decreases s.len(),
{
    if s.len() > 0 {
        if s.len() <= limit {
            lemma_count_at_most_capacity(s);
        } else {
            assert(!s.last());
            assert forall|j: int| limit <= j < s.drop_last().len() implies !#[trigger] s.drop_last()[j] by {
                assert(!s[j]);
            }
            lemma_count_within_limit(s.drop_last(), limit);
        }
    }
}

/// The grain cloud's hard cap: a claim over the whole pool succeeds exactly
/// when fewer slots than the capacity are active, and a success raises the
/// active count by one. A full pool drops the request and stays as it was.
pub proof fn lemma_claim_hard_cap(before: Seq<bool>, after: Seq<bool>, r: Option<usize>)
    requires
        r matches Some(i) ==> i < before.len() && !before[i as int] && after == before.update(i as int, true),
        r is None ==> after == before && forall|j: int| 0 <= j < before.len() ==> #[trigger] before[j],
    ensures
        r is Some <==> count_active(before) < before.len(),
        r is Some ==> count_active(after) == count_active(before) + 1,
        count_active(after) <= after.len(),
{
    lemma_full_iff_count(before);
    lemma_count_at_most_capacity(before);
    lemma_count_at_most_capacity(after);
    if let Some(i) = r {
        lemma_count_update(before, i as int, true);
    }
}

/// The voice cap is kept: if no slot at or above `limit` was active, then
/// after a voice takes a slot below `limit` none is, and so at most `limit`
/// voices sound. Freeing a slot keeps it too.
pub proof fn lemma_voice_cap_kept(before: Seq<bool>, i: int, v: bool, limit: int)
    requires
        0 <= limit,
        within_limit(before, limit),
        0 <= i < before.len(),
        v ==> i < limit,
    ensures
        within_limit(before.update(i, v), limit),
        count_active(before.update(i, v)) <= limit,
{
    lemma_count_within_limit(before.update(i, v), limit);
}

} // verus!
