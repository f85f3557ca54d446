//! Pitch decisions: key masks, key quantisation and chord voicing.
//!
//! A key mask is a 12-bit set of allowed pitch classes (bit `n` = semitone
//! `n` above the root). Offsets are in whole semitones; the caller turns
//! them into frequencies.

use vstd::prelude::*;

verus! {

/// Every pitch class allowed.
pub const CHROMATIC_MASK: u16 = 0xFFF;

/// The arp's default key: a major-ish scale.
pub const DEFAULT_KEY_MASK: u16 = 0b1010_1101_0101;

/// Whether pitch class `n` (0..12) is set in `mask`.
pub open spec fn class_allowed(mask: u16, n: int) -> bool {
    0 <= n < 12 && (mask >> (n as u16)) & 1u16 == 1u16
}

/// Whether semitone offset `s` lies in the key (its pitch class is allowed).
pub open spec fn in_key(mask: u16, s: int) -> bool {
    class_allowed(mask, s % 12)
}

pub open spec fn distance(a: int, b: int) -> int {
    if a >= b { a - b } else { b - a }
}

/// The key mask in force after setting `mask`: an empty mask means chromatic.
pub open spec fn effective_mask(mask: u16) -> u16 {
    if mask == 0 { CHROMATIC_MASK } else { mask }
}

/// The key mask in force after setting `mask`: an empty mask means chromatic.
pub fn effective_key_mask(mask: u16) -> (m: u16)
    ensures
        m == effective_mask(mask),
{
    if mask == 0 {
        CHROMATIC_MASK
    } else {
        mask
    }
}

/// Pitch class (0..12) of a semitone offset.
fn pitch_class(s: i32) -> (n: u16)
    ensures
        n as int == s as int % 12,
        n < 12,
{
    let q = s % 12;
    let c = if q < 0 { q + 12 } else { q };
    c as u16
}

/// Whether pitch class `n` is set in `mask`.
fn mask_has(mask: u16, n: u16) -> (b: bool)
    requires
        n < 12,
    ensures
        b == class_allowed(mask, n as int),
{
    (mask >> n) & 1u16 == 1u16
}

/// Quantise semitone offset `s` to the nearest in-key offset, preferring the
/// upper one when two are equally near. `None` when the mask allows no pitch
/// class at all (the caller then keeps the unquantised offset).
pub fn quantize(s: i32, mask: u16) -> (r: Option<i32>)
    requires
        i32::MIN + 11 <= s <= i32::MAX - 11,
    ensures
        r matches Some(q) ==> {
            &&& in_key(mask, q as int)
            &&& distance(q as int, s as int) <= 6
            &&& forall|t: int|
                distance(t, s as int) < distance(q as int, s as int) ==> !#[trigger] in_key(mask, t)
            &&& (q < s ==> !in_key(mask, 2 * s - q))
        },
        r is None <==> forall|n: int| 0 <= n < 12 ==> !#[trigger] class_allowed(mask, n),
{
    let mut d: i32 = 0;
    while d < 12
        invariant
            0 <= d <= 12,
            i32::MIN + 11 <= s <= i32::MAX - 11,
            forall|t: int| distance(t, s as int) < d ==> !#[trigger] in_key(mask, t),
        decreases 12 - d,
    {
        let up = s + d;
        if mask_has(mask, pitch_class(up)) {
            proof {
                lemma_nearest_within_half_octave(s as int, up as int, mask);
            }
            return Some(up);
        }
        let down = s - d;
        if mask_has(mask, pitch_class(down)) {
            proof {
                lemma_nearest_within_half_octave(s as int, down as int, mask);
            }
            return Some(down);
        }
        proof {
            assert forall|t: int| distance(t, s as int) < d + 1 implies !#[trigger] in_key(mask, t) by {
                if distance(t, s as int) == d {
                    assert(t == up || t == down);
                }
            }
        }
        d = d + 1;
    }
    proof {
        assert forall|n: int| 0 <= n < 12 implies !#[trigger] class_allowed(mask, n) by {
            let k = (n - s as int % 12 + 12) % 12;
            let t = s as int + k;
            assert(t % 12 == n);
            assert(!in_key(mask, t));
        }
    }
    None
}

/// Some note of every in-key pitch class lies within a half octave of any
/// offset, so the nearest in-key offset is never more than 6 semitones away.
pub proof fn lemma_nearest_within_half_octave(s: int, q: int, mask: u16)
    requires
        in_key(mask, q),
        forall|t: int| distance(t, s) < distance(q, s) ==> !#[trigger] in_key(mask, t),
    ensures
        distance(q, s) <= 6,
{
    let c = q % 12;
    let k = (c - s % 12 + 12) % 12;
    let t = if k <= 6 { s + k } else { s + k - 12 };
    assert(t % 12 == c);
    assert(in_key(mask, t));
    assert(distance(t, s) <= 6);
}

/// An offset already in the key is left where it is.
pub proof fn lemma_in_key_is_fixed(s: int, q: int, mask: u16)
    requires
        in_key(mask, s),
        in_key(mask, q),
        forall|t: int| distance(t, s) < distance(q, s) ==> !#[trigger] in_key(mask, t),
    ensures
        q == s,
{
    assert(distance(s, s) == 0);
}

/// Once a key is set, quantisation always finds a note: the effective mask
/// of any mask with a pitch class among its low 12 bits (in particular the
/// chromatic fallback for an empty mask) allows some pitch class.
pub proof fn lemma_effective_mask_has_a_class(mask: u16)
    requires
        mask == 0 || mask & CHROMATIC_MASK != 0,
    ensures
        exists|n: int| 0 <= n < 12 && #[trigger] class_allowed(effective_mask(mask), n),
{
    let m = effective_mask(mask);
    if mask == 0 {
        assert(0xFFFu16 & 0xFFFu16 != 0u16) by (bit_vector);
    }
    assert(m & 0xFFFu16 != 0u16);
    assert(m & 0xFFFu16 != 0u16 ==> (
        (m >> 0u16) & 1u16 == 1u16 || (m >> 1u16) & 1u16 == 1u16 || (m >> 2u16) & 1u16 == 1u16
        || (m >> 3u16) & 1u16 == 1u16 || (m >> 4u16) & 1u16 == 1u16 || (m >> 5u16) & 1u16 == 1u16
        || (m >> 6u16) & 1u16 == 1u16 || (m >> 7u16) & 1u16 == 1u16 || (m >> 8u16) & 1u16 == 1u16
        || (m >> 9u16) & 1u16 == 1u16 || (m >> 10u16) & 1u16 == 1u16 || (m >> 11u16) & 1u16 == 1u16
    )) by (bit_vector);
    if class_allowed(m, 0) {
    } else if class_allowed(m, 1) {
    } else if class_allowed(m, 2) {
    } else if class_allowed(m, 3) {
    } else if class_allowed(m, 4) {
    } else if class_allowed(m, 5) {
    } else if class_allowed(m, 6) {
    } else if class_allowed(m, 7) {
    } else if class_allowed(m, 8) {
    } else if class_allowed(m, 9) {
    } else if class_allowed(m, 10) {
    } else {
        assert(class_allowed(m, 11));
    }
}

/// The third of the string bed's triad: 3 semitones for minor, 4 for major.
pub fn triad_third(minor: bool) -> (t: i32)
    ensures
        t == if minor { 3int } else { 4int },
{
    if minor {
        3
    } else {
        4
    }
}

/// The chord's voicing offsets above the root: root, third, fifth, octave.
pub open spec fn chord_intervals(minor: bool) -> Seq<int> {
    seq![0, if minor { 3int } else { 4int }, 7, 12]
}

/// Offset of the `k`-th chord note above the root.
pub fn chord_interval(minor: bool, k: usize) -> (iv: i32)
    requires
        k < 4,
    ensures
        iv == chord_intervals(minor)[k as int],
{
    if k == 0 {
        0
    } else if k == 1 {
        triad_third(minor)
    } else if k == 2 {
        7
    } else {
        12
    }
}

/// Notes in a fired chord: two, or three on a coin toss.
pub fn chord_note_count(coin: bool) -> (n: usize)
    ensures
        n == if coin { 3usize } else { 2usize },
{
    if coin {
        3
    } else {
        2
    }
}

/// The arp's random octave lift: none, or one octave on a coin toss.
pub fn octave_lift(coin: bool) -> (o: i32)
    ensures
        o == if coin { 12int } else { 0int },
{
    if coin {
        12
    } else {
        0
    }
}

/// The minor chord differs from the major one only in its third, which lies a
/// semitone lower; every voicing rises strictly from the root to the octave.
pub proof fn lemma_chord_shape(minor: bool)
    ensures
        chord_intervals(true)[1] + 1 == chord_intervals(false)[1],
        forall|k: int| 0 <= k < 4 && k != 1 ==> chord_intervals(true)[k] == chord_intervals(false)[k],
        forall|j: int, k: int| 0 <= j < k < 4 ==> chord_intervals(minor)[j] < chord_intervals(minor)[k],
{
}

} // verus!
