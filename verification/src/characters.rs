//! Botanica's ring of voice characters: names and favoured filter kinds.
//!
//! Five characters sit on a ring; the XY puck picks an angle between two ring
//! neighbours (see `ring::wrap_pair` with `CHARACTER_COUNT`). Their numeric
//! deltas are part of the floating-point signal path; the names and the
//! filter each one favours are kept here.

use vstd::prelude::*;
use crate::modes::FilterKind;

verus! {

/// Characters on the ring.
pub const CHARACTER_COUNT: usize = 5;

/// Name of ring character `i`.
pub open spec fn spec_character_name(i: int) -> Seq<char> {
    if i == 0 {
        "Glass Orchid"@
    } else if i == 1 {
        "Moss Cathedral"@
    } else if i == 2 {
        "Pollen Spark"@
    } else if i == 3 {
        "Root Murmur"@
    } else {
        "Aurora Silk"@
    }
}

/// Name of ring character `i` (Glass Orchid, Moss Cathedral, Pollen Spark,
/// Root Murmur, Aurora Silk).
pub fn character_name(i: usize) -> (s: &'static str)
    requires
        i < CHARACTER_COUNT,
    ensures
        s@ == spec_character_name(i as int),
{
    if i == 0 {
        "Glass Orchid"
    } else if i == 1 {
        "Moss Cathedral"
    } else if i == 2 {
        "Pollen Spark"
    } else if i == 3 {
        "Root Murmur"
    } else {
        "Aurora Silk"
    }
}

/// The filter kind ring character `i` favours.
pub open spec fn spec_character_favor(i: int) -> FilterKind {
    if i == 0 || i == 3 {
        FilterKind::Lowpass
    } else if i == 1 || i == 4 {
        FilterKind::Bandpass
    } else {
        FilterKind::Notch
    }
}

/// The filter kind ring character `i` favours.
pub fn character_favor(i: usize) -> (k: FilterKind)
    requires
        i < CHARACTER_COUNT,
    ensures
        k == spec_character_favor(i as int),
{
    if i == 0 || i == 3 {
        FilterKind::Lowpass
    } else if i == 1 || i == 4 {
        FilterKind::Bandpass
    } else {
        FilterKind::Notch
    }
}

/// The five characters have five different names, so a character on the
/// ring is told apart by its name.
pub proof fn lemma_names_distinct(i: int, j: int)
    requires
        0 <= i < CHARACTER_COUNT,
        0 <= j < CHARACTER_COUNT,
        i != j,
    ensures
        spec_character_name(i) != spec_character_name(j),
{
    reveal_strlit("Glass Orchid");
    reveal_strlit("Moss Cathedral");
    reveal_strlit("Pollen Spark");
    reveal_strlit("Root Murmur");
    reveal_strlit("Aurora Silk");
    if spec_character_name(i) == spec_character_name(j) {
        assert(spec_character_name(i)[0] == spec_character_name(j)[0]);
        assert(spec_character_name(i).len() == spec_character_name(j).len());
    }
}

/// The ring, in order: Glass Orchid and Root Murmur favour the lowpass,
/// Moss Cathedral and Aurora Silk the bandpass, Pollen Spark the notch.
pub proof fn lemma_character_ring()
    ensures
        spec_character_name(0) == "Glass Orchid"@,
        spec_character_name(1) == "Moss Cathedral"@,
        spec_character_name(2) == "Pollen Spark"@,
        spec_character_name(3) == "Root Murmur"@,
        spec_character_name(4) == "Aurora Silk"@,
        spec_character_favor(0) == FilterKind::Lowpass,
        spec_character_favor(1) == FilterKind::Bandpass,
        spec_character_favor(2) == FilterKind::Notch,
        spec_character_favor(3) == FilterKind::Lowpass,
        spec_character_favor(4) == FilterKind::Bandpass,
{
}

} // verus!
