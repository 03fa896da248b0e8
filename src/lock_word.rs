use vstd::prelude::*;

verus! {

/// Bit 31: the exclusive flag.
pub const XLOCK: u32 = 0x8000_0000;

/// Bits 8 to 31: every bit that records a hold, exclusive or shared.
pub const LOCK_MASK: u32 = 0xFFFF_FF00;

/// One unit of the shared-hold counter in bits 8 to 30.
pub const SLOCK: u32 = 0x100;

/// The largest value the shared-hold counter can take, in place.
pub const SLOCK_MAX: u32 = 0x7FFF_FF00;

/// Bits 0 to 7: the entry count of the bucket's chain, a full 8-bit field.
pub const SIZE_MASK: u32 = 0xFF;

/// The largest entry count the field can hold.
pub const SIZE_MAX: u32 = 0xFF;

/// The word records some hold, exclusive or shared.
pub open spec fn locked(w: u32) -> bool {
    w & LOCK_MASK != 0
}

/// The exclusive flag is set.
pub open spec fn exclusively_locked(w: u32) -> bool {
    w & XLOCK != 0
}

/// The entry-count subfield.
pub open spec fn entry_count(w: u32) -> u32 {
    w & SIZE_MASK
}

/// What an exclusive acquisition makes of the word it finds: the word with the
/// exclusive flag set, or nothing when the flag is already set.
pub open spec fn acquired_spec(w: u32) -> Option<u32> {
    if exclusively_locked(w) {
        None
    } else {
        Some(w | XLOCK)
    }
}

/// What a release makes of the word it finds: the exclusive flag cleared when it
/// is set, else one shared unit less; nothing when no hold is recorded.
pub open spec fn released_spec(w: u32) -> Option<u32> {
    if !locked(w) {
        None
    } else if exclusively_locked(w) {
        Some(w & !XLOCK)
    } else {
        Some((w - SLOCK) as u32)
    }
}

pub fn is_locked(w: u32) -> (r: bool)
    ensures
        r == locked(w),
{
    w & LOCK_MASK != 0
}

pub fn is_exclusively_locked(w: u32) -> (r: bool)
    ensures
        r == exclusively_locked(w),
{
    w & XLOCK != 0
}

pub fn entry_count_of(w: u32) -> (r: u32)
    ensures
        r == entry_count(w),
        r <= SIZE_MAX,
{
    assert(w & SIZE_MASK <= SIZE_MAX) by (bit_vector);
    w & SIZE_MASK
}

/// The successor of `w` under an exclusive acquisition, or `None` when the
/// exclusive flag is already set and the attempt must fail without spinning.
pub fn acquire_exclusive(w: u32) -> (r: Option<u32>)
    ensures
        r == acquired_spec(w),
{
    if w & XLOCK != 0 {
        None
    } else {
        Some(w | XLOCK)
    }
}

/// The successor of `w` under a release, or `None` when `w` records no hold:
/// such a release is a misuse and must not touch the word.
pub fn release(w: u32) -> (r: Option<u32>)
    ensures
        r == released_spec(w),
        r is None <==> w & LOCK_MASK == 0,
{
    if w & LOCK_MASK == 0 {
        None
    } else if w & XLOCK != 0 {
        Some(w & !XLOCK)
    } else {
        assert(w & LOCK_MASK != 0 && w & XLOCK == 0 ==> w >= SLOCK) by (bit_vector);
        Some(w - SLOCK)
    }
}

/// An exclusive acquisition followed by its release gives back the word as it
/// was: only the exclusive flag is set and then cleared, and the entry count
/// is the same throughout.
pub proof fn lemma_exact_release(w: u32)
    requires
        !exclusively_locked(w),
    ensures
        acquired_spec(w) == Some(w | XLOCK),
        locked(w | XLOCK),
        exclusively_locked(w | XLOCK),
        released_spec(w | XLOCK) == Some(w),
        entry_count(w | XLOCK) == entry_count(w),
{
    assert(w & XLOCK == 0 ==> (w | XLOCK) & LOCK_MASK != 0) by (bit_vector);
    assert(w & XLOCK == 0 ==> (w | XLOCK) & XLOCK != 0) by (bit_vector);
    assert(w & XLOCK == 0 ==> (w | XLOCK) & !XLOCK == w) by (bit_vector);
    assert((w | XLOCK) & SIZE_MASK == w & SIZE_MASK) by (bit_vector);
}

/// A release changes no bit of the entry-count subfield, and never leaves the
/// exclusive flag set.
pub proof fn lemma_release_keeps_entry_count(w: u32)
    requires
        locked(w),
    ensures
        released_spec(w) is Some,
        entry_count(released_spec(w)->Some_0) == entry_count(w),
        !exclusively_locked(released_spec(w)->Some_0),
{
    assert(w & LOCK_MASK != 0 && w & XLOCK == 0 ==> w >= SLOCK) by (bit_vector);
    assert(w & XLOCK != 0 ==> (w & !XLOCK) & SIZE_MASK == w & SIZE_MASK) by (bit_vector);
    assert(w & XLOCK != 0 ==> (w & !XLOCK) & XLOCK == 0) by (bit_vector);
    assert(w & LOCK_MASK != 0 && w & XLOCK == 0 ==> ((w - SLOCK) as u32) & SIZE_MASK == w
        & SIZE_MASK) by (bit_vector);
    assert(w & XLOCK == 0 && w >= SLOCK ==> ((w - SLOCK) as u32) & XLOCK == 0) by (bit_vector);
}

/// A release of a word that records no hold is refused, whatever the entry
/// count.
pub proof fn lemma_release_unheld_refused(w: u32)
    requires
        w & LOCK_MASK == 0,
    ensures
        released_spec(w) is None,
        !exclusively_locked(w),
{
    assert(w & LOCK_MASK == 0 ==> w & XLOCK == 0) by (bit_vector);
}

/// Exclusion at the level of the word: once an exclusive acquisition has set
/// the flag, every further exclusive acquisition fails until a release.
pub proof fn lemma_exclusive_excludes(w: u32)
    requires
        acquired_spec(w) is Some,
    ensures
        acquired_spec(acquired_spec(w)->Some_0) is None,
{
    assert((w | XLOCK) & XLOCK != 0) by (bit_vector);
}

/// A release of an exclusive hold leaves a word that the next exclusive
/// acquisition takes.
pub proof fn lemma_release_admits_acquire(w: u32)
    requires
        exclusively_locked(w),
    ensures
        released_spec(w) is Some,
        acquired_spec(released_spec(w)->Some_0) == Some(w),
{
    assert(w & XLOCK != 0 ==> w & LOCK_MASK != 0) by (bit_vector);
    assert(w & XLOCK != 0 ==> (w & !XLOCK) & XLOCK == 0) by (bit_vector);
    assert(w & XLOCK != 0 ==> (w & !XLOCK) | XLOCK == w) by (bit_vector);
}

} // verus!
