//! The condition variable's state word: a sleeper count in the low bits and a
//! pending-wakeup mode in the two bits above it.
use vstd::prelude::*;

verus! {

/// No wakeup is pending.
pub const WAKEUP_MODE_NONE: usize = 0;

/// One wake-one credit is outstanding.
pub const WAKEUP_MODE_ONE: usize = 0x4000_0000;

/// A broadcast is outstanding.
pub const WAKEUP_MODE_ALL: usize = 0x8000_0000;

/// Both mode bits.
pub const WAKEUP_MODE_MASK: usize = 0xC000_0000;

/// Every bit of the word that the mode does not use.
pub const SLEEPERS_COUNT_MASK: usize = !0xC000_0000usize;

/// The wakeup modes that the state word can carry.
#[derive(Clone, Copy, Debug, PartialEq, Eq, Structural)]
pub enum WakeupMode {
    Idle,
    One,
    All,
}

/// The bit that a mode occupies in the state word.
pub open spec fn mode_bit(m: WakeupMode) -> nat {
    match m {
        WakeupMode::Idle => 0,
        WakeupMode::One => WAKEUP_MODE_ONE as nat,
        WakeupMode::All => WAKEUP_MODE_ALL as nat,
    }
}

/// The word that packs `sleepers` with mode `m`.
pub open spec fn pack(sleepers: nat, m: WakeupMode) -> nat {
    sleepers + mode_bit(m)
}

/// A word whose sleeper count stays below the mode bits and whose mode bits
/// are not both set.
pub open spec fn word_ok(w: nat) -> bool {
    w < WAKEUP_MODE_MASK as nat
}

/// The wakeup mode that a word carries.
pub open spec fn mode_of(w: nat) -> WakeupMode {
    if w >= WAKEUP_MODE_ALL as nat {
        WakeupMode::All
    } else if w >= WAKEUP_MODE_ONE as nat {
        WakeupMode::One
    } else {
        WakeupMode::Idle
    }
}

/// The sleeper count that a word carries.
pub open spec fn sleepers_of(w: nat) -> nat {
    (w - mode_bit(mode_of(w))) as nat
}

/// A well-formed word is its sleeper count packed with its mode, and packing
/// a fitting count with a mode gives a well-formed word back.
pub proof fn lemma_pack_unpack(s: nat, m: WakeupMode)
    requires
        s < WAKEUP_MODE_ONE as nat,
    ensures
        word_ok(pack(s, m)),
        sleepers_of(pack(s, m)) == s,
        mode_of(pack(s, m)) == m,
{
}

proof fn lemma_split_bits(w: usize, s: usize, m: usize)
    requires
        s < 0x4000_0000usize,
        m == 0usize || m == 0x4000_0000usize || m == 0x8000_0000usize,
        w == s + m,
    ensures
        w & 0xC000_0000usize == m,
        w & !0xC000_0000usize == s,
{
    assert(w & 0xC000_0000usize == m && w & !0xC000_0000usize == s) by (bit_vector)
        requires
            s < 0x4000_0000usize,
            m == 0usize || m == 0x4000_0000usize || m == 0x8000_0000usize,
            w == s + m,
    ;
}

/// Reads the sleeper count and the mode out of a well-formed word.
pub fn unpack(w: usize) -> (r: (usize, WakeupMode))
    requires
        word_ok(w as nat),
    ensures
        r.0 as nat == sleepers_of(w as nat),
        r.1 == mode_of(w as nat),
{
    proof {
        lemma_split_bits(w, sleepers_of(w as nat) as usize, mode_bit(mode_of(w as nat)) as usize);
    }
    let bits = w & WAKEUP_MODE_MASK;
    let count = w & SLEEPERS_COUNT_MASK;
    if bits == WAKEUP_MODE_ONE {
        (count, WakeupMode::One)
    } else if bits == WAKEUP_MODE_ALL {
        (count, WakeupMode::All)
    } else {
        (count, WakeupMode::Idle)
    }
}

} // verus!
