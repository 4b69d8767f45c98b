//! Modifier-key state: a bitset over a fixed domain of named flags.

use vstd::prelude::*;

verus! {

// One bit per modifier flag. Together the bits cover the whole flag
// domain; `ALL_BITS` is their union.
pub const ALT_BIT: u32 = 0x1;
pub const ALT_GRAPH_BIT: u32 = 0x2;
pub const CAPS_LOCK_BIT: u32 = 0x4;
pub const CONTROL_BIT: u32 = 0x8;
pub const FN_BIT: u32 = 0x10;
pub const FN_LOCK_BIT: u32 = 0x20;
pub const META_BIT: u32 = 0x40;
pub const NUM_LOCK_BIT: u32 = 0x80;
pub const SCROLL_LOCK_BIT: u32 = 0x100;
pub const SHIFT_BIT: u32 = 0x200;
pub const SYMBOL_BIT: u32 = 0x400;
pub const SYMBOL_LOCK_BIT: u32 = 0x800;
pub const HYPER_BIT: u32 = 0x1000;
pub const SUPER_BIT: u32 = 0x2000;
pub const ALL_BITS: u32 = 0x3fff;

/// The set of modifier keys currently held, as a bitset over the flag
/// domain above. Construction starts from `empty()` and accumulates
/// `set` calls driven by backend modifier-change notifications.
#[derive(Clone, Copy, Debug, PartialEq, Eq, Hash, Structural)]
pub struct Modifiers(pub u32);

impl Modifiers {
    /// True when every flag set in `other` is also set in `self`.
    pub open spec fn spec_contains(self, other: Modifiers) -> bool {
        self.0 & other.0 == other.0
    }

    /// True when the bits stay inside the flag domain.
    pub open spec fn wf(self) -> bool {
        self.0 & !ALL_BITS == 0
    }

    /// The Alt flag alone.
    #[allow(non_snake_case)]
    pub fn ALT() -> (m: Modifiers)
        ensures
            m.0 == ALT_BIT,
    {
        Modifiers(ALT_BIT)
    }

    /// The AltGraph flag alone.
    #[allow(non_snake_case)]
    pub fn ALT_GRAPH() -> (m: Modifiers)
        ensures
            m.0 == ALT_GRAPH_BIT,
    {
        Modifiers(ALT_GRAPH_BIT)
    }

    /// The CapsLock flag alone.
    #[allow(non_snake_case)]
    pub fn CAPS_LOCK() -> (m: Modifiers)
        ensures
            m.0 == CAPS_LOCK_BIT,
    {
        Modifiers(CAPS_LOCK_BIT)
    }

    /// The Control flag alone.
    #[allow(non_snake_case)]
    pub fn CONTROL() -> (m: Modifiers)
        ensures
            m.0 == CONTROL_BIT,
    {
        Modifiers(CONTROL_BIT)
    }

    /// The Fn flag alone.
    #[allow(non_snake_case)]
    pub fn FN() -> (m: Modifiers)
        ensures
            m.0 == FN_BIT,
    {
        Modifiers(FN_BIT)
    }

    /// The FnLock flag alone.
    #[allow(non_snake_case)]
    pub fn FN_LOCK() -> (m: Modifiers)
        ensures
            m.0 == FN_LOCK_BIT,
    {
        Modifiers(FN_LOCK_BIT)
    }

    /// The Meta flag alone.
    #[allow(non_snake_case)]
    pub fn META() -> (m: Modifiers)
        ensures
            m.0 == META_BIT,
    {
        Modifiers(META_BIT)
    }

    /// The NumLock flag alone.
    #[allow(non_snake_case)]
    pub fn NUM_LOCK() -> (m: Modifiers)
        ensures
            m.0 == NUM_LOCK_BIT,
    {
        Modifiers(NUM_LOCK_BIT)
    }

    /// The ScrollLock flag alone.
    #[allow(non_snake_case)]
    pub fn SCROLL_LOCK() -> (m: Modifiers)
        ensures
            m.0 == SCROLL_LOCK_BIT,
    {
        Modifiers(SCROLL_LOCK_BIT)
    }

    /// The Shift flag alone.
    #[allow(non_snake_case)]
    pub fn SHIFT() -> (m: Modifiers)
        ensures
            m.0 == SHIFT_BIT,
    {
        Modifiers(SHIFT_BIT)
    }

    /// The Symbol flag alone.
    #[allow(non_snake_case)]
    pub fn SYMBOL() -> (m: Modifiers)
        ensures
            m.0 == SYMBOL_BIT,
    {
        Modifiers(SYMBOL_BIT)
    }

    /// The SymbolLock flag alone.
    #[allow(non_snake_case)]
    pub fn SYMBOL_LOCK() -> (m: Modifiers)
        ensures
            m.0 == SYMBOL_LOCK_BIT,
    {
        Modifiers(SYMBOL_LOCK_BIT)
    }

    /// The Hyper flag alone.
    #[allow(non_snake_case)]
    pub fn HYPER() -> (m: Modifiers)
        ensures
            m.0 == HYPER_BIT,
    {
        Modifiers(HYPER_BIT)
    }

    /// The Super flag alone.
    #[allow(non_snake_case)]
    pub fn SUPER() -> (m: Modifiers)
        ensures
            m.0 == SUPER_BIT,
    {
        Modifiers(SUPER_BIT)
    }

    /// Get the raw bits.
    pub fn raw(&self) -> (r: u32)
        ensures
            r == self.0,
    {
        self.0
    }

    /// Determine whether Shift is set.
    pub fn shift(&self) -> (r: bool)
        ensures
            r == self.spec_contains(Modifiers(SHIFT_BIT)),
    {
        self.0 & SHIFT_BIT == SHIFT_BIT
    }

    /// Determine whether Ctrl is set.
    pub fn ctrl(&self) -> (r: bool)
        ensures
            r == self.spec_contains(Modifiers(CONTROL_BIT)),
    {
        self.0 & CONTROL_BIT == CONTROL_BIT
    }

    /// Determine whether Alt is set.
    pub fn alt(&self) -> (r: bool)
        ensures
            r == self.spec_contains(Modifiers(ALT_BIT)),
    {
        self.0 & ALT_BIT == ALT_BIT
    }

    /// Determine whether Meta is set.
    pub fn meta(&self) -> (r: bool)
        ensures
            r == self.spec_contains(Modifiers(META_BIT)),
    {
        self.0 & META_BIT == META_BIT
    }

    /// Returns an empty set of modifiers.
    pub fn empty() -> (m: Modifiers)
        ensures
            m.0 == 0,
    {
        Modifiers(0)
    }

    /// Returns `true` if no modifiers are set.
    pub fn is_empty(&self) -> (r: bool)
        ensures
            r == (self.0 == 0),
    {
        self.0 == 0
    }

    /// Returns `true` if all the modifiers in `other` are set.
    pub fn contains(&self, other: Modifiers) -> (r: bool)
        ensures
            r == self.spec_contains(other),
    {
        self.0 & other.0 == other.0
    }

    /// Inserts or removes the flags in `other` depending on `value`,
    /// leaving all unrelated flags untouched.
    pub fn set(&mut self, other: Modifiers, value: bool)
        ensures
            final(self).0 == if value {
                old(self).0 | other.0
            } else {
                old(self).0 & !other.0
            },
    {
        if value {
            self.0 = self.0 | other.0;
        } else {
            self.0 = self.0 & !other.0;
        }
    }

    /// The flags set in both `self` and `rhs`.
    pub fn bitand(self, rhs: Modifiers) -> (m: Modifiers)
        ensures
            m.0 == self.0 & rhs.0,
    {
        Modifiers(self.0 & rhs.0)
    }

    /// The flags set in `self`, in `rhs`, or in both.
    pub fn bitor(self, rhs: Modifiers) -> (m: Modifiers)
        ensures
            m.0 == self.0 | rhs.0,
    {
        Modifiers(self.0 | rhs.0)
    }

    /// The flags set in exactly one of `self` and `rhs`.
    pub fn bitxor(self, rhs: Modifiers) -> (m: Modifiers)
        ensures
            m.0 == self.0 ^ rhs.0,
    {
        Modifiers(self.0 ^ rhs.0)
    }

    /// The flags of the domain that are not set in `self`.
    pub fn not(self) -> (m: Modifiers)
        ensures
            m.0 == !self.0 & ALL_BITS,
    {
        Modifiers(!self.0 & ALL_BITS)
    }
}

impl Default for Modifiers {
    /// The empty set of modifiers.
    fn default() -> (m: Modifiers)
        ensures
            m.0 == 0,
    {
        Modifiers(0)
    }
}

/// The union of two modifier sets contains each of them: after
/// `a.bitor(b)`, both `contains(a)` and `contains(b)` hold, whatever
/// flags `a` and `b` carry.
pub proof fn lemma_union_contains_both(a: Modifiers, b: Modifiers)
    ensures
        Modifiers(a.0 | b.0).spec_contains(a),
        Modifiers(a.0 | b.0).spec_contains(b),
{
    let x = a.0;
    let y = b.0;
    assert((x | y) & x == x) by (bit_vector);
    assert((x | y) & y == y) by (bit_vector);
}

/// Setting a flag and clearing it again restores the original set,
/// provided the flag was not set to begin with; in particular a round
/// trip from `empty()` ends empty.
pub proof fn lemma_set_round_trip(m: Modifiers, flag: Modifiers)
    requires
        m.0 & flag.0 == 0,
    ensures
        (m.0 | flag.0) & !flag.0 == m.0,
{
    let a = m.0;
    let b = flag.0;
    assert(a & b == 0 ==> (a | b) & !b == a) by (bit_vector);
}

/// The empty set is the identity for union and absorbing for
/// intersection.
pub proof fn lemma_empty_identity(m: Modifiers)
    ensures
        m.0 | 0 == m.0,
        m.0 & 0 == 0,
        Modifiers(0).spec_contains(m) <==> m.0 == 0,
{
    let x = m.0;
    assert(x | 0 == x) by (bit_vector);
    assert(x & 0 == 0) by (bit_vector);
    assert(0 & x == x <==> x == 0) by (bit_vector);
}

/// Bitwise and, or, xor and domain complement never leave the flag
/// domain: the bitset is closed under its operations.
pub proof fn lemma_operations_closed(a: Modifiers, b: Modifiers)
    requires
        a.wf(),
        b.wf(),
    ensures
        Modifiers(a.0 & b.0).wf(),
        Modifiers(a.0 | b.0).wf(),
        Modifiers(a.0 ^ b.0).wf(),
        Modifiers(!a.0 & ALL_BITS).wf(),
{
    let x = a.0;
    let y = b.0;
    assert(x & !0x3fffu32 == 0 && y & !0x3fffu32 == 0 ==> (x & y) & !0x3fffu32 == 0)
        by (bit_vector);
    assert(x & !0x3fffu32 == 0 && y & !0x3fffu32 == 0 ==> (x | y) & !0x3fffu32 == 0)
        by (bit_vector);
    assert(x & !0x3fffu32 == 0 && y & !0x3fffu32 == 0 ==> (x ^ y) & !0x3fffu32 == 0)
        by (bit_vector);
    assert((!x & 0x3fffu32) & !0x3fffu32 == 0) by (bit_vector);
}

} // verus!
