//! Opaque correlation tokens and the monotonic counter that mints them.
//!
//! Each token kind is a 64-bit identifier minted from a monotonically
//! increasing counter; the raw value `0` is reserved as the `INVALID`
//! sentinel and is never returned by `next`.

use vstd::prelude::*;

verus! {

/// Monotonic id allocator. The first minted value is `1`; `0` is
/// reserved for the invalid-token sentinels.
#[derive(Clone, Copy, Debug, PartialEq, Eq, Structural)]
pub struct Counter {
    pub next_value: u64,
}

impl Counter {
    /// A counter is well formed while it has not skipped past the
    /// reserved zero and still has values left to hand out.
    pub open spec fn wf(self) -> bool {
        1 <= self.next_value
    }

    /// A fresh counter, ready to mint `1` first.
    pub fn new() -> (c: Counter)
        ensures
            c.next_value == 1,
            c.wf(),
    {
        Counter { next_value: 1 }
    }

    /// Mint the next raw id: returns the current value and steps the
    /// counter, so no two calls ever return the same value.
    pub fn next(&mut self) -> (r: u64)
        requires
            old(self).wf(),
            old(self).next_value < u64::MAX,
        ensures
            r == old(self).next_value,
            final(self).next_value == old(self).next_value + 1,
            final(self).wf(),
            r != 0,
    {
        let r = self.next_value;
        self.next_value = self.next_value + 1;
        r
    }
}

impl Default for Counter {
    /// Same as `Counter::new`.
    fn default() -> (c: Counter)
        ensures
            c.next_value == 1,
    {
        Counter { next_value: 1 }
    }
}

/// The raw ids a counter at `start` hands out over its next `n` mints,
/// as mathematical integers.
pub open spec fn minted_ids(start: u64, n: nat) -> Seq<int> {
    Seq::new(n, |i: int| start + i)
}

/// Token uniqueness: the ids minted by `n` successive `next` calls are
/// pairwise distinct, and none of them is the reserved `0` sentinel.
pub proof fn lemma_minted_ids_distinct(start: u64, n: nat)
    requires
        1 <= start,
    ensures
        forall|i: int, j: int|
            0 <= i < j < n ==> minted_ids(start, n)[i] != minted_ids(start, n)[j],
        forall|i: int| 0 <= i < n ==> minted_ids(start, n)[i] != 0,
{
}

/// A token that uniquely identifies a running timer.
#[derive(Debug, Clone, Copy, PartialEq, Eq, Hash, Structural)]
pub struct TimerToken(pub u64);

impl TimerToken {
    /// A token that does not correspond to any timer.
    #[allow(non_snake_case)]
    pub fn INVALID() -> (t: TimerToken)
        ensures
            t.0 == 0,
    {
        TimerToken(0)
    }

    /// Create a new token; distinct from every other token minted from
    /// the same counter and never the invalid sentinel.
    pub fn next(counter: &mut Counter) -> (t: TimerToken)
        requires
            old(counter).wf(),
            old(counter).next_value < u64::MAX,
        ensures
            t.0 == old(counter).next_value,
            final(counter).next_value == old(counter).next_value + 1,
            final(counter).wf(),
            t.0 != 0,
    {
        TimerToken(counter.next())
    }

    /// Create a new token from a raw value.
    pub fn from_raw(id: u64) -> (t: TimerToken)
        ensures
            t.0 == id,
    {
        TimerToken(id)
    }

    /// Get the raw value for a token.
    pub fn into_raw(self) -> (r: u64)
        ensures
            r == self.0,
    {
        self.0
    }
}

/// Uniquely identifies a text input field inside a window.
#[derive(Debug, Clone, Copy, PartialEq, Eq, Hash, Structural)]
pub struct TextFieldToken(pub u64);

impl TextFieldToken {
    /// A token that does not correspond to any text input.
    #[allow(non_snake_case)]
    pub fn INVALID() -> (t: TextFieldToken)
        ensures
            t.0 == 0,
    {
        TextFieldToken(0)
    }

    /// Create a new token; distinct from every other token minted from
    /// the same counter and never the invalid sentinel.
    pub fn next(counter: &mut Counter) -> (t: TextFieldToken)
        requires
            old(counter).wf(),
            old(counter).next_value < u64::MAX,
        ensures
            t.0 == old(counter).next_value,
            final(counter).next_value == old(counter).next_value + 1,
            final(counter).wf(),
            t.0 != 0,
    {
        TextFieldToken(counter.next())
    }

    /// Create a new token from a raw value.
    pub fn from_raw(id: u64) -> (t: TextFieldToken)
        ensures
            t.0 == id,
    {
        TextFieldToken(id)
    }

    /// Get the raw value for a token.
    pub fn into_raw(self) -> (r: u64)
        ensures
            r == self.0,
    {
        self.0
    }
}

/// A token that uniquely identifies an idle schedule.
#[derive(Debug, Clone, Copy, PartialEq, Eq, Hash, Structural)]
pub struct IdleToken(pub usize);

impl IdleToken {
    /// Create a new `IdleToken` with the given raw `usize` id.
    pub fn new(raw: usize) -> (t: IdleToken)
        ensures
            t.0 == raw,
    {
        IdleToken(raw)
    }
}

/// A token that uniquely identifies a file dialog request.
#[derive(Debug, Clone, Copy, PartialEq, Eq, Hash, Structural)]
pub struct FileDialogToken(pub u64);

impl FileDialogToken {
    /// A token that does not correspond to any file dialog.
    #[allow(non_snake_case)]
    pub fn INVALID() -> (t: FileDialogToken)
        ensures
            t.0 == 0,
    {
        FileDialogToken(0)
    }

    /// Create a new token; distinct from every other token minted from
    /// the same counter and never the invalid sentinel.
    pub fn next(counter: &mut Counter) -> (t: FileDialogToken)
        requires
            old(counter).wf(),
            old(counter).next_value < u64::MAX,
        ensures
            t.0 == old(counter).next_value,
            final(counter).next_value == old(counter).next_value + 1,
            final(counter).wf(),
            t.0 != 0,
    {
        FileDialogToken(counter.next())
    }

    /// Create a new token from a raw value.
    pub fn from_raw(id: u64) -> (t: FileDialogToken)
        ensures
            t.0 == id,
    {
        FileDialogToken(id)
    }

    /// Get the raw value for a token.
    pub fn into_raw(self) -> (r: u64)
        ensures
            r == self.0,
    {
        self.0
    }
}

/// Identifies one window over the life of the process.
#[derive(Debug, Clone, Copy, PartialEq, Eq, Hash, Structural)]
pub struct WindowId(pub u64);

impl WindowId {
    /// Create a new id; distinct from every other id minted from the
    /// same counter.
    pub fn next(counter: &mut Counter) -> (w: WindowId)
        requires
            old(counter).wf(),
            old(counter).next_value < u64::MAX,
        ensures
            w.0 == old(counter).next_value,
            final(counter).next_value == old(counter).next_value + 1,
            final(counter).wf(),
            w.0 != 0,
    {
        WindowId(counter.next())
    }
}

} // verus!
