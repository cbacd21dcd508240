//! Tagged-pointer decoding and GC coordination decisions.
//!
//! Every heap object of the guest runtime carries a hidden tag word
//! immediately before its payload.  The word packs the object's type — a
//! small-type index below a fixed threshold, the type pointer itself above
//! it — together with the collector's generational mark bits in the low
//! nibble.  The functions here decode that word and decide when a mutated
//! pointer must be queued with the collector; reading the word from object
//! memory is the caller's part, and a decoded answer must never be cached
//! across a point where the collector can run.

use vstd::prelude::*;

verus! {

/// Size in bytes of the hidden tag word: one machine word of the 64-bit
/// runtime.
pub const TAG_WORD_BYTES: usize = 8;

/// Tag values below this threshold are small-type indices; at or above it,
/// the tag is the type pointer itself.
pub const SMALL_TAG_LIMIT: usize = 1024;

/// Number of word slots in the runtime's small-type table: the threshold
/// divided by the word size, so every 16-aligned tag below the limit has a
/// slot.
pub const SMALL_TAG_TABLE_LEN: usize = 128;

/// The address of the tag word that precedes the object at `addr`.
pub fn tagged_of(addr: usize) -> (r: usize)
    requires
        addr >= TAG_WORD_BYTES,
    ensures
        r == addr - TAG_WORD_BYTES,
{
    addr - TAG_WORD_BYTES
}

/// The address of the object whose tag word sits at `addr`.
pub fn value_of(addr: usize) -> (r: usize)
    requires
        addr + TAG_WORD_BYTES <= usize::MAX,
    ensures
        r == addr + TAG_WORD_BYTES,
{
    addr + TAG_WORD_BYTES
}

/// The type tag held in a tag word: the word with the collector's mark bits
/// in the low nibble cleared.
pub fn typetag_of(header: usize) -> (r: usize)
    ensures
        r == header & !15usize,
{
    header & !15usize
}

/// Whether the tag word's type tag equals `tag`.
pub fn typetag_is(header: usize, tag: usize) -> (r: bool)
    ensures
        r == (header & !15usize == tag),
{
    typetag_of(header) == tag
}

/// Resolves a type tag to a type pointer: a tag below the small-type
/// threshold indexes the runtime's fixed small-type table, word by word; any
/// other tag is the type pointer itself.
pub fn to_typeof(tag: usize, small_table: &[usize]) -> (r: usize)
    requires
        small_table@.len() == SMALL_TAG_TABLE_LEN,
    ensures
        tag < SMALL_TAG_LIMIT ==> r == small_table@[tag as int / TAG_WORD_BYTES as int],
        tag >= SMALL_TAG_LIMIT ==> r == tag,
{
    if tag < SMALL_TAG_LIMIT {
        small_table[tag / TAG_WORD_BYTES]
    } else {
        tag
    }
}

/// The collector's generational mark bits of a tag word: the lowest two
/// bits, where 3 means fully old and the lowest bit alone means marked old
/// at least once.
pub fn gc_bits(header: usize) -> (r: u8)
    ensures
        r == (header & 3usize) as u8,
{
    (header & 3usize) as u8
}

/// Decides the write barrier for storing a reference to `child` inside
/// `parent`, given both objects' tag words: the parent must be queued with
/// the collector exactly when it is fully old and the child is not old, so
/// the collector will rediscover the old-to-young edge.
pub fn wb_needed(parent_header: usize, child_header: usize) -> (r: bool)
    ensures
        r == (parent_header & 3usize == 3 && child_header & 1usize == 0),
{
    parent_header & 3usize == 3 && child_header & 1usize == 0
}

/// The back-edge variant of the write barrier, for when a slot itself
/// changes age: the object must be queued exactly when it is fully old.
pub fn wb_back_needed(header: usize) -> (r: bool)
    ensures
        r == (header & 3usize == 3),
{
    header & 3usize == 3
}

/// The multi-pointer variant of the write barrier, for storing an immutable
/// composite `child` inside `parent`: the pair must be queued exactly when
/// the parent is fully old, the child is not, and the child's type layout
/// tracks at least one internal pointer.
pub fn multi_wb_needed(parent_header: usize, child_header: usize, child_npointers: u32) -> (r:
    bool)
    ensures
        r == (parent_header & 3usize == 3 && child_header & 3usize != 3 && child_npointers != 0),
{
    parent_header & 3usize == 3 && child_header & 3usize != 3 && child_npointers != 0
}

/// Decides which object carries the write barrier for storing `x` into a
/// pointer array: none when `x` is null; the array's data owner when the
/// array shares another object's storage (ownership flag 3); the array
/// itself otherwise.
pub fn store_wb_target(x: usize, how: u8, array: usize, owner: usize) -> (r: Option<usize>)
    ensures
        x == 0 ==> r is None,
        x != 0 && how == 3 ==> r == Some(owner),
        x != 0 && how != 3 ==> r == Some(array),
{
    if x == 0 {
        None
    } else if how == 3 {
        Some(owner)
    } else {
        Some(array)
    }
}

/// The per-thread collector state byte that marks a region where the
/// collector may run concurrently with the thread.
pub const GC_STATE_SAFE: i8 = 2;

/// The host-side record of one thread's collector state byte.  The byte 0
/// marks the running region, where the collector must not interrupt the
/// thread; nonzero bytes mark regions the collector may treat as
/// suspendable.  Each transition decides whether the thread must poll a
/// safepoint before going on: exactly when it re-enters the running region,
/// so that it cannot run past a pending collection request.
pub struct ThreadGcState {
    state: i8,
}

impl ThreadGcState {
    /// The current state byte.
    pub closed spec fn current(&self) -> i8 {
        self.state
    }

    /// A thread starts in the running region.
    pub fn start() -> (r: Self)
        ensures
            r.current() == 0,
    {
        ThreadGcState { state: 0 }
    }

    /// Stores a new state byte, taking the caller's word `old_state` for the
    /// byte being replaced, and decides the safepoint poll from that word:
    /// the poll is owed exactly when a suspendable region is left for the
    /// running region.  Returns `old_state`, as the runtime's own transition
    /// primitive does.
    pub fn set(&mut self, state: i8, old_state: i8) -> (r: (i8, bool))
        ensures
            final(self).current() == state,
            r.0 == old_state,
            r.1 == (old_state != 0 && state == 0),
    {
        self.state = state;
        (old_state, old_state != 0 && state == 0)
    }

    /// Stores a new state byte, using the recorded current byte as the one
    /// being replaced.
    pub fn save_and_set(&mut self, state: i8) -> (r: (i8, bool))
        ensures
            final(self).current() == state,
            r.0 == old(self).current(),
            r.1 == (old(self).current() != 0 && state == 0),
    {
        let old_state = self.state;
        self.set(state, old_state)
    }

    /// Enters the running region; the returned poll flag is owed whenever a
    /// suspendable region was left.
    pub fn unsafe_enter(&mut self) -> (r: (i8, bool))
        ensures
            final(self).current() == 0,
            r.0 == old(self).current(),
            r.1 == (old(self).current() != 0),
    {
        self.save_and_set(0)
    }

    /// Leaves the running region for `state`; no poll is owed.
    pub fn unsafe_leave(&mut self, state: i8) -> (r: bool)
        ensures
            final(self).current() == state,
            r == false,
    {
        let (_prev, poll) = self.set(state, 0);
        poll
    }

    /// Enters the suspendable region; no poll is owed.
    pub fn safe_enter(&mut self) -> (r: (i8, bool))
        ensures
            final(self).current() == GC_STATE_SAFE,
            r.0 == old(self).current(),
            r.1 == false,
    {
        self.save_and_set(GC_STATE_SAFE)
    }

    /// Leaves the suspendable region for `state`; the poll is owed exactly
    /// when `state` is the running region.
    pub fn safe_leave(&mut self, state: i8) -> (r: bool)
        ensures
            final(self).current() == state,
            r == (state == 0),
    {
        let (_prev, poll) = self.set(state, GC_STATE_SAFE);
        poll
    }
}

} // verus!
