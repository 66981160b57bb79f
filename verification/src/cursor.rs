//! Cursor resource cache: a fixed table of platform cursor handles,
//! indexed by logical cursor kind, created once by the host layer and
//! released exactly once at teardown.
//!
//! A handle is an opaque integer id chosen by the host layer; `None`
//! records that the platform could not create that shape. The Arrow
//! shape must always be available: every lookup falls back to it.

use vstd::prelude::*;

verus! {

/// Number of logical cursor kinds in [`CursorKind`].
pub const CURSOR_KIND_COUNT: usize = 9;

/// A logical cursor "look", independent of any host cursor handle.
#[derive(Clone, Copy, Debug, PartialEq, Eq, Structural)]
pub enum CursorKind {
    Arrow,
    TextInput,
    ResizeAll,
    ResizeNS,
    ResizeEW,
    ResizeNESW,
    ResizeNWSE,
    Hand,
    NotAllowed,
}

/// Table index of a logical cursor kind; `Arrow` is slot 0.
pub open spec fn kind_index_spec(kind: CursorKind) -> int {
    match kind {
        CursorKind::Arrow => 0,
        CursorKind::TextInput => 1,
        CursorKind::ResizeAll => 2,
        CursorKind::ResizeNS => 3,
        CursorKind::ResizeEW => 4,
        CursorKind::ResizeNESW => 5,
        CursorKind::ResizeNWSE => 6,
        CursorKind::Hand => 7,
        CursorKind::NotAllowed => 8,
    }
}

/// Table index of a logical cursor kind; `Arrow` is slot 0.
pub fn kind_index(kind: CursorKind) -> (i: usize)
    ensures
        i == kind_index_spec(kind),
        i < CURSOR_KIND_COUNT,
{
    match kind {
        CursorKind::Arrow => 0,
        CursorKind::TextInput => 1,
        CursorKind::ResizeAll => 2,
        CursorKind::ResizeNS => 3,
        CursorKind::ResizeEW => 4,
        CursorKind::ResizeNESW => 5,
        CursorKind::ResizeNWSE => 6,
        CursorKind::Hand => 7,
        CursorKind::NotAllowed => 8,
    }
}

/// A well-formed handle table has one slot per cursor kind and always
/// holds an Arrow handle (slot 0).
pub open spec fn slots_wf(slots: Seq<Option<u64>>) -> bool {
    &&& slots.len() == CURSOR_KIND_COUNT
    &&& slots[0] is Some
}

/// The Arrow handle of a well-formed table.
pub open spec fn arrow_handle(slots: Seq<Option<u64>>) -> u64 {
    match slots[0] {
        Some(h) => h,
        None => 0,
    }
}

/// What a lookup returns: the cached handle for `kind`, or the Arrow
/// handle when that shape is unavailable.
pub open spec fn lookup_spec(slots: Seq<Option<u64>>, kind: CursorKind) -> u64 {
    match slots[kind_index_spec(kind)] {
        Some(h) => h,
        None => arrow_handle(slots),
    }
}

/// The handles a teardown must release: every created (non-`None`)
/// entry, in slot order, each exactly once.
pub open spec fn created_handles(slots: Seq<Option<u64>>) -> Seq<u64>
    decreases slots.len(),
{
    if slots.len() == 0 {
        Seq::empty()
    } else {
        created_handles(slots.drop_last()) + match slots.last() {
            Some(h) => seq![h],
            None => Seq::<u64>::empty(),
        }
    }
}

/// How many slots hold a created handle.
pub open spec fn count_created(slots: Seq<Option<u64>>) -> int
    decreases slots.len(),
{
    if slots.len() == 0 {
        0
    } else {
        count_created(slots.drop_last()) + if slots.last() is Some {
            1int
        } else {
            0int
        }
    }
}

/// What one teardown call releases, given the table and whether a
/// teardown already ran: nothing the second time.
pub open spec fn teardown_model(slots: Seq<Option<u64>>, torn_down: bool) -> Seq<u64> {
    if torn_down {
        Seq::empty()
    } else {
        created_handles(slots)
    }
}

pub proof fn lemma_created_handles_len(slots: Seq<Option<u64>>)
    ensures
        created_handles(slots).len() == count_created(slots),
    decreases slots.len(),
{
    if slots.len() > 0 {
        lemma_created_handles_len(slots.drop_last());
    }
}

/// Law: over any two consecutive teardowns of one cache, every created
/// handle is released exactly once by the first call, the second call
/// releases nothing, and the total count of release calls never exceeds
/// the count of successfully created handles.
pub proof fn lemma_teardown_releases_each_handle_once(slots: Seq<Option<u64>>)
    ensures
        teardown_model(slots, false).len() == count_created(slots),
        teardown_model(slots, true).len() == 0,
        teardown_model(slots, false).len() + teardown_model(slots, true).len()
            <= count_created(slots),
{
    lemma_created_handles_len(slots);
}

/// Owns the platform cursor handles. The host layer creates one handle
/// per kind (suppressing per-shape failures) and hands the results to
/// [`CursorCache::initialize`]; it receives from [`CursorCache::teardown`]
/// the exact list of handles to destroy.
pub struct CursorCache {
    /// Handle per cursor kind, indexed by [`kind_index_spec`].
    pub slots: Vec<Option<u64>>,
    /// Whether teardown already released the handles.
    pub torn_down: bool,
}

impl CursorCache {
    /// A live, well-formed cache: full table, Arrow present, not yet
    /// torn down.
    pub open spec fn wf(&self) -> bool {
        slots_wf(self.slots@) && !self.torn_down
    }

    /// Builds the cache from the host layer's per-kind creation results.
    /// The Arrow shape must have been created: a platform without it
    /// violates the adapter's construction precondition.
    pub fn initialize(created: Vec<Option<u64>>) -> (cache: CursorCache)
        requires
            slots_wf(created@),
        ensures
            cache.slots@ == created@,
            !cache.torn_down,
            cache.wf(),
    {
        CursorCache { slots: created, torn_down: false }
    }

    /// Returns the handle for `kind`, or the Arrow handle when that
    /// shape is unavailable — never an absent handle.
    pub fn lookup(&self, kind: CursorKind) -> (handle: u64)
        requires
            self.wf(),
        ensures
            handle == lookup_spec(self.slots@, kind),
            self.slots@[kind_index_spec(kind)] == Some(handle) || self.slots@[0] == Some(
                handle,
            ),
    {
        let i = kind_index(kind);
        match self.slots[i] {
            Some(h) => h,
            None => match self.slots[0] {
                Some(h) => h,
                None => {
                    proof {
                        assert(false);
                    }
                    0
                },
            },
        }
    }

    /// Releases the cache: returns every created handle, in slot order,
    /// each exactly once, for the host layer to destroy. Safe to call
    /// again — a second call returns nothing, so no handle can be
    /// double-freed.
    pub fn teardown(&mut self) -> (released: Vec<u64>)
        ensures
            released@ == teardown_model(old(self).slots@, old(self).torn_down),
            final(self).slots@ == old(self).slots@,
            final(self).torn_down,
    {
        let mut released: Vec<u64> = Vec::new();
        if !self.torn_down {
            let n = self.slots.len();
            let mut i: usize = 0;
            while i < n
                invariant
                    i <= n,
                    n == self.slots@.len(),
                    self.slots@ == old(self).slots@,
                    self.torn_down == old(self).torn_down,
                    released@ == created_handles(self.slots@.take(i as int)),
                decreases n - i,
            {
                proof {
                    assert(self.slots@.take(i + 1).drop_last() =~= self.slots@.take(i as int));
                    assert(self.slots@.take(i + 1).last() == self.slots@[i as int]);
                }
                match self.slots[i] {
                    Some(h) => released.push(h),
                    None => {},
                }
                i += 1;
            }
            proof {
                assert(self.slots@.take(n as int) =~= self.slots@);
            }
        }
        self.torn_down = true;
        released
    }
}

} // verus!
