//! What the runtime records in the VM context after compiled code asks a
//! linear memory to grow.
use vstd::prelude::*;
use crate::vm::LocalMemory;

verus! {

/// Size of a WebAssembly page, in bytes.
pub const PAGE_SIZE: usize = 65536;

/// What `memory_grow_static` and `memory_grow_dynamic` record: on success the
/// new size in bytes, and the old page count as the answer; otherwise `-1`
/// and the entry left alone.
pub open spec fn grow_recorded(
    before: LocalMemory,
    after: LocalMemory,
    grown: Option<i32>,
    by_pages: u32,
    result: i32,
) -> bool {
    match grown {
        Some(previous) => {
            &&& result == previous
            &&& after.size == (previous + by_pages) * PAGE_SIZE
            &&& after.base == before.base
        },
        None => {
            &&& result == -1
            &&& after == before
        },
    }
}

/// The growths whose new size in bytes the context can hold: the memory had
/// a page count (never negative) and the grown memory fits in the address
/// space. A refused growth is always admitted.
pub open spec fn grow_fits(grown: Option<i32>, by_pages: u32) -> bool {
    grown matches Some(previous) ==> previous >= 0 && (previous + by_pages) * PAGE_SIZE
        <= usize::MAX
}

/// What growing entry `memory_index` of `memories` leaves behind: the same
/// number of entries, that entry recorded as `grow_recorded` says, and every
/// other entry untouched.
pub open spec fn grow_applied(
    before: Seq<LocalMemory>,
    after: Seq<LocalMemory>,
    memory_index: int,
    grown: Option<i32>,
    by_pages: u32,
    result: i32,
) -> bool {
    &&& after.len() == before.len()
    &&& grow_recorded(before[memory_index], after[memory_index], grown, by_pages, result)
    &&& forall|j: int| 0 <= j < before.len() && j != memory_index ==> after[j] == before[j]
}

fn record_growth(
    memories: &mut Vec<LocalMemory>,
    memory_index: usize,
    grown: Option<i32>,
    by_pages: u32,
) -> (result: i32)
    requires
        memory_index < old(memories).len(),
        grow_fits(grown, by_pages),
    ensures
        grow_applied(old(memories)@, final(memories)@, memory_index as int, grown, by_pages, result),
{
    match grown {
        Some(previous) => {
            let pages = previous as usize + by_pages as usize;
            let base = memories[memory_index].base;
            memories.set(memory_index, LocalMemory { base, size: pages * PAGE_SIZE });
            previous
        },
        None => -1,
    }
}

/// Records, in entry `memory_index` of the context's local memories, the
/// outcome of growing that statically allocated memory by `by_pages` pages.
///
/// `grown` is what the memory answered: the number of pages it had before
/// growing, or `None` when it could not grow. On success the entry gets the
/// new size in bytes and the old page count is returned; otherwise the entry
/// is left alone and `-1` is returned. No other entry changes.
pub fn memory_grow_static(
    memories: &mut Vec<LocalMemory>,
    memory_index: usize,
    grown: Option<i32>,
    by_pages: u32,
) -> (result: i32)
    requires
        memory_index < old(memories).len(),
        grow_fits(grown, by_pages),
    ensures
        grow_applied(old(memories)@, final(memories)@, memory_index as int, grown, by_pages, result),
{
    record_growth(memories, memory_index, grown, by_pages)
}

/// Records, in entry `memory_index` of the context's local memories, the
/// outcome of growing that dynamically allocated memory by `by_pages` pages,
/// as `memory_grow_static` does for a static one.
pub fn memory_grow_dynamic(
    memories: &mut Vec<LocalMemory>,
    memory_index: usize,
    grown: Option<i32>,
    by_pages: u32,
) -> (result: i32)
    requires
        memory_index < old(memories).len(),
        grow_fits(grown, by_pages),
    ensures
        grow_applied(old(memories)@, final(memories)@, memory_index as int, grown, by_pages, result),
{
    record_growth(memories, memory_index, grown, by_pages)
}

/// After a successful growth the recorded size is a whole number of pages:
/// the page count the memory had plus the pages it grew by.
pub proof fn grown_size_is_whole_pages(
    before: LocalMemory,
    after: LocalMemory,
    previous: i32,
    by_pages: u32,
    result: i32,
)
    requires
        grow_recorded(before, after, Some(previous), by_pages, result),
    ensures
        after.size % PAGE_SIZE == 0,
        after.size / PAGE_SIZE == previous + by_pages,
        result == previous,
{
    let pages = previous + by_pages;
    assert((pages * 65536) % 65536 == 0 && (pages * 65536) / 65536 == pages) by (nonlinear_arith);
}

} // verus!
