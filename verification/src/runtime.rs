//! The runtime of a guest thread: its heap, its window bounds, and the
//! symbols that the host binds for it.
//!
//! The heap itself is an allocator that lives outside this library. What is
//! decided here is which call, if any, each of the four C allocator entry
//! points makes on that heap, and which pointer the guest gets back.

use vstd::prelude::*;
use vstd::string::*;
use crate::process::ProcessBounds;

verus! {

/// The alignment of every block that the guest heap hands out.
pub const ALIGNMENT: usize = 16;

/// The range of a guest's window that backs its heap.
#[derive(Clone, Copy, Debug, PartialEq, Eq, Structural)]
pub struct HeapArena {
    pub addr: usize,
    pub size: usize,
}

/// What one thread knows of the guest it serves: the heap installed on it
/// and the bounds of the guest's window.
#[derive(Clone, Copy, Debug, PartialEq, Eq)]
pub struct ThreadState {
    pub heap: Option<HeapArena>,
    pub bounds: Option<ProcessBounds>,
}

/// Installs the heap of the thread's guest.
pub fn set_thread_heap(state: &mut ThreadState, heap: HeapArena)
    ensures
        final(state).heap == Some(heap),
        final(state).bounds == old(state).bounds,
{
    state.heap = Some(heap);
}

/// Sets the window bounds known to the thread, or clears them.
pub fn set_process_info(state: &mut ThreadState, bounds: Option<ProcessBounds>)
    ensures
        final(state).bounds == bounds,
        final(state).heap == old(state).heap,
{
    state.bounds = bounds;
}

/// The call on the guest heap that an allocator entry point makes.
#[derive(Clone, Copy, Debug, PartialEq, Eq, Structural)]
pub enum HeapCall {
    /// No call: the guest gets a null pointer, or nothing for `free`.
    Null,
    /// Allocate `size` bytes at `align`; on success, if `zeroed`, fill the
    /// first `size` bytes of the block with zeros.
    Allocate { size: usize, align: usize, zeroed: bool },
    /// Give the block at `ptr`, allocated at `align`, back to the heap.
    Deallocate { ptr: usize, align: usize },
    /// Resize the block at `ptr` to `size` bytes at `align`, in place or by
    /// moving it. The heap frees the old block only when it moved it.
    Reallocate { ptr: usize, size: usize, align: usize },
}

/// A block of `size` bytes at `ALIGNMENT` has a valid layout: rounded up to
/// the alignment, its size does not exceed `isize::MAX`.
pub open spec fn layout_fits(size: usize) -> bool {
    size + (ALIGNMENT - 1) <= isize::MAX
}

/// The call that `malloc(size)` makes.
pub open spec fn malloc_call(state: ThreadState, size: usize) -> HeapCall {
    match state.heap {
        Some(heap) if size != 0 && layout_fits(size) && size <= heap.size => HeapCall::Allocate {
            size,
            align: ALIGNMENT,
            zeroed: false,
        },
        _ => HeapCall::Null,
    }
}

/// The call that `free(ptr)` makes.
pub open spec fn free_call(state: ThreadState, ptr: usize) -> HeapCall {
    if ptr != 0 && state.heap is Some {
        HeapCall::Deallocate { ptr, align: ALIGNMENT }
    } else {
        HeapCall::Null
    }
}

/// The call that `calloc(nmemb, size)` makes.
pub open spec fn calloc_call(state: ThreadState, nmemb: usize, size: usize) -> HeapCall {
    if nmemb * size > usize::MAX {
        HeapCall::Null
    } else {
        match malloc_call(state, (nmemb * size) as usize) {
            HeapCall::Allocate { size, align, .. } => HeapCall::Allocate {
                size,
                align,
                zeroed: true,
            },
            call => call,
        }
    }
}

/// The call that `realloc(ptr, size)` makes.
pub open spec fn realloc_call(state: ThreadState, ptr: usize, size: usize) -> HeapCall {
    if ptr == 0 {
        malloc_call(state, size)
    } else if size == 0 {
        free_call(state, ptr)
    } else {
        match state.heap {
            Some(heap) if layout_fits(size) && size <= heap.size => HeapCall::Reallocate {
                ptr,
                size,
                align: ALIGNMENT,
            },
            _ => HeapCall::Null,
        }
    }
}

impl HeapCall {
    /// The pointer that the entry point returns to the guest, given the
    /// block that the heap answered the call with, if any.
    pub open spec fn handed_back(self, answer: Option<usize>) -> usize {
        match (self, answer) {
            (HeapCall::Allocate { .. }, Some(ptr)) => ptr,
            (HeapCall::Reallocate { .. }, Some(ptr)) => ptr,
            _ => 0,
        }
    }

    /// The pointer that the entry point returns to the guest: the block
    /// that the heap answered an allocation with, and null in every other
    /// case.
    pub fn finish(&self, answer: Option<usize>) -> (ptr: usize)
        ensures
            ptr == self.handed_back(answer),
    {
        match self {
            HeapCall::Allocate { .. } | HeapCall::Reallocate { .. } => match answer {
                Some(ptr) => ptr,
                None => 0,
            },
            _ => 0,
        }
    }
}

/// On a thread without a heap no entry point makes a call: each of them
/// decides from the state of the thread it runs on, and a thread on which
/// no heap was installed has none to call.
pub proof fn lemma_no_heap_no_call(state: ThreadState, ptr: usize, nmemb: usize, size: usize)
    requires
        state.heap is None,
    ensures
        malloc_call(state, size) == HeapCall::Null,
        free_call(state, ptr) == HeapCall::Null,
        calloc_call(state, nmemb, size) == HeapCall::Null,
        realloc_call(state, ptr, size) == HeapCall::Null,
{
}

/// A block larger than the whole heap is never asked of the heap: the guest
/// gets a null pointer, and a block passed to `realloc` stays as it is.
pub proof fn lemma_beyond_the_heap_is_null(state: ThreadState, ptr: usize, nmemb: usize, size: usize)
    requires
        state.heap matches Some(heap) && size > heap.size,
    ensures
        malloc_call(state, size) == HeapCall::Null,
        realloc_call(state, ptr, size) == HeapCall::Null,
        nmemb > 0 ==> calloc_call(state, nmemb, size) == HeapCall::Null,
        malloc_call(state, size).handed_back(None) == 0,
{
    if nmemb > 0 {
        assert(nmemb * size >= size) by (nonlinear_arith)
            requires
                nmemb > 0,
        ;
    }
}

/// What `malloc` hands out, `free` gives back to the same heap at the same
/// alignment.
pub proof fn lemma_free_gives_back_what_malloc_handed_out(
    state: ThreadState,
    size: usize,
    block: usize,
)
    requires
        malloc_call(state, size) is Allocate,
        block != 0,
    ensures
        free_call(state, malloc_call(state, size).handed_back(Some(block)))
            == (HeapCall::Deallocate { ptr: block, align: malloc_call(state, size)->Allocate_align }),
{
}

/// `calloc` asks for exactly the product of its arguments and has all of it
/// zeroed; `malloc` and `realloc` ask for exactly the size they are given,
/// and `realloc` of a block that `malloc` handed out resizes that block.
pub proof fn lemma_sizes_asked_of_the_heap(
    state: ThreadState,
    ptr: usize,
    nmemb: usize,
    size: usize,
)
    ensures
        calloc_call(state, nmemb, size) matches HeapCall::Allocate { size: total, align, zeroed }
            ==> total == nmemb * size && zeroed && align == ALIGNMENT,
        malloc_call(state, size) matches HeapCall::Allocate { size: asked, align, zeroed } ==> asked
            == size && !zeroed && align == ALIGNMENT,
        realloc_call(state, ptr, size) matches HeapCall::Reallocate { ptr: block, size: asked, align }
            ==> block == ptr && asked == size && align == ALIGNMENT,
        ptr != 0 && size != 0 && malloc_call(state, size) is Allocate ==> realloc_call(
            state,
            ptr,
            size,
        ) is Reallocate,
{
}

/// Whether a block of `size` bytes at `ALIGNMENT` has a valid layout.
fn check_layout(size: usize) -> (fits: bool)
    ensures
        fits == layout_fits(size),
{
    let max: usize = isize::MAX as usize;
    size <= max - (ALIGNMENT - 1)
}

/// `malloc`: no call for a size of zero, for a size with no valid layout,
/// for one beyond the whole heap, or on a thread without a heap.
pub fn host_malloc(state: &ThreadState, size: usize) -> (call: HeapCall)
    ensures
        call == malloc_call(*state, size),
{
    match state.heap {
        Some(heap) => {
            if size == 0 || !check_layout(size) || size > heap.size {
                HeapCall::Null
            } else {
                HeapCall::Allocate { size, align: ALIGNMENT, zeroed: false }
            }
        },
        None => HeapCall::Null,
    }
}

/// `free`: no call for a null pointer or on a thread without a heap.
pub fn host_free(state: &ThreadState, ptr: usize) -> (call: HeapCall)
    ensures
        call == free_call(*state, ptr),
{
    if ptr == 0 || state.heap.is_none() {
        HeapCall::Null
    } else {
        HeapCall::Deallocate { ptr, align: ALIGNMENT }
    }
}

/// `calloc`: as `malloc` of the product, which must not overflow, with the
/// block zeroed.
pub fn host_calloc(state: &ThreadState, nmemb: usize, size: usize) -> (call: HeapCall)
    ensures
        call == calloc_call(*state, nmemb, size),
{
    let total = match nmemb.checked_mul(size) {
        Some(t) => t,
        None => {
            return HeapCall::Null;
        },
    };
    match host_malloc(state, total) {
        HeapCall::Allocate { size, align, .. } => HeapCall::Allocate { size, align, zeroed: true },
        call => call,
    }
}

/// `realloc`: `malloc` for a null pointer, `free` for a size of zero, and
/// otherwise a resize, under the same conditions as `malloc`.
pub fn host_realloc(state: &ThreadState, ptr: usize, size: usize) -> (call: HeapCall)
    ensures
        call == realloc_call(*state, ptr, size),
{
    if ptr == 0 {
        return host_malloc(state, size);
    }
    if size == 0 {
        return host_free(state, ptr);
    }
    match state.heap {
        Some(heap) => {
            if !check_layout(size) || size > heap.size {
                HeapCall::Null
            } else {
                HeapCall::Reallocate { ptr, size, align: ALIGNMENT }
            }
        },
        None => HeapCall::Null,
    }
}

/// One of the allocator entry points that the host offers to a guest.
#[derive(Clone, Copy, Debug, PartialEq, Eq, Structural)]
pub enum Trampoline {
    Malloc,
    Free,
    Calloc,
    Realloc,
}

/// What an external symbol of a guest is bound to.
#[derive(Clone, Copy, Debug, PartialEq, Eq, Structural)]
pub enum Resolution {
    /// One of the host's allocator entry points.
    Entry(Trampoline),
    /// A word of the guest's bounds record, at this address.
    Address(usize),
    /// Whatever the host's own dynamic symbol lookup finds.
    Host,
    /// Nothing: the symbol stays unresolved.
    NotFound,
}

/// The size of a word of the bounds record.
pub open spec fn word_size() -> int {
    usize::BITS as int / 8
}

/// What the symbol `name` is bound to on a thread in `state`.
pub open spec fn resolution(state: ThreadState, name: Seq<char>) -> Resolution {
    if name == "malloc"@ {
        Resolution::Entry(Trampoline::Malloc)
    } else if name == "free"@ {
        Resolution::Entry(Trampoline::Free)
    } else if name == "calloc"@ {
        Resolution::Entry(Trampoline::Calloc)
    } else if name == "realloc"@ {
        Resolution::Entry(Trampoline::Realloc)
    } else if name == "process_base"@ {
        match state.bounds {
            Some(b) => Resolution::Address(b.base),
            None => Resolution::NotFound,
        }
    } else if name == "process_limit"@ {
        match state.bounds {
            Some(b) if b.base + word_size() <= usize::MAX => Resolution::Address(
                (b.base + word_size()) as usize,
            ),
            _ => Resolution::NotFound,
        }
    } else if name.contains('\0') {
        Resolution::NotFound
    } else {
        Resolution::Host
    }
}

/// Whether two strings hold the same characters.
fn same_text(a: &str, b: &str) -> (same: bool)
    ensures
        same == (a@ == b@),
{
    let n = a.unicode_len();
    if n != b.unicode_len() {
        return false;
    }
    let mut i: usize = 0;
    while i < n
        invariant
            n == a@.len(),
            n == b@.len(),
            i <= n,
            forall|j: int| 0 <= j < i ==> a@[j] == b@[j],
        decreases n - i,
    {
        if a.get_char(i) != b.get_char(i) {
            return false;
        }
        i += 1;
    }
    assert(a@ =~= b@);
    true
}

/// Whether a string holds a NUL character, which no C string can.
fn has_nul(name: &str) -> (found: bool)
    ensures
        found == name@.contains('\0'),
{
    let n = name.unicode_len();
    let mut i: usize = 0;
    while i < n
        invariant
            n == name@.len(),
            i <= n,
            forall|j: int| 0 <= j < i ==> name@[j] != '\0',
        decreases n - i,
    {
        if name.get_char(i) == '\0' {
            return true;
        }
        i += 1;
    }
    false
}

/// Binds an external symbol of a guest. The four allocator symbols go to
/// the host's entry points, so that each guest allocates from its own heap;
/// `process_base` and `process_limit` go to the two words of the bounds
/// record at the start of the guest's window, where the bounds are known;
/// any other name is left to the host's lookup, unless it cannot be a C
/// string.
pub fn resolve_host_symbols(state: &ThreadState, name: &str) -> (bound: Resolution)
    ensures
        bound == resolution(*state, name@),
{
    if same_text(name, "malloc") {
        Resolution::Entry(Trampoline::Malloc)
    } else if same_text(name, "free") {
        Resolution::Entry(Trampoline::Free)
    } else if same_text(name, "calloc") {
        Resolution::Entry(Trampoline::Calloc)
    } else if same_text(name, "realloc") {
        Resolution::Entry(Trampoline::Realloc)
    } else if same_text(name, "process_base") {
        match state.bounds {
            Some(b) => Resolution::Address(b.base),
            None => Resolution::NotFound,
        }
    } else if same_text(name, "process_limit") {
        let word: usize = core::mem::size_of::<usize>();
        proof {
            broadcast use vstd::layout::layout_of_primitives;

        }
        match state.bounds {
            Some(b) => match b.base.checked_add(word) {
                Some(addr) => Resolution::Address(addr),
                None => Resolution::NotFound,
            },
            None => Resolution::NotFound,
        }
    } else if has_nul(name) {
        Resolution::NotFound
    } else {
        Resolution::Host
    }
}

/// What the host's own lookup found: an address, or null for nothing.
pub fn host_symbol(addr: usize) -> (found: Option<usize>)
    ensures
        found == if addr == 0 {
            None::<usize>
        } else {
            Some(addr)
        },
{
    if addr == 0 {
        None
    } else {
        Some(addr)
    }
}

} // verus!
