use std::alloc::Layout;
use std::mem::MaybeUninit;

use fixed_loader::process::ProcessBounds;
use fixed_loader::runtime::{
    host_calloc, host_free, host_malloc, host_realloc, host_symbol, resolve_host_symbols,
    set_process_info, set_thread_heap, HeapArena, HeapCall, Resolution, ThreadState, Trampoline,
    ALIGNMENT,
};
use rlsf::Tlsf;

const HEAP: HeapArena = HeapArena { addr: 0x4000_0000, size: 0x10_0000 };

fn with_heap() -> ThreadState {
    let mut state = ThreadState { heap: None, bounds: None };
    set_thread_heap(&mut state, HEAP);
    state
}

fn without_heap() -> ThreadState {
    ThreadState { heap: None, bounds: None }
}

#[test]
fn set_thread_heap_installs_the_heap() {
    let bounds = ProcessBounds { base: 1, limit: 2 };
    let mut state = ThreadState { heap: None, bounds: Some(bounds) };
    set_thread_heap(&mut state, HEAP);
    assert_eq!(state, ThreadState { heap: Some(HEAP), bounds: Some(bounds) });
}

#[test]
fn set_process_info_sets_and_clears_the_bounds() {
    let bounds = ProcessBounds { base: 0x1000, limit: 0x9000 };
    let mut state = with_heap();
    set_process_info(&mut state, Some(bounds));
    assert_eq!(state, ThreadState { heap: Some(HEAP), bounds: Some(bounds) });
    set_process_info(&mut state, None);
    assert_eq!(state, ThreadState { heap: Some(HEAP), bounds: None });
}

#[test]
fn malloc_allocates_at_sixteen() {
    assert_eq!(ALIGNMENT, 16);
    assert_eq!(
        host_malloc(&with_heap(), 100),
        HeapCall::Allocate { size: 100, align: 16, zeroed: false }
    );
    assert_eq!(
        host_malloc(&with_heap(), 1),
        HeapCall::Allocate { size: 1, align: 16, zeroed: false }
    );
}

#[test]
fn malloc_of_zero_is_null() {
    assert_eq!(host_malloc(&with_heap(), 0), HeapCall::Null);
}

#[test]
fn malloc_without_a_heap_is_null() {
    assert_eq!(host_malloc(&without_heap(), 100), HeapCall::Null);
}

#[test]
fn malloc_beyond_the_heap_is_null() {
    assert_eq!(host_malloc(&with_heap(), HEAP.size + 1), HeapCall::Null);
    assert_eq!(host_malloc(&with_heap(), HEAP.size * 2), HeapCall::Null);
    assert_eq!(host_malloc(&with_heap(), usize::MAX), HeapCall::Null);
    assert_eq!(
        host_malloc(&with_heap(), HEAP.size),
        HeapCall::Allocate { size: HEAP.size, align: 16, zeroed: false }
    );
}

#[test]
fn malloc_refuses_what_has_no_layout() {
    let huge = HeapArena { addr: 0, size: usize::MAX };
    let state = ThreadState { heap: Some(huge), bounds: None };
    let edge = isize::MAX as usize - 15;
    for size in [1, 16, 4096, edge - 1, edge, edge + 1, isize::MAX as usize, usize::MAX] {
        let valid = Layout::from_size_align(size, ALIGNMENT).is_ok();
        let call = host_malloc(&state, size);
        if valid {
            assert_eq!(call, HeapCall::Allocate { size, align: 16, zeroed: false });
        } else {
            assert_eq!(call, HeapCall::Null);
        }
        let again = host_realloc(&state, 64, size);
        if valid {
            assert_eq!(again, HeapCall::Reallocate { ptr: 64, size, align: 16 });
        } else {
            assert_eq!(again, HeapCall::Null);
        }
    }
    assert!(Layout::from_size_align(edge, ALIGNMENT).is_ok());
    assert!(Layout::from_size_align(edge + 1, ALIGNMENT).is_err());
}

#[test]
fn free_gives_the_block_back() {
    assert_eq!(host_free(&with_heap(), 0x4000_0040), HeapCall::Deallocate { ptr: 0x4000_0040, align: 16 });
}

#[test]
fn free_of_null_does_nothing() {
    assert_eq!(host_free(&with_heap(), 0), HeapCall::Null);
}

#[test]
fn free_without_a_heap_does_nothing() {
    assert_eq!(host_free(&without_heap(), 0x4000_0040), HeapCall::Null);
}

#[test]
fn calloc_zeroes_the_product() {
    assert_eq!(
        host_calloc(&with_heap(), 10, 24),
        HeapCall::Allocate { size: 240, align: 16, zeroed: true }
    );
}

#[test]
fn calloc_of_nothing_is_null() {
    assert_eq!(host_calloc(&with_heap(), 0, 24), HeapCall::Null);
    assert_eq!(host_calloc(&with_heap(), 24, 0), HeapCall::Null);
}

#[test]
fn calloc_that_overflows_is_null() {
    assert_eq!(host_calloc(&with_heap(), usize::MAX, 2), HeapCall::Null);
    assert_eq!(host_calloc(&with_heap(), 1 << 40, 1 << 40), HeapCall::Null);
    assert_eq!(host_calloc(&with_heap(), usize::MAX / 2 + 1, 2), HeapCall::Null);
}

#[test]
fn calloc_without_a_heap_is_null() {
    assert_eq!(host_calloc(&without_heap(), 4, 4), HeapCall::Null);
}

#[test]
fn realloc_of_null_is_malloc() {
    assert_eq!(host_realloc(&with_heap(), 0, 64), host_malloc(&with_heap(), 64));
    assert_eq!(
        host_realloc(&with_heap(), 0, 64),
        HeapCall::Allocate { size: 64, align: 16, zeroed: false }
    );
    assert_eq!(host_realloc(&with_heap(), 0, 0), HeapCall::Null);
}

#[test]
fn realloc_to_zero_is_free() {
    assert_eq!(
        host_realloc(&with_heap(), 0x4000_0040, 0),
        HeapCall::Deallocate { ptr: 0x4000_0040, align: 16 }
    );
    assert_eq!(HeapCall::Deallocate { ptr: 0x4000_0040, align: 16 }.finish(None), 0);
}

#[test]
fn realloc_resizes() {
    assert_eq!(
        host_realloc(&with_heap(), 0x4000_0040, 512),
        HeapCall::Reallocate { ptr: 0x4000_0040, size: 512, align: 16 }
    );
    assert_eq!(host_realloc(&with_heap(), 0x4000_0040, HEAP.size + 1), HeapCall::Null);
    assert_eq!(host_realloc(&without_heap(), 0x4000_0040, 512), HeapCall::Null);
}

#[test]
fn finish_hands_back_the_block_or_null() {
    let allocate = HeapCall::Allocate { size: 8, align: 16, zeroed: false };
    assert_eq!(allocate.finish(Some(0x4000_0010)), 0x4000_0010);
    assert_eq!(allocate.finish(None), 0);
    let reallocate = HeapCall::Reallocate { ptr: 0x4000_0010, size: 64, align: 16 };
    assert_eq!(reallocate.finish(Some(0x4000_0100)), 0x4000_0100);
    assert_eq!(reallocate.finish(None), 0);
    assert_eq!(HeapCall::Null.finish(Some(0x4000_0010)), 0);
    assert_eq!(HeapCall::Null.finish(None), 0);
    assert_eq!(HeapCall::Deallocate { ptr: 1, align: 16 }.finish(Some(0x4000_0010)), 0);
}

/// Carries an allocation out on a real heap, as the program around the
/// library does it.
fn allocate(heap: &mut Tlsf<'_, u32, u32, 20, 4>, call: HeapCall) -> usize {
    let answer = match call {
        HeapCall::Allocate { size, align, .. } => {
            let layout = Layout::from_size_align(size, align).unwrap();
            heap.allocate(layout).map(|block| block.addr().get())
        }
        _ => None,
    };
    call.finish(answer)
}

#[test]
fn exhaustion_leaves_the_heap_usable() {
    let mut pool = [MaybeUninit::<u8>::uninit(); 65536];
    let arena = HeapArena { addr: pool.as_ptr().addr(), size: pool.len() };
    let mut heap: Tlsf<'_, u32, u32, 20, 4> = Tlsf::new();
    heap.insert_free_block(&mut pool);
    let mut state = without_heap();
    set_thread_heap(&mut state, arena);

    let too_much = host_malloc(&state, arena.size * 2);
    assert_eq!(too_much, HeapCall::Null);
    assert_eq!(allocate(&mut heap, too_much), 0);

    let small = host_malloc(&state, 1024);
    let block = allocate(&mut heap, small);
    assert_ne!(block, 0);
    assert_eq!(block % ALIGNMENT, 0);
    assert!(arena.addr <= block && block + 1024 <= arena.addr + arena.size);
}

#[test]
fn blocks_of_one_heap_do_not_overlap() {
    let mut pool = [MaybeUninit::<u8>::uninit(); 65536];
    let arena = HeapArena { addr: pool.as_ptr().addr(), size: pool.len() };
    let mut heap: Tlsf<'_, u32, u32, 20, 4> = Tlsf::new();
    heap.insert_free_block(&mut pool);
    let state = ThreadState { heap: Some(arena), bounds: None };

    let first = allocate(&mut heap, host_calloc(&state, 16, 16));
    let second = allocate(&mut heap, host_malloc(&state, 256));
    assert_ne!(first, 0);
    assert_ne!(second, 0);
    assert!(first + 256 <= second || second + 256 <= first);
    assert_eq!(first % 16, 0);
    assert_eq!(second % 16, 0);
}

#[test]
fn allocator_symbols_go_to_the_host_entries() {
    let state = without_heap();
    assert_eq!(resolve_host_symbols(&state, "malloc"), Resolution::Entry(Trampoline::Malloc));
    assert_eq!(resolve_host_symbols(&state, "free"), Resolution::Entry(Trampoline::Free));
    assert_eq!(resolve_host_symbols(&state, "calloc"), Resolution::Entry(Trampoline::Calloc));
    assert_eq!(resolve_host_symbols(&state, "realloc"), Resolution::Entry(Trampoline::Realloc));
}

#[test]
fn bounds_symbols_go_to_the_bounds_record() {
    let mut state = without_heap();
    set_process_info(&mut state, Some(ProcessBounds { base: 0x1_0000_0000, limit: 0x2_0000_0000 }));
    assert_eq!(resolve_host_symbols(&state, "process_base"), Resolution::Address(0x1_0000_0000));
    assert_eq!(
        resolve_host_symbols(&state, "process_limit"),
        Resolution::Address(0x1_0000_0000 + std::mem::size_of::<usize>())
    );
    assert_eq!(resolve_host_symbols(&state, "process_limit"), Resolution::Address(0x1_0000_0008));
}

#[test]
fn bounds_symbols_without_bounds_are_not_found() {
    let state = with_heap();
    assert_eq!(resolve_host_symbols(&state, "process_base"), Resolution::NotFound);
    assert_eq!(resolve_host_symbols(&state, "process_limit"), Resolution::NotFound);
}

#[test]
fn bounds_record_at_the_end_of_the_address_space() {
    let mut state = without_heap();
    set_process_info(&mut state, Some(ProcessBounds { base: usize::MAX - 3, limit: usize::MAX }));
    assert_eq!(resolve_host_symbols(&state, "process_base"), Resolution::Address(usize::MAX - 3));
    assert_eq!(resolve_host_symbols(&state, "process_limit"), Resolution::NotFound);
}

#[test]
fn other_symbols_go_to_the_host() {
    let state = with_heap();
    for name in ["puts", "printf", "mallocs", "mallo", "", "Malloc", "process_bas", "sin", "é"] {
        assert_eq!(resolve_host_symbols(&state, name), Resolution::Host);
    }
}

#[test]
fn names_with_a_nul_are_not_found() {
    let state = with_heap();
    assert_eq!(resolve_host_symbols(&state, "pu\0ts"), Resolution::NotFound);
    assert_eq!(resolve_host_symbols(&state, "\0"), Resolution::NotFound);
    assert_eq!(resolve_host_symbols(&state, "malloc\0"), Resolution::NotFound);
}

#[test]
fn host_symbol_turns_null_into_nothing() {
    assert_eq!(host_symbol(0), None);
    assert_eq!(host_symbol(0x7f00_0000_1000), Some(0x7f00_0000_1000));
}
