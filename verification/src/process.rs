//! Guest windows and the lifecycle of a guest.
//!
//! A spawn is a conversation. The library says what to do next (parse the
//! image, install a mapping, write the bounds record, start the thread), the
//! caller does it and reports how it went, and the library decides the next
//! step from that: the order of the steps, where each region of the window
//! goes, and what is undone when a step fails.

use vstd::prelude::*;
use crate::memory::{
    completed, completion, plan_next, plan_range, set_active_region, MapError, MapRequest,
    MemoryRegion, ProtectRequest, ThreadContext, UnmapRequest, PAGE_SIZE, PROT_READ, PROT_WRITE,
};
use crate::runtime::{set_process_info, HeapArena, ThreadState};
use crate::LoaderError;
use vstd::pervasive::unreached;

verus! {

/// The address of the first guest's window.
pub const PROCESS_OFFSET_STEP: u64 = 0x100_0000_0000;

/// The size of each guest's window. Windows follow one another without a gap.
pub const PROCESS_SIZE: u64 = 0x4_0000_0000;

/// The size of a guest's stack, unless the caller chooses another.
pub const STACK_SIZE: usize = 0x80_0000;

/// The size of a guest's heap, unless the caller chooses another.
pub const HEAP_SIZE: usize = 0x400_0000;

/// The protection of the regions that a spawn places: readable and writable.
pub const PROT_READ_WRITE: i32 = PROT_READ | PROT_WRITE;

/// The half-open address window `[base, limit)` that a guest owns.
#[derive(Debug, Clone, Copy, PartialEq, Eq, Structural)]
pub struct ProcessBounds {
    pub base: usize,
    pub limit: usize,
}

impl ProcessBounds {
    /// The range `[addr, addr + len)` lies in the window.
    pub open spec fn holds(self, addr: int, len: int) -> bool {
        self.base <= addr && addr + len <= self.limit
    }

    /// The two windows share no address.
    pub open spec fn disjoint(self, other: ProcessBounds) -> bool {
        self.limit <= other.base || other.limit <= self.base || self.limit <= self.base
            || other.limit <= other.base
    }
}

/// The window of the guest with the given index, counted from zero.
pub open spec fn window_of(index: int) -> ProcessBounds
    recommends
        0 <= index,
        PROCESS_OFFSET_STEP + (index + 1) * PROCESS_SIZE <= usize::MAX,
{
    ProcessBounds {
        base: (PROCESS_OFFSET_STEP + index * PROCESS_SIZE) as usize,
        limit: (PROCESS_OFFSET_STEP + (index + 1) * PROCESS_SIZE) as usize,
    }
}

/// The window of the guest with the given index, or `None` where the
/// address space ends before the window does.
pub fn assign_window(index: usize) -> (window: Option<ProcessBounds>)
    ensures
        window == if PROCESS_OFFSET_STEP + (index + 1) * PROCESS_SIZE <= usize::MAX {
            Some(window_of(index as int))
        } else {
            None
        },
{
    let max: u64 = usize::MAX as u64;
    let count: u64 = index as u64;
    if max < PROCESS_OFFSET_STEP {
        return None;
    }
    let room: u64 = (max - PROCESS_OFFSET_STEP) / PROCESS_SIZE;
    if count >= room {
        return None;
    }
    let base: u64 = PROCESS_OFFSET_STEP + count * PROCESS_SIZE;
    let limit: u64 = base + PROCESS_SIZE;
    Some(ProcessBounds { base: base as usize, limit: limit as usize })
}

/// The windows of two different guests share no address.
pub proof fn lemma_assigned_windows_are_disjoint(i: int, j: int)
    requires
        0 <= i,
        0 <= j,
        i != j,
        PROCESS_OFFSET_STEP + (i + 1) * PROCESS_SIZE <= usize::MAX,
        PROCESS_OFFSET_STEP + (j + 1) * PROCESS_SIZE <= usize::MAX,
    ensures
        window_of(i).base < window_of(i).limit,
        window_of(i).limit <= window_of(j).base || window_of(j).limit <= window_of(i).base,
        window_of(i).disjoint(window_of(j)),
{
}

/// The windows of two guests that follow one another abut: the second
/// begins where the first ends, and still they share no address.
pub proof fn lemma_neighbouring_windows_abut(i: int)
    requires
        0 <= i,
        PROCESS_OFFSET_STEP + (i + 2) * PROCESS_SIZE <= usize::MAX,
    ensures
        window_of(i).limit == window_of(i + 1).base,
        window_of(i).disjoint(window_of(i + 1)),
{
}

/// Two ranges that lie in two windows which share no address share no
/// address either: what is mapped for one guest is never mapped for another.
pub proof fn lemma_disjoint_windows_isolate(
    a: ProcessBounds,
    b: ProcessBounds,
    addr_a: int,
    len_a: int,
    addr_b: int,
    len_b: int,
)
    requires
        a.disjoint(b),
        a.holds(addr_a, len_a),
        b.holds(addr_b, len_b),
        0 < len_a,
        0 < len_b,
    ensures
        addr_a + len_a <= addr_b || addr_b + len_b <= addr_a,
{
}

/// What a handle stands for: the thread of a guest that was started, and
/// the regions of its window to unmap once the thread has ended.
#[derive(Clone, Copy, Debug, PartialEq, Eq)]
pub struct Teardown {
    pub thread: libc::pthread_t,
    pub stack: Option<UnmapRequest>,
    pub heap: Option<UnmapRequest>,
}

/// Handle to a spawned process.
#[derive(Debug)]
pub struct ProcessHandle {
    thread: libc::pthread_t,
    stack: Option<UnmapRequest>,
    heap: Option<UnmapRequest>,
}

impl View for ProcessHandle {
    type V = Teardown;

    closed spec fn view(&self) -> Teardown {
        Teardown { thread: self.thread, stack: self.stack, heap: self.heap }
    }
}

/// What the caller is to do next in a join.
#[derive(Clone, Copy, Debug, PartialEq, Eq)]
pub enum JoinAction {
    /// Wait until this thread has ended.
    Wait(libc::pthread_t),
    /// Unmap this range.
    Unmap(UnmapRequest),
    /// Nothing: the guest is gone.
    Done,
}

/// Where a join stands.
#[derive(Clone, Copy, Debug, PartialEq, Eq, Structural)]
pub enum JoinStage {
    /// Waiting for the guest's thread to end.
    Waiting,
    /// Waiting for the stack to be unmapped.
    ReleasingStack,
    /// Waiting for the heap to be unmapped.
    ReleasingHeap,
    /// Over.
    Reclaimed,
}

/// A join in progress: the regions that the guest still holds.
#[derive(Clone, Copy, Debug, PartialEq, Eq)]
pub struct Join {
    pub stage: JoinStage,
    pub stack: Option<UnmapRequest>,
    pub heap: Option<UnmapRequest>,
}

impl Join {
    /// The state of the guest at this stage of its join.
    pub open spec fn guest_state(self) -> GuestState {
        match self.stage {
            JoinStage::Waiting => GuestState::Running,
            JoinStage::ReleasingStack | JoinStage::ReleasingHeap => GuestState::Exited,
            JoinStage::Reclaimed => GuestState::Reclaimed,
        }
    }

    /// The join after the action that it waits for was carried out, and the
    /// action that follows: the stack is unmapped once the thread has
    /// ended, the heap after the stack, and a region that the guest does not
    /// hold is passed over.
    pub open spec fn next(self) -> (Join, JoinAction) {
        match (self.stage, self.stack, self.heap) {
            (JoinStage::Waiting, Some(stack), _) => (
                Join { stage: JoinStage::ReleasingStack, stack: None, heap: self.heap },
                JoinAction::Unmap(stack),
            ),
            (JoinStage::Waiting, None, Some(heap)) | (JoinStage::ReleasingStack, _, Some(heap)) => (
                Join { stage: JoinStage::ReleasingHeap, stack: None, heap: None },
                JoinAction::Unmap(heap),
            ),
            _ => (Join { stage: JoinStage::Reclaimed, stack: None, heap: None }, JoinAction::Done),
        }
    }

    /// The number of regions that the guest still holds.
    pub open spec fn held(self) -> nat {
        (if self.stack is Some {
            1nat
        } else {
            0nat
        }) + (if self.heap is Some {
            1nat
        } else {
            0nat
        })
    }

    /// A join releases each region of the guest once, and only after the
    /// thread has ended: whatever it asks to unmap is a region that the
    /// guest still held, the guest holds fewer regions afterwards, and the
    /// join is over exactly when nothing more is asked for.
    pub proof fn lemma_regions_are_released_once(self)
        ensures
            self.next().1 matches JoinAction::Unmap(region) ==> (self.stack == Some(region)
                || self.heap == Some(region)) && self.next().0.held() < self.held(),
            !(self.next().1 is Wait),
            self.next().0.guest_state() != GuestState::Running,
            self.next().1 is Done <==> self.next().0.guest_state() == GuestState::Reclaimed,
    {
    }

    /// The join of a guest with a stack and a heap: after the wait for the
    /// thread comes the stack, then the heap, then nothing.
    pub proof fn lemma_join_runs_in_order(stack: UnmapRequest, heap: UnmapRequest)
        ensures
            ({
                let waiting = Join {
                    stage: JoinStage::Waiting,
                    stack: Some(stack),
                    heap: Some(heap),
                };
                let first = waiting.next();
                let second = first.0.next();
                let third = second.0.next();
                &&& waiting.guest_state() == GuestState::Running
                &&& first.1 == JoinAction::Unmap(stack)
                &&& first.0.guest_state() == GuestState::Exited
                &&& second.1 == JoinAction::Unmap(heap)
                &&& second.0.guest_state() == GuestState::Exited
                &&& third.1 == JoinAction::Done
                &&& third.0.guest_state() == GuestState::Reclaimed
                &&& third.0.next() == third
            }),
    {
    }

    /// The state of the guest at this stage of its join.
    pub fn state(&self) -> (state: GuestState)
        ensures
            state == self.guest_state(),
    {
        match self.stage {
            JoinStage::Waiting => GuestState::Running,
            JoinStage::ReleasingStack | JoinStage::ReleasingHeap => GuestState::Exited,
            JoinStage::Reclaimed => GuestState::Reclaimed,
        }
    }

    /// Takes the report that the action the join waited for was carried
    /// out, and answers with the next action.
    pub fn step(self) -> (out: (Join, JoinAction))
        ensures
            out == self.next(),
    {
        match (self.stage, self.stack, self.heap) {
            (JoinStage::Waiting, Some(stack), _) => (
                Join { stage: JoinStage::ReleasingStack, stack: None, heap: self.heap },
                JoinAction::Unmap(stack),
            ),
            (JoinStage::Waiting, None, Some(heap)) | (JoinStage::ReleasingStack, _, Some(heap)) => (
                Join { stage: JoinStage::ReleasingHeap, stack: None, heap: None },
                JoinAction::Unmap(heap),
            ),
            _ => (Join { stage: JoinStage::Reclaimed, stack: None, heap: None }, JoinAction::Done),
        }
    }
}

impl ProcessHandle {
    /// The handle that stands for `teardown`.
    pub closed spec fn of(teardown: Teardown) -> ProcessHandle {
        ProcessHandle { thread: teardown.thread, stack: teardown.stack, heap: teardown.heap }
    }

    /// A handle is what it stands for, and nothing more.
    pub broadcast proof fn lemma_of_view(teardown: Teardown)
        ensures
            (#[trigger] Self::of(teardown))@ == teardown,
    {
    }

    /// The handle of a thread that owns no regions to release.
    pub fn new(thread: libc::pthread_t) -> (handle: Self)
        ensures
            handle@ == (Teardown { thread, stack: None, heap: None }),
    {
        Self { thread, stack: None, heap: None }
    }

    /// The handle of a thread whose guest owns the given stack and heap.
    pub fn with_regions(thread: libc::pthread_t, stack: UnmapRequest, heap: UnmapRequest) -> (handle:
        Self)
        ensures
            handle@ == (Teardown { thread, stack: Some(stack), heap: Some(heap) }),
            handle == Self::of(Teardown { thread, stack: Some(stack), heap: Some(heap) }),
    {
        Self { thread, stack: Some(stack), heap: Some(heap) }
    }

    /// Gives up the handle for the join of its guest, which begins with the
    /// wait for the guest's thread and goes on to release the stack and the
    /// heap. The handle is gone afterwards, so a guest is joined once.
    pub fn join(self) -> (out: (Join, JoinAction))
        ensures
            out.0 == (Join { stage: JoinStage::Waiting, stack: self@.stack, heap: self@.heap }),
            out.1 == JoinAction::Wait(self@.thread),
    {
        (
            Join { stage: JoinStage::Waiting, stack: self.stack, heap: self.heap },
            JoinAction::Wait(self.thread),
        )
    }
}

/// An isolated guest process with its own memory window.
#[derive(Debug, Clone, Copy)]
pub struct Process {
    bounds: ProcessBounds,
}

impl View for Process {
    type V = ProcessBounds;

    closed spec fn view(&self) -> ProcessBounds {
        self.bounds
    }
}

/// Why a spawn failed.
#[derive(Debug)]
pub enum SpawnError {
    /// The ELF loader rejected the image.
    Elf(elf_loader::Error),
    /// The image could not be read.
    Io(std::io::Error),
    /// A region could not be placed or protected.
    Mapping(MapError),
    /// The image does not export the entry symbol of this name.
    Symbol(String),
    /// The guest's thread could not be created.
    ThreadCreate,
}

impl SpawnError {
    /// Whether `error` is this failure as a caller of the loader sees it.
    pub open spec fn reported_as(self, error: LoaderError) -> bool {
        match self {
            SpawnError::Elf(e) => error == LoaderError::Elf(e),
            SpawnError::Io(e) => error == LoaderError::Io(e),
            SpawnError::Mapping(MapError::OutOfRegion) => error matches LoaderError::OutOfRegion(text)
                && text@ == MapError::OutOfRegion.message_spec(),
            SpawnError::Mapping(m) => error matches LoaderError::Mmap(text) && text@
                == m.message_spec(),
            SpawnError::Symbol(name) => error == LoaderError::Symbol(name),
            SpawnError::ThreadCreate => error matches LoaderError::ThreadCreate(text) && text@
                == "Thread creation failed"@,
        }
    }

    /// The failure as a caller of the loader sees it: the loader's and the
    /// system's own errors as they came, the others with their text.
    pub fn into_loader_error(self) -> (error: LoaderError)
        ensures
            self.reported_as(error),
    {
        match self {
            SpawnError::Elf(e) => LoaderError::Elf(e),
            SpawnError::Io(e) => LoaderError::Io(e),
            SpawnError::Mapping(m) => match m {
                MapError::OutOfRegion => LoaderError::OutOfRegion(m.message().to_owned()),
                _ => LoaderError::Mmap(m.message().to_owned()),
            },
            SpawnError::Symbol(name) => LoaderError::Symbol(name),
            SpawnError::ThreadCreate => LoaderError::ThreadCreate(
                "Thread creation failed".to_owned(),
            ),
        }
    }
}

/// The thread to start for a guest: the stack it runs on, the heap and the
/// bounds to install on it before the entry is called.
#[derive(Clone, Copy, Debug, PartialEq, Eq)]
pub struct ThreadPlan {
    pub stack_addr: usize,
    pub stack_size: usize,
    pub heap: HeapArena,
    pub bounds: ProcessBounds,
}

/// What the caller is to do next in a spawn.
#[derive(Debug)]
pub enum SpawnAction {
    /// Read and parse the image at this path. Nothing is mapped yet.
    ParseImage(String),
    /// Install this mapping and report the address returned.
    Install(MapRequest),
    /// Write `base`, then `limit`, as the two words at `addr`.
    WriteBounds { addr: usize, base: usize, limit: usize },
    /// Change this protection and report the status returned.
    Protect(ProtectRequest),
    /// Map and relocate the image into the active window, with the adapter
    /// for its mappings and the resolver for its symbols.
    LoadImage,
    /// Look this symbol up in the loaded image.
    FindEntry(String),
    /// Start this thread and report its identifier.
    StartThread(ThreadPlan),
    /// Unmap this range and report the status returned.
    Unmap(UnmapRequest),
    /// The spawn is over: the guest runs, or nothing of it is left.
    Finished(Result<ProcessHandle, SpawnError>),
}

/// How the last action went.
#[derive(Debug)]
pub enum Outcome {
    /// It succeeded, and there is nothing to report.
    Done,
    /// The address that `mmap` returned.
    Address(usize),
    /// The status that `mprotect` or `munmap` returned.
    Status(i32),
    /// The thread that was started.
    Thread(libc::pthread_t),
    /// It failed: the symbol is missing, or no thread could be created.
    Failed,
    /// The ELF loader failed.
    ElfError(elf_loader::Error),
    /// Reading the image failed.
    IoError(std::io::Error),
}

/// Where a spawn stands: the action it waits for, and what it has to
/// remember of the steps before.
#[derive(Debug)]
pub enum Stage {
    /// Waiting for the image to be parsed.
    Parsing,
    /// Waiting for the mapping of the bounds record.
    Bounds(MapRequest),
    /// Waiting for the bounds to be written.
    Writing,
    /// Waiting for the bounds record to become read-only.
    Protecting,
    /// Waiting for the mapping of the stack.
    Stack(MapRequest),
    /// Waiting for the mapping of the heap.
    Heap { stack: UnmapRequest, request: MapRequest },
    /// Waiting for the image to be loaded.
    Loading { stack: UnmapRequest, heap: UnmapRequest },
    /// Waiting for the entry symbol.
    Entry { stack: UnmapRequest, heap: UnmapRequest },
    /// Waiting for the thread.
    Starting { stack: UnmapRequest, heap: UnmapRequest },
    /// Waiting for the window to be unmapped, after this failure.
    Unwinding(SpawnError),
    /// Over: the guest runs.
    Running,
    /// Over: the spawn failed, and nothing of the guest is left.
    Aborted,
}

/// The life of a guest, as the outside sees it.
#[derive(Clone, Copy, Debug, PartialEq, Eq, Structural)]
pub enum GuestState {
    /// Nothing of the guest exists.
    Unborn,
    /// Bounds record, stack and heap are in place.
    Reserved,
    /// The image is mapped and relocated.
    Loaded,
    /// The guest's thread runs.
    Running,
    /// The guest's thread has ended.
    Exited,
    /// Stack and heap are released.
    Reclaimed,
}

/// A spawn in progress.
#[derive(Debug)]
pub struct Spawn {
    pub bounds: ProcessBounds,
    pub elf_path: String,
    pub entry_name: String,
    pub stack_size: usize,
    pub heap_size: usize,
    pub stage: Stage,
}

/// A step of a spawn: the spawn, the thread's active window and the thread's
/// state after it, and the action that it asks for.
pub struct Transition {
    pub spawn: Spawn,
    pub region: Option<MemoryRegion>,
    pub state: ThreadState,
    pub action: SpawnAction,
}

impl Spawn {
    /// Whether `outcome` can be the report of the action that the spawn
    /// waits for.
    pub open spec fn accepts(self, outcome: Outcome) -> bool {
        match self.stage {
            Stage::Parsing => outcome is Done || outcome is ElfError || outcome is IoError,
            Stage::Bounds(_) | Stage::Stack(_) | Stage::Heap { .. } => outcome is Address,
            Stage::Writing => outcome is Done,
            Stage::Protecting | Stage::Unwinding(_) => outcome is Status,
            Stage::Loading { .. } => outcome is Done || outcome is ElfError,
            Stage::Entry { .. } => outcome is Done || outcome is Failed,
            Stage::Starting { .. } => outcome is Thread || outcome is Failed,
            Stage::Running | Stage::Aborted => false,
        }
    }

    /// The spawn at another stage.
    pub open spec fn at(self, stage: Stage) -> Spawn {
        Spawn { stage, ..self }
    }

    /// The state of the guest at this stage of its spawn.
    pub open spec fn guest_state(self) -> GuestState {
        match self.stage {
            Stage::Loading { .. } => GuestState::Reserved,
            Stage::Entry { .. } | Stage::Starting { .. } => GuestState::Loaded,
            Stage::Running => GuestState::Running,
            _ => GuestState::Unborn,
        }
    }

    /// A step that goes on: the window and the thread's state stay as they
    /// are after the step's own work on them.
    pub open spec fn go(
        self,
        stage: Stage,
        region: Option<MemoryRegion>,
        state: ThreadState,
        action: SpawnAction,
    ) -> Transition {
        Transition { spawn: self.at(stage), region, state, action }
    }

    /// A step that fails with `error`. Where the window holds mappings, they
    /// are unmapped first, all at once; where it holds none, the spawn ends
    /// here, and the thread is left without an active window and without
    /// bounds.
    pub open spec fn fail(self, region: Option<MemoryRegion>, state: ThreadState, error: SpawnError)
        -> Transition {
        match region {
            Some(r) if r.base < r.top => Transition {
                spawn: self.at(Stage::Unwinding(error)),
                region,
                state,
                action: SpawnAction::Unmap(
                    UnmapRequest { addr: r.base, len: (r.top - r.base) as usize },
                ),
            },
            _ => self.end(state, Err(error)),
        }
    }

    /// The last step: the thread is left without an active window and
    /// without bounds, and the result is handed out.
    pub open spec fn end(self, state: ThreadState, result: Result<ProcessHandle, SpawnError>)
        -> Transition {
        Transition {
            spawn: self.at(
                if result is Ok {
                    Stage::Running
                } else {
                    Stage::Aborted
                },
            ),
            region: None,
            state: ThreadState { heap: state.heap, bounds: None },
            action: SpawnAction::Finished(result),
        }
    }

    /// The step after a placement was planned: the mapping is installed, or
    /// the spawn fails.
    pub open spec fn placed(
        self,
        region: Option<MemoryRegion>,
        state: ThreadState,
        plan: Result<MapRequest, MapError>,
        stage: spec_fn(MapRequest) -> Stage,
    ) -> Transition {
        match plan {
            Ok(request) => self.go(stage(request), region, state, SpawnAction::Install(request)),
            Err(e) => self.fail(region, state, SpawnError::Mapping(e)),
        }
    }

    /// The step that the spawn takes when `outcome` is reported to it, on a
    /// thread whose active window is `region` and whose state is `state`.
    /// It is defined for the outcomes that the spawn accepts.
    pub open spec fn next(self, region: Option<MemoryRegion>, state: ThreadState, outcome: Outcome)
        -> Transition {
        match (self.stage, outcome) {
            (Stage::Parsing, Outcome::ElfError(e)) => Transition {
                spawn: self.at(Stage::Aborted),
                region,
                state,
                action: SpawnAction::Finished(Err(SpawnError::Elf(e))),
            },
            (Stage::Parsing, Outcome::IoError(e)) => Transition {
                spawn: self.at(Stage::Aborted),
                region,
                state,
                action: SpawnAction::Finished(Err(SpawnError::Io(e))),
            },
            (Stage::Parsing, _) => {
                let entered = Some(MemoryRegion::fresh(self.bounds));
                self.placed(
                    entered,
                    ThreadState { heap: state.heap, bounds: Some(self.bounds) },
                    placement(entered, self.bounds.base as int, PAGE_SIZE),
                    |request: MapRequest| Stage::Bounds(request),
                )
            },
            (Stage::Bounds(request), Outcome::Address(returned)) => match completion(
                region,
                request,
                returned,
            ) {
                Ok(_) => self.go(
                    Stage::Writing,
                    completed(region, request, returned),
                    state,
                    SpawnAction::WriteBounds {
                        addr: self.bounds.base,
                        base: self.bounds.base,
                        limit: self.bounds.limit,
                    },
                ),
                Err(e) => self.fail(region, state, SpawnError::Mapping(e)),
            },
            (Stage::Writing, _) => match plan_range(region, self.bounds.base, PAGE_SIZE) {
                Ok(_) => self.go(
                    Stage::Protecting,
                    region,
                    state,
                    SpawnAction::Protect(
                        ProtectRequest { addr: self.bounds.base, len: PAGE_SIZE, prot: PROT_READ },
                    ),
                ),
                Err(e) => self.fail(region, state, SpawnError::Mapping(e)),
            },
            (Stage::Protecting, Outcome::Status(status)) => if status != 0 {
                self.fail(region, state, SpawnError::Mapping(MapError::MprotectFailed))
            } else {
                self.placed(
                    region,
                    state,
                    placement(region, self.bounds.base + PAGE_SIZE, self.stack_size),
                    |request: MapRequest| Stage::Stack(request),
                )
            },
            (Stage::Stack(request), Outcome::Address(returned)) => match completion(
                region,
                request,
                returned,
            ) {
                Ok(_) => {
                    let after = completed(region, request, returned);
                    self.placed(
                        after,
                        state,
                        placement(after, request.addr + request.len, self.heap_size),
                        |heap: MapRequest|
                            Stage::Heap {
                                stack: UnmapRequest { addr: request.addr, len: request.len },
                                request: heap,
                            },
                    )
                },
                Err(e) => self.fail(region, state, SpawnError::Mapping(e)),
            },
            (Stage::Heap { stack, request }, Outcome::Address(returned)) => match completion(
                region,
                request,
                returned,
            ) {
                Ok(_) => self.go(
                    Stage::Loading {
                        stack,
                        heap: UnmapRequest { addr: request.addr, len: request.len },
                    },
                    completed(region, request, returned),
                    state,
                    SpawnAction::LoadImage,
                ),
                Err(e) => self.fail(region, state, SpawnError::Mapping(e)),
            },
            (Stage::Loading { stack, heap }, Outcome::ElfError(e)) => self.fail(
                region,
                state,
                SpawnError::Elf(e),
            ),
            (Stage::Loading { stack, heap }, _) => self.go(
                Stage::Entry { stack, heap },
                region,
                state,
                SpawnAction::FindEntry(self.entry_name),
            ),
            (Stage::Entry { stack, heap }, Outcome::Done) => self.go(
                Stage::Starting { stack, heap },
                region,
                state,
                SpawnAction::StartThread(
                    ThreadPlan {
                        stack_addr: stack.addr,
                        stack_size: stack.len,
                        heap: HeapArena { addr: heap.addr, size: heap.len },
                        bounds: self.bounds,
                    },
                ),
            ),
            (Stage::Entry { stack, heap }, _) => self.fail(
                region,
                state,
                SpawnError::Symbol(self.entry_name),
            ),
            (Stage::Starting { stack, heap }, Outcome::Thread(thread)) => self.end(
                state,
                Ok(ProcessHandle::of(Teardown { thread, stack: Some(stack), heap: Some(heap) })),
            ),
            (Stage::Starting { stack, heap }, _) => self.fail(
                region,
                state,
                SpawnError::ThreadCreate,
            ),
            (Stage::Unwinding(error), _) => self.end(state, Err(error)),
            _ => arbitrary(),
        }
    }

    /// The active window is the window of this spawn's guest.
    pub open spec fn owns(self, region: Option<MemoryRegion>) -> bool {
        region matches Some(r) && r.base == self.bounds.base && r.limit == self.bounds.limit
            && r.wf()
    }

    /// Where the stack of the guest goes: right after the bounds record.
    pub open spec fn stack_span(self) -> UnmapRequest {
        UnmapRequest { addr: (self.bounds.base + PAGE_SIZE) as usize, len: self.stack_size }
    }

    /// Where the heap of the guest goes: right after the stack.
    pub open spec fn heap_span(self) -> UnmapRequest {
        UnmapRequest {
            addr: (self.bounds.base + PAGE_SIZE + self.stack_size) as usize,
            len: self.heap_size,
        }
    }

    /// The end of the regions that the spawn places itself.
    pub open spec fn placed_end(self) -> int {
        self.bounds.base + PAGE_SIZE + self.stack_size + self.heap_size
    }

    /// The thread of the guest: it runs on the guest's stack, with the
    /// guest's heap and bounds.
    pub open spec fn thread_plan(self) -> ThreadPlan {
        ThreadPlan {
            stack_addr: self.stack_span().addr,
            stack_size: self.stack_size,
            heap: HeapArena { addr: self.heap_span().addr, size: self.heap_size },
            bounds: self.bounds,
        }
    }

    /// The spawn and the thread's active window go together: what the spawn
    /// remembers of its earlier steps is what those steps did to the window.
    /// This holds when a spawn begins, and every step keeps it.
    pub open spec fn sound(self, region: Option<MemoryRegion>) -> bool {
        match self.stage {
            Stage::Parsing | Stage::Running | Stage::Aborted => true,
            Stage::Bounds(request) => self.owns(region) && placement(
                region,
                self.bounds.base as int,
                PAGE_SIZE,
            ) == Ok::<MapRequest, MapError>(request),
            Stage::Writing | Stage::Protecting => self.owns(region) && region->0.top
                >= self.bounds.base + PAGE_SIZE,
            Stage::Stack(request) => self.owns(region) && placement(
                region,
                self.bounds.base + PAGE_SIZE,
                self.stack_size,
            ) == Ok::<MapRequest, MapError>(request),
            Stage::Heap { stack, request } => self.owns(region) && stack == self.stack_span()
                && placement(
                region,
                self.bounds.base + PAGE_SIZE + self.stack_size,
                self.heap_size,
            ) == Ok::<MapRequest, MapError>(request),
            Stage::Loading { stack, heap } | Stage::Entry { stack, heap } | Stage::Starting {
                stack,
                heap,
            } => self.owns(region) && stack == self.stack_span() && heap == self.heap_span()
                && region->0.top >= self.placed_end(),
            Stage::Unwinding(_) => self.owns(region),
        }
    }

    /// Every step keeps the spawn and the window together.
    pub proof fn lemma_step_keeps_sound(
        self,
        region: Option<MemoryRegion>,
        state: ThreadState,
        outcome: Outcome,
    )
        requires
            self.sound(region),
            self.accepts(outcome),
        ensures
            self.next(region, state, outcome).spawn.sound(self.next(region, state, outcome).region),
    {
    }

    /// What the ELF loader maps through the adapter while the spawn waits
    /// for it keeps the spawn and the window together.
    pub proof fn lemma_loading_keeps_sound(
        self,
        region: Option<MemoryRegion>,
        request: MapRequest,
        returned: usize,
    )
        requires
            self.sound(region),
            self.stage is Loading,
        ensures
            self.sound(completed(region, request, returned)),
    {
    }

    /// Whatever a spawn asks the caller to map, protect or unmap lies in the
    /// window of its guest. The bounds record is sealed right after it was
    /// written: the protection asked for is read-only, on the first page of
    /// the window, and every region placed later lies behind that page. The
    /// guest's thread gets the stack right after the bounds record, and the
    /// heap right after the stack.
    pub proof fn lemma_actions_stay_in_window(
        self,
        region: Option<MemoryRegion>,
        state: ThreadState,
        outcome: Outcome,
    )
        requires
            self.sound(region),
            self.accepts(outcome),
        ensures
            match self.next(region, state, outcome).action {
                SpawnAction::Install(request) => self.bounds.holds(
                    request.addr as int,
                    request.len as int,
                ) && (self.stage is Parsing ==> request.addr == self.bounds.base && request.len
                    == PAGE_SIZE) && (!(self.stage is Parsing) ==> request.addr >= self.bounds.base
                    + PAGE_SIZE),
                SpawnAction::WriteBounds { addr, base, limit } => addr == self.bounds.base && base
                    == self.bounds.base && limit == self.bounds.limit && self.bounds.holds(
                    addr as int,
                    PAGE_SIZE as int,
                ),
                SpawnAction::Protect(request) => request == (ProtectRequest {
                    addr: self.bounds.base,
                    len: PAGE_SIZE,
                    prot: PROT_READ,
                }) && self.bounds.holds(request.addr as int, request.len as int),
                SpawnAction::Unmap(request) => self.bounds.holds(
                    request.addr as int,
                    request.len as int,
                ),
                SpawnAction::StartThread(plan) => plan == self.thread_plan() && self.placed_end()
                    <= self.bounds.limit,
                _ => true,
            },
    {
    }

    /// The step after `step`, when `outcome` is reported next.
    pub open spec fn after(step: Transition, outcome: Outcome) -> Transition {
        step.spawn.next(step.region, step.state, outcome)
    }

    /// The last step of a spawn in which nothing goes wrong: the image
    /// parses, every mapping comes back at the address asked for, the image
    /// loads, the entry is found, and the thread `thread` is started.
    pub open spec fn smooth_run(self, state: ThreadState, thread: libc::pthread_t) -> Transition {
        let bounds = self.next(None, state, Outcome::Done);
        let written = Self::after(bounds, Outcome::Address(self.bounds.base));
        let sealed = Self::after(written, Outcome::Done);
        let stack = Self::after(sealed, Outcome::Status(0));
        let heap = Self::after(stack, Outcome::Address(self.stack_span().addr));
        let loading = Self::after(heap, Outcome::Address(self.heap_span().addr));
        let entry = Self::after(loading, Outcome::Done);
        let starting = Self::after(entry, Outcome::Done);
        Self::after(starting, Outcome::Thread(thread))
    }

    /// A spawn in which nothing goes wrong succeeds wherever the bounds
    /// record, the stack and the heap fit in the window, however little room
    /// is left behind them: the guest runs, its handle names the thread, the
    /// stack and the heap, and the thread that spawned it is left without an
    /// active window.
    pub proof fn lemma_smooth_run_succeeds(self, state: ThreadState, thread: libc::pthread_t)
        requires
            self.stage is Parsing,
            self.placed_end() <= self.bounds.limit,
            0 < self.heap_size,
        ensures
            self.smooth_run(state, thread).action == SpawnAction::Finished(
                Ok(
                    ProcessHandle::of(
                        Teardown {
                            thread,
                            stack: Some(self.stack_span()),
                            heap: Some(self.heap_span()),
                        },
                    ),
                ),
            ),
            self.smooth_run(state, thread).spawn == self.at(Stage::Running),
            self.smooth_run(state, thread).region is None,
            self.smooth_run(state, thread).state == (ThreadState { heap: state.heap, bounds: None }),
    {
        let bounds = self.next(None, state, Outcome::Done);
        assert(bounds.spawn.stage is Bounds);
        let written = Self::after(bounds, Outcome::Address(self.bounds.base));
        assert(written.spawn.stage is Writing);
        let sealed = Self::after(written, Outcome::Done);
        assert(sealed.spawn.stage is Protecting);
        let stack = Self::after(sealed, Outcome::Status(0));
        assert(stack.spawn.stage is Stack);
        let heap = Self::after(stack, Outcome::Address(self.stack_span().addr));
        assert(heap.spawn.stage is Heap);
        let loading = Self::after(heap, Outcome::Address(self.heap_span().addr));
        assert(loading.spawn.stage is Loading);
        let entry = Self::after(loading, Outcome::Done);
        assert(entry.spawn.stage is Entry);
        let starting = Self::after(entry, Outcome::Done);
        assert(starting.spawn.stage is Starting);
    }

    /// How far a guest has come on its way to running.
    pub open spec fn progress(state: GuestState) -> int {
        match state {
            GuestState::Unborn => 0,
            GuestState::Reserved => 1,
            GuestState::Loaded => 2,
            GuestState::Running => 3,
            GuestState::Exited => 4,
            GuestState::Reclaimed => 5,
        }
    }

    /// A step takes the guest no more than one state further, from unborn
    /// over reserved and loaded to running, or back to unborn when it fails.
    /// A guest is running exactly when its spawn ended with a handle.
    pub proof fn lemma_guest_state_advances(
        self,
        region: Option<MemoryRegion>,
        state: ThreadState,
        outcome: Outcome,
    )
        requires
            self.accepts(outcome),
        ensures
            ({
                let before = Self::progress(self.guest_state());
                let after = Self::progress(self.next(region, state, outcome).spawn.guest_state());
                after == before || after == before + 1 || after == 0
            }),
            self.next(region, state, outcome).spawn.guest_state() == GuestState::Running
                <==> self.next(region, state, outcome).action matches SpawnAction::Finished(Ok(_)),
    {
    }

    /// Two guests whose windows abut keep apart: where each guest's regions
    /// fit in its own window, the stack and the heap of the one share no
    /// address with the stack and the heap of the other.
    pub proof fn lemma_abutting_guests_keep_apart(self, other: Spawn)
        requires
            self.bounds.limit == other.bounds.base,
            self.placed_end() <= self.bounds.limit,
            other.placed_end() <= other.bounds.limit,
        ensures
            self.heap_span().addr + self.heap_span().len <= other.stack_span().addr,
            self.heap_span().addr + self.heap_span().len <= other.heap_span().addr,
            self.stack_span().addr + self.stack_span().len <= other.stack_span().addr,
            self.bounds.holds(self.heap_span().addr as int, self.heap_span().len as int),
            other.bounds.holds(other.heap_span().addr as int, other.heap_span().len as int),
    {
    }

    /// A step that ends a spawn leaves the thread without an active window
    /// and without bounds, and a spawn ends in success only from a started
    /// thread, with a handle for that thread, the stack and the heap.
    pub proof fn lemma_finished_leaves_the_window(
        self,
        region: Option<MemoryRegion>,
        state: ThreadState,
        outcome: Outcome,
    )
        requires
            self.sound(region),
            self.accepts(outcome),
            self.next(region, state, outcome).action is Finished,
            !(self.stage is Parsing),
        ensures
            self.next(region, state, outcome).region is None,
            self.next(region, state, outcome).state.bounds is None,
            self.next(region, state, outcome).action matches SpawnAction::Finished(Ok(handle))
                ==> outcome matches Outcome::Thread(thread) && self.stage is Starting && handle@
                == (Teardown {
                thread,
                stack: Some(self.stack_span()),
                heap: Some(self.heap_span()),
            }),
    {
        broadcast use ProcessHandle::lemma_of_view;

    }

    /// Whether `outcome` can be the report of the action that the spawn
    /// waits for.
    pub fn expects(&self, outcome: &Outcome) -> (ok: bool)
        ensures
            ok == self.accepts(*outcome),
    {
        match self.stage {
            Stage::Parsing => match outcome {
                Outcome::Done | Outcome::ElfError(_) | Outcome::IoError(_) => true,
                _ => false,
            },
            Stage::Bounds(_) | Stage::Stack(_) | Stage::Heap { .. } => match outcome {
                Outcome::Address(_) => true,
                _ => false,
            },
            Stage::Writing => match outcome {
                Outcome::Done => true,
                _ => false,
            },
            Stage::Protecting | Stage::Unwinding(_) => match outcome {
                Outcome::Status(_) => true,
                _ => false,
            },
            Stage::Loading { .. } => match outcome {
                Outcome::Done | Outcome::ElfError(_) => true,
                _ => false,
            },
            Stage::Entry { .. } => match outcome {
                Outcome::Done | Outcome::Failed => true,
                _ => false,
            },
            Stage::Starting { .. } => match outcome {
                Outcome::Thread(_) | Outcome::Failed => true,
                _ => false,
            },
            Stage::Running | Stage::Aborted => false,
        }
    }

    /// The state of the guest at this stage of its spawn.
    pub fn state(&self) -> (state: GuestState)
        ensures
            state == self.guest_state(),
    {
        match self.stage {
            Stage::Loading { .. } => GuestState::Reserved,
            Stage::Entry { .. } | Stage::Starting { .. } => GuestState::Loaded,
            Stage::Running => GuestState::Running,
            _ => GuestState::Unborn,
        }
    }

    fn go_on(self, stage: Stage, action: SpawnAction) -> (out: (Spawn, SpawnAction))
        ensures
            out.0 == self.at(stage),
            out.1 == action,
    {
        (
            Spawn {
                bounds: self.bounds,
                elf_path: self.elf_path,
                entry_name: self.entry_name,
                stack_size: self.stack_size,
                heap_size: self.heap_size,
                stage,
            },
            action,
        )
    }

    fn finish(self, ctx: &mut ThreadContext, result: Result<ProcessHandle, SpawnError>) -> (out: (
        Spawn,
        SpawnAction,
    ))
        ensures
            out.0 == self.end(old(ctx).state, result).spawn,
            out.1 == self.end(old(ctx).state, result).action,
            final(ctx).mmap@ == self.end(old(ctx).state, result).region,
            final(ctx).state == self.end(old(ctx).state, result).state,
    {
        set_process_info(&mut ctx.state, None);
        set_active_region(&mut ctx.mmap, None);
        let stage = if result.is_ok() {
            Stage::Running
        } else {
            Stage::Aborted
        };
        self.go_on(stage, SpawnAction::Finished(result))
    }

    fn abort(self, ctx: &mut ThreadContext, error: SpawnError) -> (out: (Spawn, SpawnAction))
        ensures
            out.0 == self.fail(old(ctx).mmap@, old(ctx).state, error).spawn,
            out.1 == self.fail(old(ctx).mmap@, old(ctx).state, error).action,
            final(ctx).mmap@ == self.fail(old(ctx).mmap@, old(ctx).state, error).region,
            final(ctx).state == self.fail(old(ctx).mmap@, old(ctx).state, error).state,
    {
        match ctx.mmap.region() {
            Some(r) if r.base < r.top => {
                let unmap = UnmapRequest { addr: r.base, len: r.top - r.base };
                self.go_on(Stage::Unwinding(error), SpawnAction::Unmap(unmap))
            },
            _ => self.finish(ctx, Err(error)),
        }
    }

    /// Takes the report of the action that the spawn waits for, and answers
    /// with the next action. The steps follow one another in a fixed order:
    /// parse; enter the window; place the bounds record at the window's
    /// base, write it, make it read-only; place the stack right after it and
    /// the heap right after the stack; load; find the entry; start the
    /// thread; leave the window. A step that fails ends the spawn, after all
    /// that the window holds by then was unmapped.
    pub fn step(self, ctx: &mut ThreadContext, outcome: Outcome) -> (out: (Spawn, SpawnAction))
        requires
            self.accepts(outcome),
        ensures
            out.0 == self.next(old(ctx).mmap@, old(ctx).state, outcome).spawn,
            out.1 == self.next(old(ctx).mmap@, old(ctx).state, outcome).action,
            final(ctx).mmap@ == self.next(old(ctx).mmap@, old(ctx).state, outcome).region,
            final(ctx).state == self.next(old(ctx).mmap@, old(ctx).state, outcome).state,
    {
        let ghost before = self;
        let Spawn { bounds, elf_path, entry_name, stack_size, heap_size, stage } = self;
        let rest = Spawn {
            bounds,
            elf_path,
            entry_name,
            stack_size,
            heap_size,
            stage: Stage::Aborted,
        };
        assert(forall|s: Stage| rest.at(s) == before.at(s));
        match (stage, outcome) {
            (Stage::Parsing, Outcome::ElfError(e)) => rest.go_on(
                Stage::Aborted,
                SpawnAction::Finished(Err(SpawnError::Elf(e))),
            ),
            (Stage::Parsing, Outcome::IoError(e)) => rest.go_on(
                Stage::Aborted,
                SpawnAction::Finished(Err(SpawnError::Io(e))),
            ),
            (Stage::Parsing, _) => {
                set_process_info(&mut ctx.state, Some(bounds));
                set_active_region(&mut ctx.mmap, Some(bounds));
                match place(ctx, Some(bounds.base), PAGE_SIZE) {
                    Ok(request) => rest.go_on(Stage::Bounds(request), SpawnAction::Install(request)),
                    Err(e) => rest.abort(ctx, SpawnError::Mapping(e)),
                }
            },
            (Stage::Bounds(request), Outcome::Address(returned)) => {
                match ctx.mmap.complete(&request, returned) {
                    Ok(_) => rest.go_on(
                        Stage::Writing,
                        SpawnAction::WriteBounds {
                            addr: bounds.base,
                            base: bounds.base,
                            limit: bounds.limit,
                        },
                    ),
                    Err(e) => rest.abort(ctx, SpawnError::Mapping(e)),
                }
            },
            (Stage::Writing, _) => match ctx.mmap.mprotect(bounds.base, PAGE_SIZE, PROT_READ) {
                Ok(request) => rest.go_on(Stage::Protecting, SpawnAction::Protect(request)),
                Err(e) => rest.abort(ctx, SpawnError::Mapping(e)),
            },
            (Stage::Protecting, Outcome::Status(status)) => {
                if status != 0 {
                    rest.abort(ctx, SpawnError::Mapping(MapError::MprotectFailed))
                } else {
                    match place(ctx, bounds.base.checked_add(PAGE_SIZE), stack_size) {
                        Ok(request) => rest.go_on(
                            Stage::Stack(request),
                            SpawnAction::Install(request),
                        ),
                        Err(e) => rest.abort(ctx, SpawnError::Mapping(e)),
                    }
                }
            },
            (Stage::Stack(request), Outcome::Address(returned)) => {
                match ctx.mmap.complete(&request, returned) {
                    Ok(_) => match place(ctx, request.addr.checked_add(request.len), heap_size) {
                        Ok(heap) => rest.go_on(
                            Stage::Heap {
                                stack: UnmapRequest { addr: request.addr, len: request.len },
                                request: heap,
                            },
                            SpawnAction::Install(heap),
                        ),
                        Err(e) => rest.abort(ctx, SpawnError::Mapping(e)),
                    },
                    Err(e) => rest.abort(ctx, SpawnError::Mapping(e)),
                }
            },
            (Stage::Heap { stack, request }, Outcome::Address(returned)) => {
                match ctx.mmap.complete(&request, returned) {
                    Ok(_) => rest.go_on(
                        Stage::Loading {
                            stack,
                            heap: UnmapRequest { addr: request.addr, len: request.len },
                        },
                        SpawnAction::LoadImage,
                    ),
                    Err(e) => rest.abort(ctx, SpawnError::Mapping(e)),
                }
            },
            (Stage::Loading { .. }, Outcome::ElfError(e)) => rest.abort(ctx, SpawnError::Elf(e)),
            (Stage::Loading { stack, heap }, _) => {
                let name = rest.entry_name.clone();
                rest.go_on(Stage::Entry { stack, heap }, SpawnAction::FindEntry(name))
            },
            (Stage::Entry { stack, heap }, Outcome::Done) => rest.go_on(
                Stage::Starting { stack, heap },
                SpawnAction::StartThread(
                    ThreadPlan {
                        stack_addr: stack.addr,
                        stack_size: stack.len,
                        heap: HeapArena { addr: heap.addr, size: heap.len },
                        bounds,
                    },
                ),
            ),
            (Stage::Entry { .. }, _) => {
                let name = rest.entry_name.clone();
                rest.abort(ctx, SpawnError::Symbol(name))
            },
            (Stage::Starting { stack, heap }, Outcome::Thread(thread)) => rest.finish(
                ctx,
                Ok(ProcessHandle::with_regions(thread, stack, heap)),
            ),
            (Stage::Starting { .. }, _) => rest.abort(ctx, SpawnError::ThreadCreate),
            (Stage::Unwinding(error), _) => rest.finish(ctx, Err(error)),
            _ => unreached(),
        }
    }
}

/// Plans a placement for a spawn at `addr`, or refuses it where the address
/// lies beyond the address space.
fn place(ctx: &ThreadContext, addr: Option<usize>, len: usize) -> (plan: Result<MapRequest, MapError>)
    ensures
        plan == match addr {
            Some(a) => placement(ctx.mmap@, a as int, len),
            None => Err(MapError::OutOfRegion),
        },
{
    match addr {
        Some(a) => ctx.mmap.mmap_next(a, len, PROT_READ_WRITE),
        None => Err(MapError::OutOfRegion),
    }
}

/// The placement of `len` bytes at `addr` for a spawn, readable and
/// writable. An address beyond the address space is out of any window.
pub open spec fn placement(region: Option<MemoryRegion>, addr: int, len: usize) -> Result<
    MapRequest,
    MapError,
> {
    if addr > usize::MAX {
        Err(MapError::OutOfRegion)
    } else {
        plan_next(region, addr as usize, len, PROT_READ_WRITE)
    }
}

impl Process {
    /// Initialize new process with given memory bounds.
    pub fn new(base_addr: usize, limit_addr: usize) -> (process: Self)
        ensures
            process@ == (ProcessBounds { base: base_addr, limit: limit_addr }),
    {
        Self { bounds: ProcessBounds { base: base_addr, limit: limit_addr } }
    }

    /// The window of the process.
    pub fn bounds(&self) -> (bounds: ProcessBounds)
        ensures
            bounds == self@,
    {
        self.bounds
    }

    /// Begins the spawn of a guest from the image at `elf_path`, to be
    /// entered at the symbol `entry_name`, with a stack and a heap of the
    /// given sizes. The first action is to parse the image.
    pub fn spawn(&self, elf_path: &str, entry_name: &str, stack_size: usize, heap_size: usize) -> (out:
        (Spawn, SpawnAction))
        ensures
            out.0.bounds == self@,
            out.0.elf_path@ == elf_path@,
            out.0.entry_name@ == entry_name@,
            out.0.stack_size == stack_size,
            out.0.heap_size == heap_size,
            out.0.stage == Stage::Parsing,
            out.1 == SpawnAction::ParseImage(out.0.elf_path),
    {
        let path = elf_path.to_owned();
        let action = SpawnAction::ParseImage(path.clone());
        (
            Spawn {
                bounds: self.bounds,
                elf_path: path,
                entry_name: entry_name.to_owned(),
                stack_size,
                heap_size,
                stage: Stage::Parsing,
            },
            action,
        )
    }
}

} // verus!
