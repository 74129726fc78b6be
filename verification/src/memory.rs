//! The region allocator of a guest window, and the mapping adapter that an
//! ELF loader drives while it maps a guest into that window.
//!
//! Nothing here touches the operating system. Each operation is split in two:
//! a planning step, which checks the call against the active window and
//! returns the request to hand to the operating system, and a completing
//! step, which takes what the operating system answered and, on success,
//! advances the window's `top`.

use vstd::prelude::*;
use crate::process::ProcessBounds;
use crate::runtime::{set_process_info, ThreadState};

verus! {

/// The size of a page, and of the bounds record at the start of a window.
pub const PAGE_SIZE: usize = 4096;

/// Pages cannot be accessed.
pub const PROT_NONE: i32 = 0;

/// Pages can be read.
pub const PROT_READ: i32 = 1;

/// Pages can be written.
pub const PROT_WRITE: i32 = 2;

/// Pages can be executed.
pub const PROT_EXEC: i32 = 4;

/// A private copy-on-write mapping.
pub const MAP_PRIVATE: i32 = 2;

/// The mapping is placed at exactly the address asked for.
pub const MAP_FIXED: i32 = 16;

/// The mapping is not backed by a file.
pub const MAP_ANONYMOUS: i32 = 32;

/// The flags of every mapping that the region allocator places itself.
pub const MAP_PLACED: i32 = MAP_PRIVATE | MAP_ANONYMOUS | MAP_FIXED;

/// The address that the operating system returns when a mapping fails.
pub const MAP_FAILED: usize = usize::MAX;

/// The window that mappings are currently confined to, with the first
/// address in it that was never handed out.
#[derive(Clone, Copy, Debug, PartialEq, Eq, Structural)]
pub struct MemoryRegion {
    pub base: usize,
    pub limit: usize,
    pub top: usize,
}

impl MemoryRegion {
    /// `top` lies in the window. In a window that is empty or inverted
    /// (`limit <= base`) nothing can be placed, and `top` stays at `base`.
    pub open spec fn wf(self) -> bool {
        self.base <= self.top && (self.top <= self.limit || self.top == self.base)
    }

    /// The range `[addr, addr + len)` lies in the window.
    pub open spec fn holds(self, addr: int, len: int) -> bool {
        self.base <= addr && addr + len <= self.limit
    }

    /// The region after `len` more bytes were handed out at `top`.
    pub open spec fn bumped(self, len: usize) -> MemoryRegion {
        MemoryRegion { top: (self.top + len) as usize, ..self }
    }

    /// The fresh region of a window: nothing handed out yet.
    pub open spec fn fresh(bounds: ProcessBounds) -> MemoryRegion {
        MemoryRegion { base: bounds.base, limit: bounds.limit, top: bounds.base }
    }
}

/// The operation that planned a mapping request.
#[derive(Clone, Copy, Debug, PartialEq, Eq, Structural)]
pub enum MapOp {
    /// `mmap_next`: a placement by the lifecycle driver.
    Next,
    /// `mmap`: a mapping asked for by the ELF loader.
    Mmap,
    /// `mmap_anonymous`: an anonymous mapping at a fixed address.
    Anonymous,
    /// `mmap_reserve`: a reservation to be filled later.
    Reserve,
}

/// Why the adapter refused or failed an operation.
#[derive(Clone, Copy, Debug, PartialEq, Eq, Structural)]
pub enum MapError {
    /// No window is active on this thread.
    NoActiveRegion,
    /// The address asked for lies outside the active window.
    OutOfBounds,
    /// An explicit address was given without `MAP_FIXED`.
    FixedRequired,
    /// The placement is not the next free range of the window, or crosses
    /// the window's limit.
    OutOfRegion,
    /// The operating system failed an `mmap`.
    MmapFailed,
    /// The operating system failed the `mmap` of a reservation.
    ReserveFailed,
    /// The operating system failed a `munmap`.
    MunmapFailed,
    /// The operating system failed an `mprotect`.
    MprotectFailed,
}

impl MapError {
    /// The text of the error.
    pub open spec fn message_spec(self) -> Seq<char> {
        match self {
            MapError::NoActiveRegion => "No active region context"@,
            MapError::OutOfBounds => "Requested address out of bounds"@,
            MapError::FixedRequired => "Explicit address requires MAP_FIXED"@,
            MapError::OutOfRegion => "Out of region memory"@,
            MapError::MmapFailed => "System mmap failed"@,
            MapError::ReserveFailed => "mmap_reserve failed"@,
            MapError::MunmapFailed => "System munmap failed"@,
            MapError::MprotectFailed => "System mprotect failed"@,
        }
    }

    /// The text of the error.
    pub fn message(&self) -> (text: &'static str)
        ensures
            text@ == self.message_spec(),
    {
        match self {
            MapError::NoActiveRegion => "No active region context",
            MapError::OutOfBounds => "Requested address out of bounds",
            MapError::FixedRequired => "Explicit address requires MAP_FIXED",
            MapError::OutOfRegion => "Out of region memory",
            MapError::MmapFailed => "System mmap failed",
            MapError::ReserveFailed => "mmap_reserve failed",
            MapError::MunmapFailed => "System munmap failed",
            MapError::MprotectFailed => "System mprotect failed",
        }
    }
}

/// The error of the ELF loader that reports a failed mapping with the text
/// `msg`: `elf_loader::Error::MmapError` with that text as its `msg`.
pub uninterp spec fn mmap_error(msg: Seq<char>) -> elf_loader::Error;

/// Builds `elf_loader::Error::MmapError { msg }`, the variant by which a
/// mapping capability tells the ELF loader that a mapping failed. The
/// contract names the value built from the text; nothing else is claimed of
/// it.
#[verifier::external_body]
fn build_mmap_error(msg: &str) -> (error: elf_loader::Error)
    ensures
        error == mmap_error(msg@),
{
    elf_loader::Error::MmapError { msg: msg.to_string() }
}

impl MapError {
    /// The error as the ELF loader is told of it: a mapping error of the
    /// loader with the text of this error.
    pub fn into_elf_error(self) -> (error: elf_loader::Error)
        ensures
            error == mmap_error(self.message_spec()),
    {
        build_mmap_error(self.message())
    }
}

/// A call of `mmap` that the adapter asks the caller to make, and how to
/// judge what comes back.
#[derive(Clone, Copy, Debug, PartialEq, Eq)]
pub struct MapRequest {
    /// The operation that planned the request.
    pub op: MapOp,
    /// Where the mapping goes.
    pub addr: usize,
    /// Its length in bytes.
    pub len: usize,
    /// Its protection bits.
    pub prot: i32,
    /// Its mapping flags.
    pub flags: i32,
    /// The file to map, or `None` for an anonymous mapping.
    pub fd: Option<isize>,
    /// The offset into the file.
    pub offset: usize,
    /// Whether the operating system is to be called at all. Where it is not,
    /// an earlier reservation covers the range, and `addr` itself is reported
    /// as the address returned.
    pub install: bool,
    /// Whether the address returned must be `addr`.
    pub exact: bool,
    /// Whether success advances the window's `top` by `len`.
    pub advance: bool,
    /// Whether the loader has to copy the bytes into the range itself.
    pub need_copy: bool,
}

/// A call of `mprotect` that the adapter asks the caller to make.
#[derive(Clone, Copy, Debug, PartialEq, Eq, Structural)]
pub struct ProtectRequest {
    pub addr: usize,
    pub len: usize,
    pub prot: i32,
}

/// A call of `munmap` that the adapter asks the caller to make.
#[derive(Clone, Copy, Debug, PartialEq, Eq, Structural)]
pub struct UnmapRequest {
    pub addr: usize,
    pub len: usize,
}

/// Whether `flags` has `MAP_FIXED` set.
pub open spec fn has_fixed(flags: i32) -> bool {
    flags & MAP_FIXED == MAP_FIXED
}

/// What `mmap_next` answers in a given state of the adapter.
pub open spec fn plan_next(region: Option<MemoryRegion>, addr: usize, len: usize, prot: i32) -> Result<
    MapRequest,
    MapError,
> {
    match region {
        None => Err(MapError::NoActiveRegion),
        Some(r) => if addr != r.top || addr + len > r.limit {
            Err(MapError::OutOfRegion)
        } else {
            Ok(
                MapRequest {
                    op: MapOp::Next,
                    addr,
                    len,
                    prot,
                    flags: MAP_PLACED,
                    fd: None,
                    offset: 0,
                    install: true,
                    exact: false,
                    advance: true,
                    need_copy: false,
                },
            )
        },
    }
}

/// What `mmap` answers in a given state of the adapter.
pub open spec fn plan_mmap(
    region: Option<MemoryRegion>,
    addr: Option<usize>,
    len: usize,
    prot: i32,
    flags: i32,
    offset: usize,
    fd: Option<isize>,
) -> Result<MapRequest, MapError> {
    match region {
        None => Err(MapError::NoActiveRegion),
        Some(r) => {
            let at = match addr {
                Some(a) => a,
                None => r.top,
            };
            if addr is Some && (at < r.base || at >= r.limit) {
                Err(MapError::OutOfBounds)
            } else if addr is Some && !has_fixed(flags) {
                Err(MapError::FixedRequired)
            } else if at + len > r.limit {
                Err(MapError::OutOfRegion)
            } else {
                Ok(
                    MapRequest {
                        op: MapOp::Mmap,
                        addr: at,
                        len,
                        prot,
                        flags: flags | MAP_FIXED,
                        fd,
                        offset,
                        install: fd is Some,
                        exact: fd is Some,
                        advance: addr is None,
                        need_copy: fd is None,
                    },
                )
            }
        },
    }
}

/// What `mmap_anonymous` answers in a given state of the adapter.
pub open spec fn plan_anonymous(
    region: Option<MemoryRegion>,
    addr: usize,
    len: usize,
    prot: i32,
    flags: i32,
) -> Result<MapRequest, MapError> {
    match region {
        None => Err(MapError::NoActiveRegion),
        Some(r) => if !r.holds(addr as int, len as int) {
            Err(MapError::OutOfBounds)
        } else {
            Ok(
                MapRequest {
                    op: MapOp::Anonymous,
                    addr,
                    len,
                    prot,
                    flags: flags | (MAP_FIXED | MAP_ANONYMOUS),
                    fd: None,
                    offset: 0,
                    install: true,
                    exact: true,
                    advance: false,
                    need_copy: false,
                },
            )
        },
    }
}

/// What `mmap_reserve` answers in a given state of the adapter.
pub open spec fn plan_reserve(region: Option<MemoryRegion>, len: usize, use_file: bool) -> Result<
    MapRequest,
    MapError,
> {
    match region {
        None => Err(MapError::NoActiveRegion),
        Some(r) => if r.top + len > r.limit {
            Err(MapError::OutOfRegion)
        } else {
            Ok(
                MapRequest {
                    op: MapOp::Reserve,
                    addr: r.top,
                    len,
                    prot: if use_file {
                        PROT_NONE
                    } else {
                        PROT_WRITE
                    },
                    flags: MAP_PLACED,
                    fd: None,
                    offset: 0,
                    install: true,
                    exact: true,
                    advance: true,
                    need_copy: false,
                },
            )
        },
    }
}

/// What `munmap` and `mprotect` check before they hand a range on.
pub open spec fn plan_range(region: Option<MemoryRegion>, addr: usize, len: usize) -> Result<
    (),
    MapError,
> {
    match region {
        None => Err(MapError::NoActiveRegion),
        Some(r) => if !r.holds(addr as int, len as int) {
            Err(MapError::OutOfBounds)
        } else {
            Ok(())
        },
    }
}

/// The error that a failed request of `op` is reported with.
pub open spec fn failure_of(op: MapOp) -> MapError {
    match op {
        MapOp::Reserve => MapError::ReserveFailed,
        _ => MapError::MmapFailed,
    }
}

/// What `complete` answers, given the address that came back for `req`.
/// A request is completed only in the window, and one that advances `top`
/// only at `top`.
pub open spec fn completion(region: Option<MemoryRegion>, req: MapRequest, returned: usize) -> Result<
    usize,
    MapError,
> {
    match region {
        None => Err(MapError::NoActiveRegion),
        Some(r) => if !r.holds(req.addr as int, req.len as int) {
            Err(MapError::OutOfBounds)
        } else if returned == MAP_FAILED || (req.exact && returned != req.addr) {
            Err(failure_of(req.op))
        } else if req.advance && req.addr != r.top {
            Err(MapError::OutOfRegion)
        } else {
            Ok(returned)
        },
    }
}

/// The state of the adapter after `complete`.
pub open spec fn completed(region: Option<MemoryRegion>, req: MapRequest, returned: usize) -> Option<
    MemoryRegion,
> {
    match region {
        Some(r) if req.advance && completion(region, req, returned) is Ok => Some(
            r.bumped(req.len),
        ),
        _ => region,
    }
}

/// A request that was planned in a window can be completed in it, as long
/// as the window's `top` has not moved meanwhile: what comes of it depends
/// on the address returned alone.
pub open spec fn planned(region: Option<MemoryRegion>, req: MapRequest) -> bool {
    region matches Some(r) && r.holds(req.addr as int, req.len as int) && (req.advance
        ==> req.addr == r.top)
}

/// Every mapping that the adapter plans lies in the active window, and can
/// be completed there.
pub proof fn lemma_plans_stay_in_window(
    region: Option<MemoryRegion>,
    addr: Option<usize>,
    at: usize,
    len: usize,
    prot: i32,
    flags: i32,
    offset: usize,
    fd: Option<isize>,
    use_file: bool,
)
    requires
        region matches Some(r) ==> r.wf(),
    ensures
        plan_next(region, at, len, prot) matches Ok(req) ==> planned(region, req),
        plan_mmap(region, addr, len, prot, flags, offset, fd) matches Ok(req) ==> planned(
            region,
            req,
        ),
        plan_anonymous(region, at, len, prot, flags) matches Ok(req) ==> planned(region, req),
        plan_reserve(region, len, use_file) matches Ok(req) ==> planned(region, req),
        plan_range(region, at, len) is Ok ==> (region matches Some(r) && r.holds(
            at as int,
            len as int,
        )),
{
}

/// On a thread without an active window every operation of the adapter
/// fails, and the thread stays without one.
pub proof fn lemma_no_window_no_mapping(
    addr: Option<usize>,
    at: usize,
    len: usize,
    prot: i32,
    flags: i32,
    offset: usize,
    fd: Option<isize>,
    use_file: bool,
    req: MapRequest,
    returned: usize,
)
    ensures
        plan_next(None, at, len, prot) == Err::<MapRequest, MapError>(MapError::NoActiveRegion),
        plan_mmap(None, addr, len, prot, flags, offset, fd) == Err::<MapRequest, MapError>(
            MapError::NoActiveRegion,
        ),
        plan_anonymous(None, at, len, prot, flags) == Err::<MapRequest, MapError>(
            MapError::NoActiveRegion,
        ),
        plan_reserve(None, len, use_file) == Err::<MapRequest, MapError>(MapError::NoActiveRegion),
        plan_range(None, at, len) == Err::<(), MapError>(MapError::NoActiveRegion),
        completion(None, req, returned) == Err::<usize, MapError>(MapError::NoActiveRegion),
        completed(None, req, returned) is None,
{
}

/// Whatever is completed was mapped in the active window.
pub proof fn lemma_completed_in_window(region: Option<MemoryRegion>, req: MapRequest, returned: usize)
    ensures
        completion(region, req, returned) is Ok ==> (region matches Some(r) && r.holds(
            req.addr as int,
            req.len as int,
        )),
{
}

/// The window's `top` never moves back: completing a request keeps `base`
/// and `limit`, leaves `top` in the window, and either leaves `top` where it
/// was or, for a request that advances it and succeeds, moves it up by the
/// request's length.
pub proof fn lemma_top_never_decreases(region: MemoryRegion, req: MapRequest, returned: usize)
    requires
        region.wf(),
    ensures
        completed(Some(region), req, returned) matches Some(after) && after.base == region.base
            && after.limit == region.limit && after.top >= region.top && after.wf() && after.top == (
        if req.advance && completion(Some(region), req, returned) is Ok {
            region.top + req.len
        } else {
            region.top as int
        }),
{
}

/// Where the window's `top` and the lengths asked for are multiples of the
/// page size, `top` stays one.
pub proof fn lemma_top_stays_page_aligned(region: MemoryRegion, req: MapRequest, returned: usize)
    requires
        region.wf(),
        region.top % PAGE_SIZE == 0,
        req.len % PAGE_SIZE == 0,
    ensures
        completed(Some(region), req, returned)->0.top % PAGE_SIZE == 0,
{
}

/// A placement that would cross the window's limit, by one byte or by more,
/// is refused as out of region, and a request for such a placement cannot be
/// completed: `top` stays where it is.
pub proof fn lemma_crossing_the_limit_fails(
    region: MemoryRegion,
    len: usize,
    prot: i32,
    flags: i32,
    offset: usize,
    fd: Option<isize>,
    use_file: bool,
    req: MapRequest,
    returned: usize,
)
    requires
        region.top + len > region.limit,
    ensures
        plan_next(Some(region), region.top, len, prot) == Err::<MapRequest, MapError>(
            MapError::OutOfRegion,
        ),
        plan_mmap(Some(region), None, len, prot, flags, offset, fd) == Err::<MapRequest, MapError>(
            MapError::OutOfRegion,
        ),
        plan_reserve(Some(region), len, use_file) == Err::<MapRequest, MapError>(
            MapError::OutOfRegion,
        ),
        req.advance && req.len == len ==> completion(Some(region), req, returned) is Err
            && completed(Some(region), req, returned) == Some(region),
{
}

/// A placement that ends exactly at the window's limit is accepted.
pub proof fn lemma_reaching_the_limit_succeeds(
    region: MemoryRegion,
    len: usize,
    prot: i32,
    use_file: bool,
)
    requires
        region.wf(),
        region.top + len == region.limit,
    ensures
        plan_next(Some(region), region.top, len, prot) is Ok,
        plan_reserve(Some(region), len, use_file) is Ok,
{
}

/// An anonymous mapping at a fixed address, and its unmapping, leave the
/// window as it was, whatever the operating system made of them: whatever
/// is planned afterwards is planned as if neither had happened.
pub proof fn lemma_anonymous_mapping_leaves_no_trace(
    region: Option<MemoryRegion>,
    addr: usize,
    len: usize,
    prot: i32,
    flags: i32,
    returned: usize,
)
    ensures
        plan_anonymous(region, addr, len, prot, flags) matches Ok(req) ==> completed(
            region,
            req,
            returned,
        ) == region && plan_range(region, addr, len) is Ok,
{
}

/// Whether `[addr, addr + len)` lies in `[base, limit)`.
fn range_within(addr: usize, len: usize, base: usize, limit: usize) -> (within: bool)
    ensures
        within == (base <= addr && addr + len <= limit),
{
    if addr < base || addr > limit {
        false
    } else {
        len <= limit - addr
    }
}

/// The mapping adapter of one thread: the window that is active on it, if
/// any, and the mapping operations confined to that window.
pub struct RegionMmap {
    active: Option<MemoryRegion>,
}

impl View for RegionMmap {
    type V = Option<MemoryRegion>;

    closed spec fn view(&self) -> Option<MemoryRegion> {
        self.active
    }
}

impl RegionMmap {
    #[verifier::type_invariant]
    spec fn inv(self) -> bool {
        self.active matches Some(r) ==> r.wf()
    }

    /// The active window, if there is one, is well formed.
    pub open spec fn wf(&self) -> bool {
        self@ matches Some(r) ==> r.wf()
    }

    /// The adapter with `bounds` as its active window, or with none.
    pub closed spec fn spec_with(bounds: Option<ProcessBounds>) -> RegionMmap {
        RegionMmap {
            active: match bounds {
                Some(b) => Some(MemoryRegion::fresh(b)),
                None => None,
            },
        }
    }

    /// The adapter with `bounds` as its active window has that window,
    /// with nothing handed out yet, and the adapter without one has none.
    pub broadcast proof fn lemma_spec_with(bounds: Option<ProcessBounds>)
        ensures
            (#[trigger] Self::spec_with(bounds))@ == match bounds {
                Some(b) => Some(MemoryRegion::fresh(b)),
                None => None,
            },
    {
    }

    /// An adapter with no active window.
    pub fn new() -> (adapter: Self)
        ensures
            adapter@ is None,
            adapter == Self::spec_with(None),
    {
        RegionMmap { active: None }
    }

    /// The active window and its `top`, if a window is active.
    pub fn region(&self) -> (region: Option<MemoryRegion>)
        ensures
            region == self@,
            self.wf(),
    {
        proof {
            use_type_invariant(self);
        }
        self.active
    }

    /// Plans the placement of `len` bytes at `addr`, which must be the
    /// window's `top`: a private anonymous mapping at that fixed address.
    pub fn mmap_next(&self, addr: usize, len: usize, prot: i32) -> (plan: Result<
        MapRequest,
        MapError,
    >)
        ensures
            plan == plan_next(self@, addr, len, prot),
            plan matches Ok(req) ==> planned(self@, req),
    {
        match self.active {
            None => Err(MapError::NoActiveRegion),
            Some(r) => {
                if addr != r.top || !range_within(addr, len, addr, r.limit) {
                    Err(MapError::OutOfRegion)
                } else {
                    proof {
                        use_type_invariant(self);
                    }
                    Ok(
                        MapRequest {
                            op: MapOp::Next,
                            addr,
                            len,
                            prot,
                            flags: MAP_PLACED,
                            fd: None,
                            offset: 0,
                            install: true,
                            exact: false,
                            advance: true,
                            need_copy: false,
                        },
                    )
                }
            },
        }
    }

    /// Plans a mapping for the ELF loader. Without an address the mapping
    /// goes to the window's `top`; with one, the address must lie in the
    /// window and `MAP_FIXED` must be set. Only a mapping of a file is
    /// installed: without a file the range was reserved before, and the
    /// loader copies the bytes itself.
    pub fn mmap(
        &self,
        addr: Option<usize>,
        len: usize,
        prot: i32,
        flags: i32,
        offset: usize,
        fd: Option<isize>,
    ) -> (plan: Result<MapRequest, MapError>)
        ensures
            plan == plan_mmap(self@, addr, len, prot, flags, offset, fd),
            plan matches Ok(req) ==> planned(self@, req),
    {
        match self.active {
            None => Err(MapError::NoActiveRegion),
            Some(r) => {
                proof {
                    use_type_invariant(self);
                }
                let at = match addr {
                    Some(a) => {
                        if a < r.base || a >= r.limit {
                            return Err(MapError::OutOfBounds);
                        }
                        if flags & MAP_FIXED != MAP_FIXED {
                            return Err(MapError::FixedRequired);
                        }
                        a
                    },
                    None => r.top,
                };
                if !range_within(at, len, at, r.limit) {
                    return Err(MapError::OutOfRegion);
                }
                Ok(
                    MapRequest {
                        op: MapOp::Mmap,
                        addr: at,
                        len,
                        prot,
                        flags: flags | MAP_FIXED,
                        fd,
                        offset,
                        install: fd.is_some(),
                        exact: fd.is_some(),
                        advance: addr.is_none(),
                        need_copy: fd.is_none(),
                    },
                )
            },
        }
    }

    /// Plans an anonymous mapping at the fixed address `addr`, which must lie
    /// in the window with all of its `len` bytes.
    pub fn mmap_anonymous(&self, addr: usize, len: usize, prot: i32, flags: i32) -> (plan: Result<
        MapRequest,
        MapError,
    >)
        ensures
            plan == plan_anonymous(self@, addr, len, prot, flags),
            plan matches Ok(req) ==> planned(self@, req),
    {
        match self.active {
            None => Err(MapError::NoActiveRegion),
            Some(r) => {
                if !range_within(addr, len, r.base, r.limit) {
                    Err(MapError::OutOfBounds)
                } else {
                    Ok(
                        MapRequest {
                            op: MapOp::Anonymous,
                            addr,
                            len,
                            prot,
                            flags: flags | (MAP_FIXED | MAP_ANONYMOUS),
                            fd: None,
                            offset: 0,
                            install: true,
                            exact: true,
                            advance: false,
                            need_copy: false,
                        },
                    )
                }
            },
        }
    }

    /// Plans the reservation of `len` bytes at the window's `top`, to be
    /// filled later. A range that a file will be mapped over is reserved
    /// without access; any other is reserved writable.
    pub fn mmap_reserve(&self, len: usize, use_file: bool) -> (plan: Result<MapRequest, MapError>)
        ensures
            plan == plan_reserve(self@, len, use_file),
            plan matches Ok(req) ==> planned(self@, req),
    {
        match self.active {
            None => Err(MapError::NoActiveRegion),
            Some(r) => {
                proof {
                    use_type_invariant(self);
                }
                if !range_within(r.top, len, r.top, r.limit) {
                    Err(MapError::OutOfRegion)
                } else {
                    Ok(
                        MapRequest {
                            op: MapOp::Reserve,
                            addr: r.top,
                            len,
                            prot: if use_file {
                                PROT_NONE
                            } else {
                                PROT_WRITE
                            },
                            flags: MAP_PLACED,
                            fd: None,
                            offset: 0,
                            install: true,
                            exact: true,
                            advance: true,
                            need_copy: false,
                        },
                    )
                }
            },
        }
    }

    /// Takes the address that the operating system returned for `req` (or
    /// `req.addr` itself, where the request installs nothing). On success
    /// the address is handed on, and `top` advances if the request asks for
    /// it; on any failure the window is left as it was.
    pub fn complete(&mut self, req: &MapRequest, returned: usize) -> (result: Result<usize, MapError>)
        ensures
            result == completion(old(self)@, *req, returned),
            final(self)@ == completed(old(self)@, *req, returned),
            result is Err ==> final(self)@ == old(self)@,
            old(self)@ matches Some(before) ==> (final(self)@ matches Some(after) && after.base
                == before.base && after.limit == before.limit && before.top <= after.top),
            final(self).wf(),
    {
        proof {
            use_type_invariant(&*self);
        }
        match self.active {
            None => Err(MapError::NoActiveRegion),
            Some(r) => {
                if !range_within(req.addr, req.len, r.base, r.limit) {
                    return Err(MapError::OutOfBounds);
                }
                if returned == MAP_FAILED || (req.exact && returned != req.addr) {
                    return Err(
                        match req.op {
                            MapOp::Reserve => MapError::ReserveFailed,
                            _ => MapError::MmapFailed,
                        },
                    );
                }
                if req.advance {
                    if req.addr != r.top {
                        return Err(MapError::OutOfRegion);
                    }
                    self.active = Some(
                        MemoryRegion { base: r.base, limit: r.limit, top: r.top + req.len },
                    );
                }
                Ok(returned)
            },
        }
    }

    /// Plans the unmapping of `[addr, addr + len)`, which must lie in the
    /// active window.
    pub fn munmap(&self, addr: usize, len: usize) -> (plan: Result<UnmapRequest, MapError>)
        ensures
            plan == match plan_range(self@, addr, len) {
                Ok(_) => Ok(UnmapRequest { addr, len }),
                Err(e) => Err(e),
            },
    {
        match self.active {
            None => Err(MapError::NoActiveRegion),
            Some(r) => {
                if !range_within(addr, len, r.base, r.limit) {
                    Err(MapError::OutOfBounds)
                } else {
                    Ok(UnmapRequest { addr, len })
                }
            },
        }
    }

    /// Plans a change of protection of `[addr, addr + len)`, which must lie
    /// in the active window.
    pub fn mprotect(&self, addr: usize, len: usize, prot: i32) -> (plan: Result<
        ProtectRequest,
        MapError,
    >)
        ensures
            plan == match plan_range(self@, addr, len) {
                Ok(_) => Ok(ProtectRequest { addr, len, prot }),
                Err(e) => Err(e),
            },
    {
        match self.active {
            None => Err(MapError::NoActiveRegion),
            Some(r) => {
                if !range_within(addr, len, r.base, r.limit) {
                    Err(MapError::OutOfBounds)
                } else {
                    Ok(ProtectRequest { addr, len, prot })
                }
            },
        }
    }

    /// Judges the status that `munmap` returned: zero is success.
    pub fn unmapped(status: i32) -> (result: Result<(), MapError>)
        ensures
            result == if status == 0 {
                Ok::<(), MapError>(())
            } else {
                Err(MapError::MunmapFailed)
            },
    {
        if status != 0 {
            Err(MapError::MunmapFailed)
        } else {
            Ok(())
        }
    }

    /// Judges the status that `mprotect` returned: zero is success.
    pub fn protected(status: i32) -> (result: Result<(), MapError>)
        ensures
            result == if status == 0 {
                Ok::<(), MapError>(())
            } else {
                Err(MapError::MprotectFailed)
            },
    {
        if status != 0 {
            Err(MapError::MprotectFailed)
        } else {
            Ok(())
        }
    }
}

/// Makes `bounds` the active window of the adapter, with nothing handed out
/// yet, or leaves the adapter without a window.
pub fn set_active_region(mmap: &mut RegionMmap, bounds: Option<ProcessBounds>)
    ensures
        *final(mmap) == RegionMmap::spec_with(bounds),
        final(mmap)@ == match bounds {
            Some(b) => Some(MemoryRegion::fresh(b)),
            None => None,
        },
        final(mmap).wf(),
{
    if let Some(b) = bounds {
        mmap.active = Some(MemoryRegion { base: b.base, limit: b.limit, top: b.base });
    } else {
        mmap.active = None;
    }
}

/// All that one thread keeps for the loader: the mapping adapter with its
/// active window, and what the thread knows of the guest it serves.
pub struct ThreadContext {
    pub mmap: RegionMmap,
    pub state: ThreadState,
}

impl ThreadContext {
    /// The context on entry to a load into `bounds`: the window is active
    /// with nothing handed out, and its bounds are known to the thread.
    pub open spec fn entered(self, bounds: ProcessBounds) -> ThreadContext {
        ThreadContext {
            mmap: RegionMmap::spec_with(Some(bounds)),
            state: ThreadState { heap: self.state.heap, bounds: Some(bounds) },
        }
    }

    /// The context after a load: no window is active and no bounds are known.
    pub open spec fn left(self) -> ThreadContext {
        ThreadContext {
            mmap: RegionMmap::spec_with(None),
            state: ThreadState { heap: self.state.heap, bounds: None },
        }
    }

    /// A context with no active window, no heap and no bounds.
    pub fn new() -> (ctx: Self)
        ensures
            ctx.mmap@ is None,
            ctx.state == (ThreadState { heap: None, bounds: None }),
    {
        ThreadContext { mmap: RegionMmap::new(), state: ThreadState { heap: None, bounds: None } }
    }
}

/// Runs `f` with `bounds` as the active window and as the bounds known to
/// the thread, and clears both afterwards, whatever `f` left of them.
pub fn with_region_context<F, R>(ctx: ThreadContext, bounds: ProcessBounds, f: F) -> (out: (
    ThreadContext,
    R,
)) where F: FnOnce(ThreadContext) -> (ThreadContext, R)
    requires
        f.requires((ctx.entered(bounds),)),
    ensures
        exists|inner: ThreadContext|
            f.ensures((ctx.entered(bounds),), (inner, out.1)) && out.0 == inner.left(),
        out.0.mmap@ is None,
        out.0.state.bounds is None,
{
    let mut ctx = ctx;
    set_process_info(&mut ctx.state, Some(bounds));
    set_active_region(&mut ctx.mmap, Some(bounds));

    let (inner, result) = f(ctx);
    let mut ctx = inner;

    set_process_info(&mut ctx.state, None);
    set_active_region(&mut ctx.mmap, None);
    assert(ctx == inner.left());

    (ctx, result)
}

} // verus!
