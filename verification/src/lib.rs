//! Verified core of an in-process loader that hosts isolated guest processes,
//! each confined to its own window of the host's address space.
//!
//! The library decides; the program around it acts. Every operation that
//! touches the operating system is split into a request that the library
//! computes and an outcome that the caller reports back.

use vstd::prelude::*;

pub mod memory;
pub mod process;
pub mod runtime;

verus! {

/// `elf_loader::Error`, the error type of the ELF loader. Its contents are
/// not visible to the verifier: values of it are only carried through.
#[verifier::external_type_specification]
#[verifier::external_body]
pub struct ExElfError(elf_loader::Error);

/// `std::io::Error`. Its contents are not visible to the verifier: values of
/// it are only carried through.
#[verifier::external_type_specification]
#[verifier::external_body]
pub struct ExIoError(std::io::Error);

/// Why a guest could not be loaded or started.
#[derive(Debug)]
pub enum LoaderError {
    /// The ELF loader rejected the image; its own error is kept as it came.
    Elf(elf_loader::Error),
    /// Reading the image failed.
    Io(std::io::Error),
    /// A placement would have crossed the end of the guest's window.
    OutOfRegion(String),
    /// The operating system refused a mapping, or no window was active.
    Mmap(String),
    /// A symbol that the guest must export was not found.
    Symbol(String),
    /// The guest's thread could not be created.
    ThreadCreate(String),
}

impl From<elf_loader::Error> for LoaderError {
    fn from(e: elf_loader::Error) -> (r: Self) {
        LoaderError::Elf(e)
    }
}

impl vstd::std_specs::convert::FromSpecImpl<elf_loader::Error> for LoaderError {
    open spec fn obeys_from_spec() -> bool {
        true
    }

    open spec fn from_spec(e: elf_loader::Error) -> Self {
        LoaderError::Elf(e)
    }
}

impl From<std::io::Error> for LoaderError {
    fn from(e: std::io::Error) -> (r: Self) {
        LoaderError::Io(e)
    }
}

impl vstd::std_specs::convert::FromSpecImpl<std::io::Error> for LoaderError {
    open spec fn obeys_from_spec() -> bool {
        true
    }

    open spec fn from_spec(e: std::io::Error) -> Self {
        LoaderError::Io(e)
    }
}

} // verus!
