//! Executable memory: a private, anonymous mapping that holds a copy of
//! assembled bytes and can be run from.

use vstd::prelude::*;

verus! {

/// A writable anonymous mapping of `memmap2`. Its fields are not looked
/// into.
#[verifier::external_type_specification]
#[verifier::external_body]
pub struct ExMmapMut(memmap2::MmapMut);

/// An executable mapping of `memmap2`. The mapping is held out of the
/// verifier's sight.
#[verifier::external_body]
pub struct Sealed {
    region: memmap2::Mmap,
}

/// The error of a system call, as `std` reports it. Its fields are not
/// looked into.
#[verifier::external_type_specification]
#[verifier::external_body]
pub struct ExIoError(std::io::Error);

/// The bytes that a writable mapping holds.
pub uninterp spec fn writable_bytes(region: memmap2::MmapMut) -> Seq<u8>;

/// The bytes that an executable mapping holds.
pub uninterp spec fn sealed_bytes(region: Sealed) -> Seq<u8>;

/// `memmap2::MmapMut::map_anon`: asks the system for a private anonymous
/// mapping that can be read and written. Where the system grants it, the
/// mapping holds `len` bytes; nothing is claimed of whether it does.
#[verifier::external_body]
fn map_anon(len: usize) -> (outcome: Result<memmap2::MmapMut, std::io::Error>)
    ensures
        outcome matches Ok(region) ==> writable_bytes(region).len() == len,
{
    memmap2::MmapMut::map_anon(len)
}

/// `len` on the bytes of a `memmap2::MmapMut`: how many bytes the mapping
/// holds.
#[verifier::external_body]
fn writable_len(region: &memmap2::MmapMut) -> (len: usize)
    ensures
        len == writable_bytes(*region).len(),
{
    region.len()
}

/// `copy_from_slice` on the bytes of a `memmap2::MmapMut`: overwrites the
/// mapping with `bytes`. The two must be of one length, or the call
/// panics.
#[verifier::external_body]
fn fill(region: &mut memmap2::MmapMut, bytes: &[u8])
    requires
        writable_bytes(*old(region)).len() == bytes@.len(),
    ensures
        writable_bytes(*final(region)) == bytes@,
{
    region.copy_from_slice(bytes)
}

/// `memmap2::MmapMut::make_exec`: asks the system to make the mapping
/// readable and executable. Where the system grants it, the mapping that
/// comes back holds the bytes that went in; nothing is claimed of whether
/// it does.
#[verifier::external_body]
fn make_exec(region: memmap2::MmapMut) -> (outcome: Result<Sealed, std::io::Error>)
    ensures
        outcome matches Ok(sealed) ==> sealed_bytes(sealed) == writable_bytes(region),
{
    match region.make_exec() {
        Ok(region) => Ok(Sealed { region }),
        Err(error) => Err(error),
    }
}

/// `as_ptr` on the bytes of a `memmap2::Mmap`: the address of its first
/// byte. Nothing is claimed of the address.
#[verifier::external_body]
fn base_address(sealed: &Sealed) -> usize {
    sealed.region.as_ptr() as usize
}

/// The bytes of a `memmap2::Mmap`, borrowed.
#[verifier::external_body]
fn borrow_bytes(sealed: &Sealed) -> (bytes: &[u8])
    ensures
        bytes@ == sealed_bytes(*sealed),
{
    &sealed.region
}

/// Why no executable memory could be had.
#[non_exhaustive]
#[derive(Clone, Copy, Debug, PartialEq, Eq, Structural)]
pub enum MmapError {
    /// The system refused the mapping.
    Failed,
}

/// What an operation on executable memory returns.
pub type MmapResult<T> = Result<T, MmapError>;

impl MmapError {
    /// The error in words.
    pub fn to_string(&self) -> (message: String)
        ensures
            message@ == "Failed to create mmap"@,
    {
        match self {
            MmapError::Failed => String::from_str("Failed to create mmap"),
        }
    }
}

/// Executable memory that holds a copy of the bytes it was made from. The
/// memory is returned to the system when the value is dropped.
pub struct Mmap {
    region: Sealed,
    address: usize,
}

impl Mmap {
    /// The bytes in the memory.
    pub closed spec fn view(&self) -> Seq<u8> {
        sealed_bytes(self.region)
    }

    /// The address of the first byte, as the mapping gave it when the
    /// memory was made.
    pub closed spec fn address(&self) -> usize {
        self.address
    }

    /// Copies `mem` into fresh executable memory. An empty `mem` is
    /// refused, as the system refuses a mapping without bytes; otherwise
    /// the system decides, and where it grants the memory the memory holds
    /// `mem`.
    pub fn exec(mem: &[u8]) -> (result: MmapResult<Mmap>)
        ensures
            mem@.len() == 0 ==> result == Err::<Mmap, MmapError>(MmapError::Failed),
            result matches Ok(map) ==> map@ == mem@,
            result matches Err(error) ==> error == MmapError::Failed,
    {
        if mem.len() == 0 {
            return Err(MmapError::Failed);
        }
        match Self::written(map_anon(mem.len()), mem) {
            Ok(region) => Self::sealed(make_exec(region)),
            Err(error) => Err(error),
        }
    }

    /// What follows the system's answer to the request for memory: a
    /// refusal is `Failed`, and so is a grant of another length than that
    /// of `mem`; a grant of that length is filled with `mem`.
    pub fn written(outcome: Result<memmap2::MmapMut, std::io::Error>, mem: &[u8]) -> (result:
        MmapResult<memmap2::MmapMut>)
        ensures
            result is Ok <==> (outcome matches Ok(granted) && writable_bytes(granted).len()
                == mem@.len()),
            result matches Ok(region) ==> writable_bytes(region) == mem@,
            result matches Err(error) ==> error == MmapError::Failed,
    {
        match outcome {
            Ok(granted) => {
                let mut region = granted;
                if writable_len(&region) != mem.len() {
                    return Err(MmapError::Failed);
                }
                fill(&mut region, mem);
                Ok(region)
            },
            Err(_) => Err(MmapError::Failed),
        }
    }

    /// What follows the system's answer to the request to make the memory
    /// executable: a refusal is `Failed`, a grant is the memory with the
    /// bytes it held.
    pub fn sealed(outcome: Result<Sealed, std::io::Error>) -> (result: MmapResult<Mmap>)
        ensures
            outcome is Err <==> result == Err::<Mmap, MmapError>(MmapError::Failed),
            outcome matches Ok(region) ==> result is Ok && result->Ok_0@ == sealed_bytes(region),
    {
        match outcome {
            Ok(region) => {
                let address = base_address(&region);
                Ok(Self::at(region, address))
            },
            Err(_) => Err(MmapError::Failed),
        }
    }

    /// The handle of executable memory whose first byte the system put at
    /// `address`.
    pub fn at(region: Sealed, address: usize) -> (handle: Mmap)
        ensures
            handle.address() == address,
            handle@ == sealed_bytes(region),
    {
        Mmap { region, address }
    }

    /// The address of the first byte. It is the same for as long as the
    /// value lives.
    pub fn as_ptr(&self) -> (address: usize)
        ensures
            address == self.address(),
    {
        self.address
    }

    /// The bytes in the memory.
    pub fn as_ref(&self) -> (bytes: &[u8])
        ensures
            bytes@ == self@,
    {
        borrow_bytes(&self.region)
    }
}

} // verus!
