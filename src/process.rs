use vstd::prelude::*;
use vstd::slice::{slice_subrange, slice_to_vec};

verus! {

/// Why a read of the target process did not produce a value.
#[derive(Clone, Copy, Debug, PartialEq, Eq, Structural)]
pub enum MemoryError {
    /// A read was attempted through a null typed pointer; nothing was requested.
    NullDereference,
    /// The collaborator could not deliver the requested byte range.
    ReadFailure,
    /// Some hop of the type-name metadata chain could not be followed.
    NameUnavailable,
}

/// The collaborator that transfers bytes out of the target process.
///
/// The target runs on its own and may change its memory between any two
/// requests, so the contract speaks of what a request may produce rather than
/// of fixed memory contents.
pub trait ProcessRead {
    /// `bytes` is an answer the collaborator may give to a request for
    /// `bytes.len()` bytes starting at `addr`. Unless an implementation says
    /// more, any bytes may come back.
    open spec fn may_yield(&self, addr: u32, bytes: Seq<u8>) -> bool {
        true
    }

    /// A request for `len` bytes starting at `addr` may be refused. Unless an
    /// implementation says more, any request may be.
    open spec fn may_fail(&self, addr: u32, len: nat) -> bool {
        true
    }

    /// Returns exactly `len` bytes starting at `addr`, or `None` when some
    /// part of the range cannot be read.
    fn read_bytes(&self, addr: u32, len: u32) -> (r: Option<Vec<u8>>)
        ensures
            match r {
                Some(b) => b@.len() == len && self.may_yield(addr, b@),
                None => self.may_fail(addr, len as nat),
            },
    ;

    /// Returns `count` elements of `element_size` bytes each, starting at
    /// `addr`, as one run of bytes.
    fn read_array(&self, addr: u32, element_size: u32, count: u32) -> (r: Option<Vec<u8>>)
        requires
            element_size as int * count as int <= u32::MAX,
        ensures
            match r {
                Some(b) => b@.len() == element_size * count && self.may_yield(addr, b@),
                None => self.may_fail(addr, (element_size * count) as nat),
            },
    ;
}

/// A fixed copy of a contiguous region of the target's memory, starting at
/// `base`. Every address outside the region is unreadable.
pub struct MemoryImage {
    base: u32,
    bytes: Vec<u8>,
}

impl MemoryImage {
    pub closed spec fn base_addr(&self) -> u32 {
        self.base
    }

    pub closed spec fn contents(&self) -> Seq<u8> {
        self.bytes@
    }

    /// The range of `len` bytes at `addr` lies inside the region.
    pub open spec fn covers(&self, addr: u32, len: nat) -> bool {
        self.base_addr() <= addr && addr - self.base_addr() + len <= self.contents().len()
    }

    /// The bytes of the region in the range of `len` bytes at `addr`.
    pub open spec fn slice_at(&self, addr: u32, len: nat) -> Seq<u8> {
        self.contents().subrange(
            addr - self.base_addr(),
            addr - self.base_addr() + len,
        )
    }

    pub fn new(base: u32, bytes: Vec<u8>) -> (r: MemoryImage)
        ensures
            r.base_addr() == base,
            r.contents() == bytes@,
    {
        MemoryImage { base, bytes }
    }

    fn copy_range(&self, addr: u32, len: u32) -> (r: Option<Vec<u8>>)
        ensures
            match r {
                Some(b) => self.covers(addr, len as nat) && b@ == self.slice_at(addr, len as nat),
                None => !self.covers(addr, len as nat),
            },
    {
        if addr < self.base {
            return None;
        }
        let start: usize = (addr - self.base) as usize;
        if start > self.bytes.len() || len as usize > self.bytes.len() - start {
            return None;
        }
        let out = slice_to_vec(slice_subrange(self.bytes.as_slice(), start, start + len as usize));
        Some(out)
    }
}

impl ProcessRead for MemoryImage {
    open spec fn may_yield(&self, addr: u32, bytes: Seq<u8>) -> bool {
        self.covers(addr, bytes.len()) && bytes == self.slice_at(addr, bytes.len())
    }

    open spec fn may_fail(&self, addr: u32, len: nat) -> bool {
        !self.covers(addr, len)
    }

    fn read_bytes(&self, addr: u32, len: u32) -> (r: Option<Vec<u8>>) {
        self.copy_range(addr, len)
    }

    fn read_array(&self, addr: u32, element_size: u32, count: u32) -> (r: Option<Vec<u8>>) {
        self.copy_range(addr, element_size * count)
    }
}

} // verus!
