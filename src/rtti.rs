use vstd::prelude::*;
use crate::address::{RawPtr, read_outcome, wrap32};
use crate::layout::{le_u32, decode_word, PtrReadable};
use crate::process::{MemoryError, ProcessRead};

verus! {

// The chain below follows the run-time type information layout that MSVC
// emits for 32-bit x86 targets, the complete object locator format with
// signature 0 (x64 images use signature 1, with image-relative fields, and
// need other values). vftable[-1] points at the complete object locator,
// whose fourth field points at the type descriptor, whose name starts after
// its vftable pointer and spare word. A binary built by another toolchain,
// or with another locator signature, needs these three values recalibrated.
/// Where the complete object locator pointer sits, relative to the vftable.
pub const RTTI_LOCATOR_OFFSET: i32 = -4;

/// Where the type descriptor pointer sits inside the complete object
/// locator (after signature, offset and constructor-displacement offset).
pub const RTTI_DESCRIPTOR_OFFSET: i32 = 12;

/// Where the NUL-terminated name starts inside the type descriptor.
pub const RTTI_NAME_OFFSET: i32 = 8;

/// The number of bytes in the 32-bit address space: a name and its
/// terminator cannot take more than that.
pub const ADDRESS_SPACE_BYTES: u64 = 0x1_0000_0000;

/// `b` holds ASCII characters only.
pub open spec fn is_ascii_bytes(b: Seq<u8>) -> bool {
    forall|i: int| 0 <= i < b.len() ==> #[trigger] b[i] < 0x80
}

/// The characters that the ASCII bytes `b` stand for.
pub open spec fn ascii_text(b: Seq<u8>) -> Seq<char> {
    b.map_values(|c: u8| c as char)
}

/// Relies on `String::from_utf8`: ASCII bytes are valid UTF-8, and each one
/// becomes the character of the same code.
#[verifier::external_body]
pub(crate) fn ascii_string(b: Vec<u8>) -> (r: String)
    requires
        is_ascii_bytes(b@),
    ensures
        r@ == ascii_text(b@),
{
    match String::from_utf8(b) {
        Ok(s) => s,
        Err(_) => String::new(),
    }
}

/// What reading the NUL-terminated name at `start` may end with, once the
/// bytes `prefix` have been read: the name, or `None` when a byte cannot be
/// read, is not ASCII, or no terminator comes
/// before the name would fill the whole address space.
pub open spec fn name_outcome<P: ProcessRead>(
    proc: &P,
    start: u32,
    prefix: Seq<u8>,
    r: Option<Seq<u8>>,
) -> bool
    decreases ADDRESS_SPACE_BYTES - prefix.len(),
{
    if prefix.len() >= ADDRESS_SPACE_BYTES {
        r is None
    } else {
        let at = wrap32(start + prefix.len());
        ||| (proc.may_fail(at, 1) && r is None)
        ||| exists|c: u8|
            #![trigger proc.may_yield(at, seq![c])]
            proc.may_yield(at, seq![c]) && if c == 0 {
                r == Some(prefix)
            } else if c >= 0x80 {
                r is None
            } else {
                name_outcome(proc, start, prefix.push(c), r)
            }
    }
}

/// What resolving the type name of the vftable at `vftable` may end with:
/// each of the three hops either fails, giving `None`, or leads to the next.
pub open spec fn rtti_outcome<P: ProcessRead>(proc: &P, vftable: u32, r: Option<Seq<u8>>) -> bool {
    exists|loc: Result<RawPtr, MemoryError>|
        #![trigger read_outcome(proc, wrap32(vftable + RTTI_LOCATOR_OFFSET), loc)]
        read_outcome(proc, wrap32(vftable + RTTI_LOCATOR_OFFSET), loc) && match loc {
            Err(_) => r is None,
            Ok(l) => exists|desc: Result<RawPtr, MemoryError>|
                #![trigger read_outcome(proc, wrap32(l@ + RTTI_DESCRIPTOR_OFFSET), desc)]
                read_outcome(proc, wrap32(l@ + RTTI_DESCRIPTOR_OFFSET), desc) && match desc {
                    Err(_) => r is None,
                    Ok(d) => name_outcome(proc, wrap32(d@ + RTTI_NAME_OFFSET), seq![], r),
                },
        }
}

/// Reads the NUL-terminated ASCII name at `start`, one byte per request.
fn read_name<P: ProcessRead>(proc: &P, start: u32) -> (r: Option<Vec<u8>>)
    ensures
        match r {
            Some(n) => name_outcome(proc, start, seq![], Some(n@)) && is_ascii_bytes(n@),
            None => name_outcome(proc, start, seq![], None),
        },
{
    let mut name: Vec<u8> = Vec::new();
    let mut i: u64 = 0;
    while i < ADDRESS_SPACE_BYTES
        invariant
            name@.len() == i,
            i <= ADDRESS_SPACE_BYTES,
            is_ascii_bytes(name@),
            forall|r: Option<Seq<u8>>|
                #[trigger] name_outcome(proc, start, name@, r) ==> name_outcome(
                    proc,
                    start,
                    seq![],
                    r,
                ),
        decreases ADDRESS_SPACE_BYTES - i,
    {
        let at: u32 = ((start as u64 + i) % ADDRESS_SPACE_BYTES) as u32;
        assert(at == wrap32(start + name@.len()));
        let got = proc.read_bytes(at, 1);
        match got {
            None => {
                assert(name_outcome(proc, start, name@, None));
                return None;
            },
            Some(b) => {
                let c = b[0];
                assert(b@ == seq![c]);
                if c == 0 {
                    assert(name_outcome(proc, start, name@, Some(name@)));
                    return Some(name);
                } else if c >= 0x80 {
                    assert(name_outcome(proc, start, name@, None));
                    return None;
                }
                let ghost before = name@;
                name.push(c);
                assert forall|r: Option<Seq<u8>>|
                    #[trigger] name_outcome(proc, start, name@, r) implies name_outcome(
                        proc,
                        start,
                        seq![],
                        r,
                    ) by {
                    assert(name_outcome(proc, start, before, r));
                }
                i = i + 1;
            },
        }
    }
    assert(name_outcome(proc, start, name@, None));
    None
}

/// The address of the first virtual-function-table slot of a polymorphic
/// object in the target.
#[derive(Clone, Copy, Debug, PartialEq, Eq, Structural)]
pub struct Vftable {
    pub ptr: RawPtr,
}

impl Vftable {
    /// Resolves the type name embedded by the compiler's run-time type
    /// information. A failure at any hop gives `NameUnavailable`.
    pub fn get_rtti_name<P: ProcessRead>(&self, proc: &P) -> (r: Result<String, MemoryError>)
        ensures
            match r {
                Ok(s) => exists|n: Seq<u8>|
                    rtti_outcome(proc, self.ptr@, Some(n)) && s@ == ascii_text(n),
                Err(e) => e == MemoryError::NameUnavailable && rtti_outcome(
                    proc,
                    self.ptr@,
                    None,
                ),
            },
    {
        let slot = self.ptr.offset(RTTI_LOCATOR_OFFSET);
        let loc = slot.read::<RawPtr, P>(proc);
        let locator = match loc {
            Ok(l) => l,
            Err(_) => {
                return Err(MemoryError::NameUnavailable);
            },
        };
        let desc = locator.offset(RTTI_DESCRIPTOR_OFFSET).read::<RawPtr, P>(proc);
        let descriptor = match desc {
            Ok(d) => d,
            Err(_) => {
                assert(read_outcome(proc, wrap32(self.ptr@ + RTTI_LOCATOR_OFFSET), loc));
                return Err(MemoryError::NameUnavailable);
            },
        };
        let start = descriptor.offset(RTTI_NAME_OFFSET);
        match read_name(proc, start.addr()) {
            Some(n) => {
                assert(read_outcome(proc, wrap32(self.ptr@ + RTTI_LOCATOR_OFFSET), loc));
                assert(read_outcome(proc, wrap32(locator@ + RTTI_DESCRIPTOR_OFFSET), desc));
                let ghost bytes = n@;
                let s = ascii_string(n);
                assert(rtti_outcome(proc, self.ptr@, Some(bytes)));
                Ok(s)
            },
            None => {
                assert(read_outcome(proc, wrap32(self.ptr@ + RTTI_LOCATOR_OFFSET), loc));
                assert(read_outcome(proc, wrap32(locator@ + RTTI_DESCRIPTOR_OFFSET), desc));
                Err(MemoryError::NameUnavailable)
            },
        }
    }
}

impl PtrReadable for Vftable {
    open spec fn layout_size() -> nat {
        4
    }

    open spec fn from_layout(bytes: Seq<u8>) -> Vftable {
        Vftable { ptr: RawPtr::spec_of(le_u32(bytes)) }
    }

    fn byte_size() -> (r: u32) {
        4
    }

    fn decode(bytes: &[u8]) -> (r: Vftable) {
        Vftable { ptr: RawPtr::of(decode_word(bytes)) }
    }
}

} // verus!
