use vstd::prelude::*;
use vstd::slice::slice_subrange;
use vstd::arithmetic::div_mod::{
    lemma_mod_add_multiples_vanish, lemma_mod_sub_multiples_vanish, lemma_small_mod,
};
use crate::layout::{le_u32, decode_word, PtrReadable};
use crate::rtti::{ascii_string, ascii_text};
use crate::pointer::Ptr;
use crate::process::{MemoryError, ProcessRead};

verus! {

/// `x` reduced into the 32-bit address space.
pub open spec fn wrap32(x: int) -> u32 {
    (x % 0x1_0000_0000) as u32
}

/// What a read of a `T` at `addr` may end with: a value decoded from bytes
/// the collaborator may hand back, or a read failure the collaborator may
/// report.
pub open spec fn read_outcome<T: PtrReadable, P: ProcessRead>(
    proc: &P,
    addr: u32,
    r: Result<T, MemoryError>,
) -> bool {
    match r {
        Ok(v) => exists|b: Seq<u8>|
            #![trigger proc.may_yield(addr, b)]
            b.len() == T::layout_size() && proc.may_yield(addr, b) && v == T::from_layout(b),
        Err(e) => e == MemoryError::ReadFailure && proc.may_fail(addr, T::layout_size()),
    }
}

/// The `n` values of a `T` laid out one after another in `b`.
pub open spec fn decode_run<T: PtrReadable>(b: Seq<u8>, n: nat) -> Seq<T> {
    Seq::new(
        n,
        |i: int| T::from_layout(b.subrange(i * T::layout_size(), (i + 1) * T::layout_size())),
    )
}

/// What a read of `n` values of `T` at `addr` may end with.
pub open spec fn read_run_outcome<T: PtrReadable, P: ProcessRead>(
    proc: &P,
    addr: u32,
    n: nat,
    r: Result<Vec<T>, MemoryError>,
) -> bool {
    match r {
        Ok(v) => exists|b: Seq<u8>|
            #![trigger proc.may_yield(addr, b)]
            b.len() == n * T::layout_size() && proc.may_yield(addr, b) && v@ == decode_run::<T>(
                b,
                n,
            ),
        Err(e) => e == MemoryError::ReadFailure && proc.may_fail(addr, n * T::layout_size()),
    }
}

/// An untyped 32-bit address in the target process. Zero is null.
#[derive(Clone, Copy, Debug, PartialEq, Eq, Structural)]
pub struct RawPtr(u32);

impl View for RawPtr {
    type V = u32;

    open spec fn view(&self) -> u32 {
        self.spec_addr()
    }
}

impl RawPtr {
    pub closed spec fn spec_addr(self) -> u32 {
        self.0
    }

    pub closed spec fn spec_of(addr: u32) -> RawPtr {
        RawPtr(addr)
    }

    pub open spec fn spec_is_null(self) -> bool {
        self@ == 0
    }

    /// The same address viewed as pointing to a `T`.
    pub open spec fn spec_cast<T>(self) -> Ptr<T> {
        Ptr::<T>::spec_of(self@)
    }

    pub open spec fn spec_offset(self, delta: i32) -> RawPtr {
        RawPtr::spec_of(wrap32(self@ + delta))
    }

    pub proof fn lemma_of_view(addr: u32)
        ensures
            #[trigger] RawPtr::spec_of(addr)@ == addr,
    {
    }

    pub proof fn lemma_view_eq(a: RawPtr, b: RawPtr)
        ensures
            a@ == b@ <==> a == b,
    {
    }

    pub fn of(addr: u32) -> (r: RawPtr)
        ensures
            r == RawPtr::spec_of(addr),
            r@ == addr,
    {
        RawPtr(addr)
    }

    /// Reinterprets the same address as pointing to a `T`.
    pub fn cast<T>(self) -> (r: Ptr<T>)
        ensures
            r == self.spec_cast::<T>(),
            r@ == self@,
    {
        Ptr::of(self.0)
    }

    pub fn addr(self) -> (r: u32)
        ensures
            r == self@,
    {
        self.0
    }

    pub fn is_null(self) -> (r: bool)
        ensures
            r == self.spec_is_null(),
    {
        self.0 == 0
    }

    /// The address `delta` bytes away, wrapping around the address space.
    pub fn offset(self, delta: i32) -> (r: RawPtr)
        ensures
            r == self.spec_offset(delta),
            r@ == wrap32(self@ + delta),
    {
        let a = self.0.wrapping_add_signed(delta);
        proof {
            let m: int = 0x1_0000_0000;
            let s: int = self@ + delta;
            if s > u32::MAX {
                lemma_mod_sub_multiples_vanish(s, m);
                lemma_small_mod((s - m) as nat, m as nat);
            } else if s < 0 {
                lemma_mod_add_multiples_vanish(s, m);
                lemma_small_mod((s + m) as nat, m as nat);
            } else {
                lemma_small_mod(s as nat, m as nat);
            }
        }
        RawPtr::of(a)
    }

    /// Reads one `T` at this address with a single request of
    /// `T::layout_size()` bytes.
    pub fn read<T: PtrReadable, P: ProcessRead>(self, proc: &P) -> (r: Result<T, MemoryError>)
        ensures
            read_outcome(proc, self@, r),
    {
        let size = T::byte_size();
        match proc.read_bytes(self.0, size) {
            Some(b) => Ok(T::decode(b.as_slice())),
            None => Err(MemoryError::ReadFailure),
        }
    }

    /// Reads `len` consecutive values of `T` starting at this address with a
    /// single array request. A run longer than the 32-bit address space can
    /// describe fails with `ReadFailure` and requests nothing.
    pub fn read_multiple<T: PtrReadable, P: ProcessRead>(self, proc: &P, len: u32) -> (r: Result<
        Vec<T>,
        MemoryError,
    >)
        ensures
            T::layout_size() * len > u32::MAX ==> r == Err::<Vec<T>, MemoryError>(
                MemoryError::ReadFailure,
            ),
            T::layout_size() * len <= u32::MAX ==> read_run_outcome(proc, self@, len as nat, r),
    {
        let size = T::byte_size();
        proof {
            assert(size as int * len as int <= 0xffff_ffff * 0xffff_ffff) by (nonlinear_arith)
                requires
                    size <= 0xffff_ffff,
                    len <= 0xffff_ffff,
            ;
        }
        if size as u64 * len as u64 > u32::MAX as u64 {
            return Err(MemoryError::ReadFailure);
        }
        let bytes = match proc.read_array(self.0, size, len) {
            Some(b) => b,
            None => {
                assert(len as nat * T::layout_size() == (size * len) as nat) by (nonlinear_arith)
                    requires
                        size as nat == T::layout_size(),
                        size as int * len as int <= u32::MAX,
                ;
                return Err(MemoryError::ReadFailure);
            },
        };
        let ghost s = size as int;
        let ghost n = len as int;
        let mut out: Vec<T> = Vec::new();
        let mut i: u32 = 0;
        let mut start: usize = 0;
        while i < len
            invariant
                s == T::layout_size(),
                s * n <= u32::MAX,
                bytes@.len() == s * n,
                size as int == s,
                proc.may_yield(self@, bytes@),
                n == len,
                i <= len,
                start == i * s,
                out@ =~= decode_run::<T>(bytes@, i as nat),
            decreases len - i,
        {
            proof {
                assert((i + 1) * s == i * s + s) by (nonlinear_arith);
                assert((i + 1) * s <= s * n) by (nonlinear_arith)
                    requires
                        i < n,
                        s >= 0,
                ;
            }
            let v = T::decode(slice_subrange(bytes.as_slice(), start, start + size as usize));
            out.push(v);
            i = i + 1;
            start = start + size as usize;
        }
        proof {
            assert(proc.may_yield(self@, bytes@));
            assert(bytes@.len() == len as nat * T::layout_size()) by (nonlinear_arith)
                requires
                    bytes@.len() == s * n,
                    s == T::layout_size(),
                    n == len,
            ;
        }
        Ok(out)
    }
}

/// The lower-case hexadecimal digit for `v`, which is below 16.
pub open spec fn hex_digit(v: u32) -> u8 {
    if v < 10 {
        (0x30 + v) as u8
    } else {
        (0x61 + v - 10) as u8
    }
}

/// The `i`-th of the eight hexadecimal digits of `a`, most significant first.
pub open spec fn nibble(a: u32, i: int) -> u32 {
    (a >> ((28 - 4 * i) as u32)) & 0xf
}

/// The text shown for an address: `NULL`, or `0x` and eight lower-case
/// hexadecimal digits.
pub open spec fn address_text(a: u32) -> Seq<u8> {
    if a == 0 {
        seq![0x4eu8, 0x55u8, 0x4cu8, 0x4cu8]
    } else {
        seq![0x30u8, 0x78u8] + Seq::new(8, |i: int| hex_digit(nibble(a, i)))
    }
}

impl RawPtr {
    /// The diagnostic text of the address.
    pub fn describe(self) -> (r: String)
        ensures
            r@ == ascii_text(address_text(self@)),
    {
        let mut out: Vec<u8> = Vec::new();
        if self.0 == 0 {
            out.push(0x4e);
            out.push(0x55);
            out.push(0x4c);
            out.push(0x4c);
            assert(out@ =~= address_text(self@));
        } else {
            out.push(0x30);
            out.push(0x78);
            let mut i: u32 = 0;
            while i < 8
                invariant
                    i <= 8,
                    self@ != 0,
                    out@ =~= seq![0x30u8, 0x78u8] + Seq::new(i as nat, |k: int| hex_digit(nibble(self@, k))),
                decreases 8 - i,
            {
                let a: u32 = self.0;
                let sh: u32 = 28 - 4 * i;
                let v: u32 = (a >> sh) & 0xf;
                assert(v < 16) by (bit_vector)
                    requires
                        v == (a >> sh) & 0xf,
                ;
                let d: u8 = if v < 10 {
                    (0x30 + v) as u8
                } else {
                    (0x61 + v - 10) as u8
                };
                out.push(d);
                i = i + 1;
            }
            assert(out@ =~= address_text(self@));
        }
        proof {
            assert forall|k: int| 0 <= k < out@.len() implies #[trigger] out@[k] < 0x80 by {
                if self@ != 0 && k >= 2 {
                    let a: u32 = self@;
                    let sh: u32 = (28 - 4 * (k - 2)) as u32;
                    assert((a >> sh) & 0xf < 16) by (bit_vector);
                }
            }
        }
        ascii_string(out)
    }
}

impl From<u32> for RawPtr {
    fn from(addr: u32) -> RawPtr {
        RawPtr::of(addr)
    }
}

impl vstd::std_specs::convert::FromSpecImpl<u32> for RawPtr {
    open spec fn obeys_from_spec() -> bool {
        true
    }

    open spec fn from_spec(v: u32) -> RawPtr {
        RawPtr::spec_of(v)
    }
}

impl PtrReadable for RawPtr {
    open spec fn layout_size() -> nat {
        4
    }

    open spec fn from_layout(bytes: Seq<u8>) -> RawPtr {
        RawPtr::spec_of(le_u32(bytes))
    }

    fn byte_size() -> (r: u32) {
        4
    }

    fn decode(bytes: &[u8]) -> (r: RawPtr) {
        RawPtr::of(decode_word(bytes))
    }
}

} // verus!
