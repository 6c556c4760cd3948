use vstd::prelude::*;
use vstd::arithmetic::div_mod::{
    lemma_add_mod_noop_right, lemma_mod_add_multiples_vanish, lemma_mod_sub_multiples_vanish,
    lemma_small_mod, lemma_sub_mod_noop_right,
};
use core::marker::PhantomData;
use crate::address::{RawPtr, read_outcome, wrap32};
use crate::layout::{le_u32, decode_word, PtrReadable};
use crate::process::{MemoryError, ProcessRead};

verus! {

/// An address tagged with the layout `T` expected there. The tag carries no
/// bytes.
pub struct Ptr<T> {
    raw: RawPtr,
    _phantom: PhantomData<T>,
}

impl<T> View for Ptr<T> {
    type V = u32;

    open spec fn view(&self) -> u32 {
        self.spec_raw()@
    }
}

impl<T> Ptr<T> {
    pub closed spec fn spec_raw(self) -> RawPtr {
        self.raw
    }

    pub closed spec fn spec_of(addr: u32) -> Ptr<T> {
        Ptr { raw: RawPtr::spec_of(addr), _phantom: PhantomData }
    }

    pub open spec fn spec_is_null(self) -> bool {
        self@ == 0
    }

    /// The same address viewed through another tag.
    pub open spec fn spec_cast<U>(self) -> Ptr<U> {
        Ptr::<U>::spec_of(self@)
    }

    pub proof fn lemma_of_view(addr: u32)
        ensures
            #[trigger] Ptr::<T>::spec_of(addr)@ == addr,
            Ptr::<T>::spec_of(addr).spec_raw() == RawPtr::spec_of(addr),
    {
        RawPtr::lemma_of_view(addr);
    }

    /// Two pointers with one tag are the same value exactly when their
    /// addresses agree.
    pub proof fn lemma_view_eq(a: Ptr<T>, b: Ptr<T>)
        ensures
            a@ == b@ <==> a == b,
    {
        if a@ == b@ {
            RawPtr::lemma_view_eq(a.raw, b.raw);
        }
    }

    pub fn of(addr: u32) -> (r: Ptr<T>)
        ensures
            r == Ptr::<T>::spec_of(addr),
            r@ == addr,
    {
        Ptr { raw: RawPtr::of(addr), _phantom: PhantomData }
    }

    pub fn addr(self) -> (r: u32)
        ensures
            r == self@,
    {
        self.raw.addr()
    }

    pub fn is_null(&self) -> (r: bool)
        ensures
            r == self.spec_is_null(),
    {
        self.raw.is_null()
    }

    /// The untyped view of the same address.
    pub fn raw(self) -> (r: RawPtr)
        ensures
            r == self.spec_raw(),
            r@ == self@,
    {
        self.raw
    }
}

impl<T: PtrReadable> Ptr<T> {
    /// The pointer `n` elements of `T` away, wrapping around the address
    /// space.
    pub open spec fn spec_offset(self, n: i32) -> Ptr<T> {
        Ptr::<T>::spec_of(wrap32(self@ + n * T::layout_size()))
    }

    pub fn offset(self, n: i32) -> (r: Ptr<T>)
        ensures
            r == self.spec_offset(n),
            r@ == wrap32(self@ + n * T::layout_size()),
    {
        let size = T::byte_size();
        let steps: u64 = if n < 0 {
            (-(n as i64)) as u64
        } else {
            n as u64
        };
        proof {
            assert(steps as int * size as int <= 0x8000_0000 * 0xffff_ffff) by (nonlinear_arith)
                requires
                    steps <= 0x8000_0000,
                    size <= 0xffff_ffff,
            ;
        }
        let span: u64 = steps * size as u64;
        let delta: u32 = (span % 0x1_0000_0000) as u32;
        let a = if n < 0 {
            self.addr().wrapping_sub(delta)
        } else {
            self.addr().wrapping_add(delta)
        };
        proof {
            let m: int = 0x1_0000_0000;
            let x: int = self@ as int;
            if n < 0 {
                assert(n * T::layout_size() == -(span as int)) by (nonlinear_arith)
                    requires
                        steps == -n,
                        span == steps * size,
                        size == T::layout_size(),
                ;
                lemma_sub_mod_noop_right(x, span as int, m);
                let s: int = x - delta;
                if s < 0 {
                    lemma_small_mod((s + m) as nat, m as nat);
                    lemma_mod_add_multiples_vanish(s, m);
                } else {
                    lemma_small_mod(s as nat, m as nat);
                }
            } else {
                assert(n * T::layout_size() == span as int) by (nonlinear_arith)
                    requires
                        steps == n,
                        span == steps * size,
                        size == T::layout_size(),
                ;
                lemma_add_mod_noop_right(x, span as int, m);
                let s: int = x + delta;
                if s > u32::MAX {
                    lemma_small_mod((s - m) as nat, m as nat);
                    lemma_mod_sub_multiples_vanish(s, m);
                } else {
                    lemma_small_mod(s as nat, m as nat);
                }
            }
        }
        Ptr::of(a)
    }

    /// Reads the pointee. A null pointer fails with `NullDereference`
    /// without any request to the collaborator.
    pub fn read<P: ProcessRead>(&self, proc: &P) -> (r: Result<T, MemoryError>)
        ensures
            self.spec_is_null() ==> r == Err::<T, MemoryError>(MemoryError::NullDereference),
            !self.spec_is_null() ==> read_outcome(proc, self@, r),
    {
        if self.is_null() {
            Err(MemoryError::NullDereference)
        } else {
            self.raw.read(proc)
        }
    }

    /// The diagnostic rendering of this pointer. Without a connection it is
    /// the bare address. With one, a null pointer is absent and nothing is
    /// read; otherwise the pointee is read once, and a failed read is absent
    /// rather than an error.
    pub fn render<P: ProcessRead>(&self, connection: Option<&P>) -> (r: Rendering<T>)
        ensures
            rendering_outcome(connection, *self, r),
    {
        match connection {
            None => Rendering::Address(self.addr()),
            Some(proc) => {
                if self.is_null() {
                    Rendering::Absent
                } else {
                    match self.raw.read(proc) {
                        Ok(v) => Rendering::Value(v),
                        Err(_) => Rendering::Absent,
                    }
                }
            },
        }
    }
}

/// How a pointer is shown in a diagnostic dump.
pub enum Rendering<T> {
    /// The numeric address, shown when no connection is at hand.
    Address(u32),
    /// The pointer is null or its pointee could not be read.
    Absent,
    /// The decoded pointee, to be shown in its own right.
    Value(T),
}

/// What rendering `p` may produce given `connection`.
pub open spec fn rendering_outcome<T: PtrReadable, P: ProcessRead>(
    connection: Option<&P>,
    p: Ptr<T>,
    r: Rendering<T>,
) -> bool {
    match connection {
        None => r == Rendering::<T>::Address(p@),
        Some(proc) => if p.spec_is_null() {
            r == Rendering::<T>::Absent
        } else {
            match r {
                Rendering::Value(v) => read_outcome(proc, p@, Ok::<T, MemoryError>(v)),
                Rendering::Absent => proc.may_fail(p@, T::layout_size()),
                Rendering::Address(_) => false,
            }
        },
    }
}

impl<T> Clone for Ptr<T> {
    fn clone(&self) -> (r: Self)
        ensures
            r == *self,
    {
        *self
    }
}

impl<T> Copy for Ptr<T> {
}

impl<T> PartialEq for Ptr<T> {
    fn eq(&self, other: &Ptr<T>) -> (r: bool) {
        self.raw.addr() == other.raw.addr()
    }
}

impl<T> vstd::std_specs::cmp::PartialEqSpecImpl for Ptr<T> {
    open spec fn obeys_eq_spec() -> bool {
        true
    }

    open spec fn eq_spec(&self, other: &Ptr<T>) -> bool {
        self@ == other@
    }
}

impl<T> Eq for Ptr<T> {
}

impl<T> From<u32> for Ptr<T> {
    fn from(addr: u32) -> Ptr<T> {
        Ptr::of(addr)
    }
}

impl<T> vstd::std_specs::convert::FromSpecImpl<u32> for Ptr<T> {
    open spec fn obeys_from_spec() -> bool {
        true
    }

    open spec fn from_spec(v: u32) -> Ptr<T> {
        Ptr::<T>::spec_of(v)
    }
}

/// A pointer is itself decodable: four bytes holding its address.
impl<T> PtrReadable for Ptr<T> {
    open spec fn layout_size() -> nat {
        4
    }

    open spec fn from_layout(bytes: Seq<u8>) -> Ptr<T> {
        Ptr::<T>::spec_of(le_u32(bytes))
    }

    fn byte_size() -> (r: u32) {
        4
    }

    fn decode(bytes: &[u8]) -> (r: Ptr<T>) {
        Ptr::of(decode_word(bytes))
    }
}

} // verus!
