use vstd::prelude::*;
use vstd::arithmetic::div_mod::lemma_small_mod;
use crate::address::{RawPtr, read_outcome, wrap32};
use crate::layout::{le_u32, PtrReadable};
use crate::pointer::{rendering_outcome, Ptr, Rendering};
use crate::process::{MemoryError, MemoryImage, ProcessRead};
use crate::rtti::{
    name_outcome, rtti_outcome, ADDRESS_SPACE_BYTES, RTTI_DESCRIPTOR_OFFSET, RTTI_LOCATOR_OFFSET,
    RTTI_NAME_OFFSET,
};

verus! {

/// An address built from `a` reports `a` back, and is null exactly when `a`
/// is zero.
pub proof fn address_round_trip(a: u32)
    ensures
        RawPtr::spec_of(a)@ == a,
        RawPtr::spec_of(a).spec_is_null() <==> a == 0,
{
    RawPtr::lemma_of_view(a);
}

/// Offsetting a typed pointer by `n` moves its address by `n` times the
/// pointee's layout size, modulo 2^32, for negative `n` too.
pub proof fn offset_is_scaled<T: PtrReadable>(a: u32, n: i32)
    ensures
        Ptr::<T>::spec_of(a).spec_offset(n)@ == wrap32(a + n * T::layout_size()),
{
    Ptr::<T>::lemma_of_view(a);
    Ptr::<T>::lemma_of_view(wrap32(a + n * T::layout_size()));
}

/// Viewing an address through a tag `T`, optionally retagging it as `U`,
/// and dropping the tag again gives back the same address.
pub proof fn cast_round_trip<T, U>(a: u32)
    ensures
        RawPtr::spec_of(a).spec_cast::<T>().spec_raw() == RawPtr::spec_of(a),
        RawPtr::spec_of(a).spec_cast::<T>().spec_cast::<U>().spec_raw() == RawPtr::spec_of(a),
{
    RawPtr::lemma_of_view(a);
    Ptr::<T>::lemma_of_view(a);
    Ptr::<U>::lemma_of_view(a);
}

/// Against a memory image, rendering a pointer with the image as the
/// connection gives the decoded pointee where the image holds it and the
/// absent marker where it does not, and never an address.
pub proof fn render_on_image<T: PtrReadable>(m: &MemoryImage, p: Ptr<T>, r: Rendering<T>)
    requires
        !p.spec_is_null(),
    ensures
        m.covers(p@, T::layout_size()) ==> (rendering_outcome(Some(m), p, r) <==> r
            == Rendering::<T>::Value(T::from_layout(m.slice_at(p@, T::layout_size())))),
        !m.covers(p@, T::layout_size()) ==> (rendering_outcome(Some(m), p, r) <==> r
            == Rendering::<T>::Absent),
{
    if m.covers(p@, T::layout_size()) {
        let b = m.slice_at(p@, T::layout_size());
        assert(m.may_yield(p@, b));
    }
}

/// `m` holds the NUL-terminated ASCII name `name` starting at `start`.
pub open spec fn holds_name(m: &MemoryImage, start: u32, name: Seq<u8>) -> bool {
    &&& name.len() < ADDRESS_SPACE_BYTES
    &&& forall|i: int| 0 <= i < name.len() ==> 0 < #[trigger] name[i] < 0x80
    &&& forall|i: int|
        0 <= i < name.len() ==> m.may_yield(wrap32(start + i), seq![#[trigger] name[i]])
    &&& m.may_yield(wrap32(start + name.len()), seq![0u8])
}

proof fn single_byte_unique(m: &MemoryImage, at: u32, c: u8, d: u8)
    requires
        m.may_yield(at, seq![c]),
        m.may_yield(at, seq![d]),
    ensures
        c == d,
{
    assert(seq![c][0] == c);
    assert(seq![d][0] == d);
}

proof fn name_read_from(m: &MemoryImage, start: u32, name: Seq<u8>, k: nat, r: Option<Seq<u8>>)
    requires
        holds_name(m, start, name),
        k <= name.len(),
    ensures
        name_outcome(m, start, name.take(k as int), r) <==> r == Some(name),
    decreases name.len() - k,
{
    let prefix = name.take(k as int);
    let at = wrap32(start + k);
    if k == name.len() {
        assert(prefix =~= name);
        assert(m.may_yield(at, seq![0u8]));
        assert forall|c: u8| m.may_yield(at, seq![c]) implies c == 0 by {
            single_byte_unique(m, at, c, 0u8);
        }
    } else {
        let c0 = name[k as int];
        assert(m.may_yield(at, seq![c0]));
        assert(prefix.push(c0) =~= name.take(k + 1 as int));
        name_read_from(m, start, name, (k + 1) as nat, r);
        assert forall|c: u8| m.may_yield(at, seq![c]) implies c == c0 by {
            single_byte_unique(m, at, c, c0);
        }
    }
}

/// On a memory image laid out as the type-name chain expects (the locator
/// word `lb` before the vftable, the descriptor word `db` inside the locator,
/// the name inside the descriptor), resolution yields exactly that name.
pub proof fn rtti_name_resolves(
    m: &MemoryImage,
    vftable: u32,
    lb: Seq<u8>,
    db: Seq<u8>,
    name: Seq<u8>,
    r: Option<Seq<u8>>,
)
    requires
        lb.len() == 4,
        db.len() == 4,
        m.may_yield(wrap32(vftable + RTTI_LOCATOR_OFFSET), lb),
        m.may_yield(wrap32(le_u32(lb) + RTTI_DESCRIPTOR_OFFSET), db),
        holds_name(m, wrap32(le_u32(db) + RTTI_NAME_OFFSET), name),
    ensures
        rtti_outcome(m, vftable, r) <==> r == Some(name),
{
    let slot = wrap32(vftable + RTTI_LOCATOR_OFFSET);
    let loc = RawPtr::spec_of(le_u32(lb));
    let desc = RawPtr::spec_of(le_u32(db));
    let loc_slot = wrap32(loc@ + RTTI_DESCRIPTOR_OFFSET);
    let start = wrap32(desc@ + RTTI_NAME_OFFSET);
    RawPtr::lemma_of_view(le_u32(lb));
    RawPtr::lemma_of_view(le_u32(db));
    word_read_unique(m, slot, lb);
    word_read_unique(m, loc_slot, db);
    assert(name.take(0) =~= Seq::<u8>::empty());
    name_read_from(m, start, name, 0, r);
    assert(read_outcome(m, slot, Ok::<RawPtr, MemoryError>(loc)));
    assert(read_outcome(m, loc_slot, Ok::<RawPtr, MemoryError>(desc)));
}

/// When the image does not hold the locator word in front of the vftable,
/// resolution gives no name.
pub proof fn rtti_locator_missing(m: &MemoryImage, vftable: u32, r: Option<Seq<u8>>)
    requires
        !m.covers(wrap32(vftable + RTTI_LOCATOR_OFFSET), 4),
    ensures
        rtti_outcome(m, vftable, r) <==> r is None,
{
    let slot = wrap32(vftable + RTTI_LOCATOR_OFFSET);
    word_read_fails(m, slot);
    assert(read_outcome(m, slot, Err::<RawPtr, MemoryError>(MemoryError::ReadFailure)));
}

/// When the locator is there but the image does not hold the descriptor word
/// inside it, resolution gives no name.
pub proof fn rtti_descriptor_missing(
    m: &MemoryImage,
    vftable: u32,
    lb: Seq<u8>,
    r: Option<Seq<u8>>,
)
    requires
        lb.len() == 4,
        m.may_yield(wrap32(vftable + RTTI_LOCATOR_OFFSET), lb),
        !m.covers(wrap32(le_u32(lb) + RTTI_DESCRIPTOR_OFFSET), 4),
    ensures
        rtti_outcome(m, vftable, r) <==> r is None,
{
    let slot = wrap32(vftable + RTTI_LOCATOR_OFFSET);
    let loc = RawPtr::spec_of(le_u32(lb));
    let loc_slot = wrap32(loc@ + RTTI_DESCRIPTOR_OFFSET);
    RawPtr::lemma_of_view(le_u32(lb));
    word_read_unique(m, slot, lb);
    word_read_fails(m, loc_slot);
    assert(read_outcome(m, slot, Ok::<RawPtr, MemoryError>(loc)));
    assert(read_outcome(m, loc_slot, Err::<RawPtr, MemoryError>(MemoryError::ReadFailure)));
}

/// When locator and descriptor are there but the first byte of the name is
/// not, resolution gives no name.
pub proof fn rtti_name_missing(
    m: &MemoryImage,
    vftable: u32,
    lb: Seq<u8>,
    db: Seq<u8>,
    r: Option<Seq<u8>>,
)
    requires
        lb.len() == 4,
        db.len() == 4,
        m.may_yield(wrap32(vftable + RTTI_LOCATOR_OFFSET), lb),
        m.may_yield(wrap32(le_u32(lb) + RTTI_DESCRIPTOR_OFFSET), db),
        !m.covers(wrap32(le_u32(db) + RTTI_NAME_OFFSET), 1),
    ensures
        rtti_outcome(m, vftable, r) <==> r is None,
{
    let slot = wrap32(vftable + RTTI_LOCATOR_OFFSET);
    let loc = RawPtr::spec_of(le_u32(lb));
    let desc = RawPtr::spec_of(le_u32(db));
    let loc_slot = wrap32(loc@ + RTTI_DESCRIPTOR_OFFSET);
    let start = wrap32(desc@ + RTTI_NAME_OFFSET);
    RawPtr::lemma_of_view(le_u32(lb));
    RawPtr::lemma_of_view(le_u32(db));
    word_read_unique(m, slot, lb);
    word_read_unique(m, loc_slot, db);
    lemma_small_mod(start as nat, 0x1_0000_0000nat);
    assert(wrap32(start + Seq::<u8>::empty().len()) == start);
    assert(read_outcome(m, slot, Ok::<RawPtr, MemoryError>(loc)));
    assert(read_outcome(m, loc_slot, Ok::<RawPtr, MemoryError>(desc)));
}

/// Reading a word where `m` holds nothing can only fail.
proof fn word_read_fails(m: &MemoryImage, at: u32)
    requires
        !m.covers(at, 4),
    ensures
        forall|x: Result<RawPtr, MemoryError>|
            #[trigger] read_outcome(m, at, x) <==> x == Err::<RawPtr, MemoryError>(
                MemoryError::ReadFailure,
            ),
{
}

/// Reading a word where `m` holds the bytes `b` can only give their value.
proof fn word_read_unique(m: &MemoryImage, at: u32, b: Seq<u8>)
    requires
        b.len() == 4,
        m.may_yield(at, b),
    ensures
        forall|x: Result<RawPtr, MemoryError>|
            #[trigger] read_outcome(m, at, x) <==> x == Ok::<RawPtr, MemoryError>(
                RawPtr::spec_of(le_u32(b)),
            ),
{
    assert forall|x: Result<RawPtr, MemoryError>|
        #[trigger] read_outcome(m, at, x) <==> x == Ok::<RawPtr, MemoryError>(
            RawPtr::spec_of(le_u32(b)),
        ) by {
        if x == Ok::<RawPtr, MemoryError>(RawPtr::spec_of(le_u32(b))) {
            assert(m.may_yield(at, b));
        }
    }
}

} // verus!
