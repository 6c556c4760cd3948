use std::cell::RefCell;

use noita_engine_reader::{
    MemoryError, MemoryImage, ProcessRead, Ptr, PtrReadable, RawPtr, Rendering, Vftable,
};

/// Passes requests through to an image and records each one.
struct Recording {
    image: MemoryImage,
    bytes_calls: RefCell<Vec<(u32, u32)>>,
    array_calls: RefCell<Vec<(u32, u32, u32)>>,
}

impl Recording {
    fn new(image: MemoryImage) -> Recording {
        Recording {
            image,
            bytes_calls: RefCell::new(Vec::new()),
            array_calls: RefCell::new(Vec::new()),
        }
    }
}

impl ProcessRead for Recording {
    fn read_bytes(&self, addr: u32, len: u32) -> Option<Vec<u8>> {
        self.bytes_calls.borrow_mut().push((addr, len));
        self.image.read_bytes(addr, len)
    }

    fn read_array(&self, addr: u32, element_size: u32, count: u32) -> Option<Vec<u8>> {
        self.array_calls.borrow_mut().push((addr, element_size, count));
        self.image.read_array(addr, element_size, count)
    }
}

/// A collaborator that must never be asked.
struct Untouchable;

impl ProcessRead for Untouchable {
    fn read_bytes(&self, _addr: u32, _len: u32) -> Option<Vec<u8>> {
        panic!("no read expected")
    }

    fn read_array(&self, _addr: u32, _element_size: u32, _count: u32) -> Option<Vec<u8>> {
        panic!("no read expected")
    }
}

fn put_word(mem: &mut Vec<u8>, at: usize, w: u32) {
    mem[at..at + 4].copy_from_slice(&w.to_le_bytes());
}

#[test]
fn null_address_is_null() {
    let p = RawPtr::of(0x0000_0000);
    assert!(p.is_null());
    assert_eq!(p.addr(), 0);
    assert!(Ptr::<u32>::of(0).is_null());
}

#[test]
fn address_round_trips() {
    for a in [1u32, 0x0040_1000, 0x7fff_ffff, 0xffff_ffff] {
        let p = RawPtr::of(a);
        assert_eq!(p.addr(), a);
        assert!(!p.is_null());
    }
}

#[test]
fn typed_offset_scales_by_element_size() {
    let p = Ptr::<u32>::of(0x0040_1000);
    assert_eq!(p.offset(4).addr(), 0x0040_1010);
    assert_eq!(p.offset(-1).addr(), 0x0040_0ffc);
    assert_eq!(p.offset(0).addr(), 0x0040_1000);
    let b = Ptr::<u8>::of(0x0040_1000);
    assert_eq!(b.offset(4).addr(), 0x0040_1004);
}

#[test]
fn typed_offset_wraps() {
    assert_eq!(Ptr::<u32>::of(0).offset(-1).addr(), 0xffff_fffc);
    assert_eq!(Ptr::<u32>::of(0xffff_fffc).offset(2).addr(), 0x0000_0004);
    assert_eq!(Ptr::<u32>::of(0x10).offset(i32::MIN).addr(), 0x10);
}

#[test]
fn raw_offset_is_in_bytes_and_wraps() {
    assert_eq!(RawPtr::of(0x1000).offset(-4).addr(), 0x0ffc);
    assert_eq!(RawPtr::of(0x1000).offset(12).addr(), 0x100c);
    assert_eq!(RawPtr::of(2).offset(-4).addr(), 0xffff_fffe);
    assert_eq!(RawPtr::of(0xffff_ffff).offset(1).addr(), 0);
}

#[test]
fn cast_keeps_the_address() {
    let a = 0x0040_2000;
    let p: Ptr<u32> = RawPtr::of(a).cast::<u32>();
    assert_eq!(p.addr(), a);
    assert_eq!(p.raw(), RawPtr::of(a));
    let q: Ptr<u8> = p.raw().cast::<u8>();
    assert_eq!(q.raw().addr(), a);
}

#[test]
fn pointer_equality_follows_address() {
    assert!(Ptr::<u32>::of(5) == Ptr::<u32>::of(5));
    assert!(Ptr::<u32>::of(5) != Ptr::<u32>::of(6));
    let p = Ptr::<u32>::of(7);
    let q = p.clone();
    assert!(p == q);
}

#[test]
fn null_read_never_asks() {
    let r = Ptr::<u32>::of(0).read(&Untouchable);
    assert_eq!(r, Err(MemoryError::NullDereference));
}

#[test]
fn read_decodes_little_endian() {
    let image = MemoryImage::new(0x1000, vec![0x78, 0x56, 0x34, 0x12, 0xff]);
    let rec = Recording::new(image);
    assert_eq!(Ptr::<u32>::of(0x1000).read(&rec), Ok(0x1234_5678));
    assert_eq!(rec.bytes_calls.borrow().as_slice(), &[(0x1000, 4)]);
    assert_eq!(RawPtr::of(0x1004).read::<u8, _>(&rec), Ok(0xff));
}

#[test]
fn read_out_of_range_fails() {
    let image = MemoryImage::new(0x1000, vec![1, 2, 3, 4]);
    assert_eq!(RawPtr::of(0x1001).read::<u32, _>(&image), Err(MemoryError::ReadFailure));
    assert_eq!(RawPtr::of(0x0fff).read::<u8, _>(&image), Err(MemoryError::ReadFailure));
    assert_eq!(image.read_bytes(0x1000, 5), None);
    assert_eq!(image.read_bytes(0x1000, 4), Some(vec![1, 2, 3, 4]));
}

#[test]
fn read_multiple_issues_one_array_request() {
    let mut mem = vec![0u8; 12];
    put_word(&mut mem, 0, 1);
    put_word(&mut mem, 4, 2);
    put_word(&mut mem, 8, 3);
    let rec = Recording::new(MemoryImage::new(0x0040_2000, mem));
    let got = RawPtr::of(0x0040_2000).read_multiple::<u32, _>(&rec, 3);
    assert_eq!(got, Ok(vec![1, 2, 3]));
    assert_eq!(rec.array_calls.borrow().as_slice(), &[(0x0040_2000, 4, 3)]);
    assert!(rec.bytes_calls.borrow().is_empty());
}

#[test]
fn read_multiple_empty_and_failing() {
    let image = MemoryImage::new(0x100, vec![9, 8]);
    assert_eq!(RawPtr::of(0x100).read_multiple::<u8, _>(&image, 0), Ok(vec![]));
    assert_eq!(RawPtr::of(0x100).read_multiple::<u8, _>(&image, 2), Ok(vec![9, 8]));
    assert_eq!(
        RawPtr::of(0x100).read_multiple::<u8, _>(&image, 3),
        Err(MemoryError::ReadFailure)
    );
}

#[test]
fn pointer_to_pointer_chain() {
    let mut mem = vec![0u8; 0x20];
    put_word(&mut mem, 0x00, 0x1010);
    put_word(&mut mem, 0x10, 0xdead_beef);
    let image = MemoryImage::new(0x1000, mem);
    let outer = Ptr::<Ptr<u32>>::of(0x1000);
    let inner = outer.read(&image).unwrap();
    assert_eq!(inner.addr(), 0x1010);
    assert_eq!(inner.read(&image), Ok(0xdead_beef));
    assert_eq!(<Ptr<u32> as PtrReadable>::byte_size(), 4);
}

#[test]
fn render_without_connection_is_the_address() {
    let p = Ptr::<u32>::of(0x0040_1000);
    assert!(matches!(p.render::<Untouchable>(None), Rendering::Address(0x0040_1000)));
    let n = Ptr::<u32>::of(0);
    assert!(matches!(n.render::<Untouchable>(None), Rendering::Address(0)));
}

#[test]
fn render_with_connection() {
    let image = MemoryImage::new(0x1000, vec![0x2a, 0, 0, 0]);
    let ok = Ptr::<u32>::of(0x1000);
    assert!(matches!(ok.render(Some(&image)), Rendering::Value(42)));
    let bad = Ptr::<u32>::of(0x2000);
    assert!(matches!(bad.render(Some(&image)), Rendering::Absent));
    let null = Ptr::<u32>::of(0);
    assert!(matches!(null.render(Some(&Untouchable)), Rendering::Absent));
}

/// A vftable at 0x1000 whose chain leads to `name` at 0x3008.
fn rtti_image(name: &[u8]) -> Vec<u8> {
    let mut mem = vec![0u8; 0x4000];
    put_word(&mut mem, 0x0ffc, 0x2000);
    put_word(&mut mem, 0x200c, 0x3000);
    mem[0x3008..0x3008 + name.len()].copy_from_slice(name);
    mem
}

#[test]
fn rtti_name_from_synthetic_layout() {
    let image = MemoryImage::new(0, rtti_image(b".?AVEntity@@\0"));
    let v = Vftable { ptr: RawPtr::of(0x1000) };
    assert_eq!(v.get_rtti_name(&image), Ok(".?AVEntity@@".to_string()));
}

#[test]
fn rtti_vftable_read_from_object() {
    let mut mem = rtti_image(b"Foo\0");
    put_word(&mut mem, 0x0100, 0x1000);
    let image = MemoryImage::new(0, mem);
    let v: Vftable = RawPtr::of(0x0100).read(&image).unwrap();
    assert_eq!(v.ptr.addr(), 0x1000);
    assert_eq!(v.get_rtti_name(&image), Ok("Foo".to_string()));
}

#[test]
fn rtti_broken_locator() {
    let mem = rtti_image(b"Foo\0");
    let image = MemoryImage::new(0x1000, mem[0x1000..].to_vec());
    let v = Vftable { ptr: RawPtr::of(0x1000) };
    assert_eq!(v.get_rtti_name(&image), Err(MemoryError::NameUnavailable));
}

#[test]
fn rtti_broken_descriptor() {
    let mut mem = rtti_image(b"Foo\0");
    put_word(&mut mem, 0x0ffc, 0x7000_0000);
    let image = MemoryImage::new(0, mem);
    let v = Vftable { ptr: RawPtr::of(0x1000) };
    assert_eq!(v.get_rtti_name(&image), Err(MemoryError::NameUnavailable));
}

#[test]
fn rtti_broken_name() {
    let mut mem = rtti_image(b"Foo\0");
    put_word(&mut mem, 0x200c, 0x7000_0000);
    let image = MemoryImage::new(0, mem);
    let v = Vftable { ptr: RawPtr::of(0x1000) };
    assert_eq!(v.get_rtti_name(&image), Err(MemoryError::NameUnavailable));
}

#[test]
fn rtti_name_without_terminator() {
    // The name runs up to the end of the readable region with no NUL.
    let mut mem = rtti_image(b"");
    mem.truncate(0x3008);
    mem.extend_from_slice(b"Unterminated");
    let image = MemoryImage::new(0, mem);
    let v = Vftable { ptr: RawPtr::of(0x1000) };
    assert_eq!(v.get_rtti_name(&image), Err(MemoryError::NameUnavailable));
}

#[test]
fn rtti_name_followed_by_zero_bytes() {
    // "Foo" is followed by zero bytes of the image, which terminate it.
    let image = MemoryImage::new(0, rtti_image(b"Foo"));
    let v = Vftable { ptr: RawPtr::of(0x1000) };
    assert_eq!(v.get_rtti_name(&image), Ok("Foo".to_string()));
}

#[test]
fn rtti_long_name_is_returned_whole() {
    for len in [1023usize, 1024, 1025, 5000] {
        let mut mem = rtti_image(b"");
        let end = 0x3008 + len;
        mem.resize(end + 1, 0);
        for b in &mut mem[0x3008..end] {
            *b = b'a';
        }
        let image = MemoryImage::new(0, mem);
        let v = Vftable { ptr: RawPtr::of(0x1000) };
        let name = v.get_rtti_name(&image).unwrap();
        assert_eq!(name, "a".repeat(len));
    }
}

#[test]
fn rtti_name_not_ascii() {
    let image = MemoryImage::new(0, rtti_image(b"F\xc3\xa9\0"));
    let v = Vftable { ptr: RawPtr::of(0x1000) };
    assert_eq!(v.get_rtti_name(&image), Err(MemoryError::NameUnavailable));
}

#[test]
fn address_text() {
    assert_eq!(RawPtr::of(0).describe(), "NULL");
    assert_eq!(RawPtr::of(0x0040_1000).describe(), "0x00401000");
    assert_eq!(RawPtr::of(0xdead_beef).describe(), "0xdeadbeef");
}

#[test]
fn from_u32_builds_the_same_address() {
    let r: RawPtr = 0x1234u32.into();
    assert_eq!(r, RawPtr::of(0x1234));
    let p: Ptr<u8> = Ptr::from(0x1234u32);
    assert_eq!(p.addr(), 0x1234);
}

#[test]
fn fixed_width_integers_decode_little_endian() {
    let bytes = vec![0xfe, 0xff, 0xff, 0xff, 0xff, 0xff, 0xff, 0x80];
    let image = MemoryImage::new(0x10, bytes);
    let at = RawPtr::of(0x10);
    assert_eq!(at.read::<u8, _>(&image), Ok(0xfe));
    assert_eq!(at.read::<i8, _>(&image), Ok(-2));
    assert_eq!(at.read::<u16, _>(&image), Ok(0xfffe));
    assert_eq!(at.read::<i16, _>(&image), Ok(-2));
    assert_eq!(at.read::<i32, _>(&image), Ok(-2));
    assert_eq!(at.read::<u64, _>(&image), Ok(0x80ff_ffff_ffff_fffe));
    assert_eq!(at.read::<i64, _>(&image), Ok(0x80ff_ffff_ffff_fffeu64 as i64));
    assert_eq!(RawPtr::of(0x16).read::<u16, _>(&image), Ok(0x80ff));
    assert_eq!(RawPtr::of(0x16).read::<i16, _>(&image), Ok(0x80ffu16 as i16));
    assert_eq!(RawPtr::of(0x11).read::<u64, _>(&image), Err(MemoryError::ReadFailure));
    assert_eq!(<u64 as PtrReadable>::byte_size(), 8);
    assert_eq!(<i16 as PtrReadable>::byte_size(), 2);
}

#[test]
fn read_multiple_too_long_asks_nothing() {
    let rec = Recording::new(MemoryImage::new(0, vec![0; 16]));
    let got = RawPtr::of(0).read_multiple::<u32, _>(&rec, 0x4000_0000);
    assert_eq!(got, Err(MemoryError::ReadFailure));
    assert!(rec.array_calls.borrow().is_empty());
    let ok = RawPtr::of(0).read_multiple::<u16, _>(&rec, 2);
    assert_eq!(ok, Ok(vec![0, 0]));
}
