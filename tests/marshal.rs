use std::marker::PhantomData;

use pe_bridge::{
    AllocError, Box, Heap, IntoFfi, IntoNative, Layout, Memory, ReleaseError, Slice, Str,
};

fn view(ptr: usize, len: usize) -> Slice<u8> {
    Slice { ptr, len, elem: PhantomData }
}

#[test]
fn text_round_trip_gives_same_bytes() {
    let mut texts: Heap<String> = Heap::new();
    let original = String::from("héllo, wörld");
    let h = original.clone().into_ffi(&mut texts);
    let back = h.into_native(&mut texts).unwrap();
    assert_eq!(back.as_bytes(), original.as_bytes());
    assert!(!texts.is_live(&Box::from_index(0)));
}

#[test]
fn empty_text_round_trip() {
    let mut texts: Heap<String> = Heap::new();
    let h = String::new().into_ffi(&mut texts);
    assert_eq!(h.into_native(&mut texts), Some(String::new()));
}

#[test]
fn buffer_round_trip_keeps_order() {
    let mut bufs: Heap<Vec<i32>> = Heap::new();
    let h = vec![1i32, 2, 3].into_ffi(&mut bufs);
    assert_eq!(h.into_native(&mut bufs), Some(vec![1, 2, 3]));
    assert_eq!(bufs.len(), 1);
    assert!(!bufs.is_live(&Box::from_index(0)));
}

#[test]
fn boxed_value_is_destroyed_once() {
    let mut values: Heap<u64> = Heap::new();
    let h = std::boxed::Box::new(42u64).into_ffi(&mut values);
    assert_eq!(h.index(), 0);
    let copy = Box::<u64>::from_index(h.index());
    assert_eq!(h.into_native(&mut values).map(|b| *b), Some(42));
    assert!(copy.into_native(&mut values).is_none());
    assert!(Box::<u64>::from_index(7).into_native(&mut values).is_none());
}

#[test]
fn get_borrows_without_consuming() {
    let mut values: Heap<u64> = Heap::new();
    let h = values.insert(5);
    assert_eq!(values.get(&h), Some(&5));
    assert_eq!(values.get(&h), Some(&5));
    assert_eq!(values.remove(h), Some(5));
    assert_eq!(values.get(&Box::from_index(0)), None);
}

#[test]
fn layout_rules_follow_the_allocator() {
    assert_eq!(Layout { size: 16, align: 8 }.into_native(), Some(Layout { size: 16, align: 8 }));
    assert_eq!(Layout { size: 0, align: 1 }.into_native(), Some(Layout { size: 0, align: 1 }));
    assert_eq!(Layout { size: 16, align: 3 }.into_native(), None);
    assert_eq!(Layout { size: 16, align: 0 }.into_native(), None);
    let max = isize::MAX as usize;
    assert!(Layout { size: max, align: 1 }.into_native().is_some());
    assert!(Layout { size: max, align: 2 }.into_native().is_none());
    assert!(Layout { size: max - 7, align: 8 }.into_native().is_some());
}

#[test]
fn allocate_then_release_with_same_layout() {
    let mut mem = Memory::new();
    let layout = Layout { size: 32, align: 16 };
    let p = mem.allocate(layout).unwrap();
    assert_eq!(p, 0);
    assert_eq!(mem.blocks.get(&Box::from_index(p)).unwrap().len(), 32);
    assert_eq!(mem.release(layout, p), Ok(()));
    assert!(!mem.blocks.is_live(&Box::from_index(p)));
}

#[test]
fn release_is_refused_on_corruption() {
    let mut mem = Memory::new();
    let layout = Layout { size: 8, align: 4 };
    let p = mem.allocate(layout).unwrap();
    assert_eq!(
        mem.release(Layout { size: 8, align: 8 }, p),
        Err(ReleaseError::LayoutMismatch)
    );
    assert!(mem.blocks.is_live(&Box::from_index(p)));
    assert_eq!(mem.release(layout, p), Ok(()));
    assert_eq!(mem.release(layout, p), Err(ReleaseError::NotAllocated));
    assert_eq!(mem.release(layout, 9), Err(ReleaseError::NotAllocated));
}

#[test]
fn allocate_refuses_bad_layout() {
    let mut mem = Memory::new();
    assert_eq!(mem.allocate(Layout { size: 8, align: 6 }), Err(AllocError::BadLayout));
    assert_eq!(mem.blocks.len(), 0);
}

#[test]
fn slice_views_a_prefix() {
    let mut mem = Memory::new();
    let p = mem.adopt(vec![1, 2, 3, 4]).unwrap();
    assert_eq!(view(p, 2).into_native(&mem.blocks), Some(&[1u8, 2][..]));
    assert_eq!(view(p, 4).into_native(&mem.blocks), Some(&[1u8, 2, 3, 4][..]));
    assert_eq!(view(p, 5).into_native(&mem.blocks), None);
    assert_eq!(view(p + 1, 0).into_native(&mem.blocks), None);
}

#[test]
fn slice_of_whole_buffer() {
    let mut bufs: Heap<Vec<u8>> = Heap::new();
    let h = bufs.insert(vec![9, 8, 7]);
    let s = Slice::into_ffi(&h, &bufs).unwrap();
    assert_eq!(s.len, 3);
    assert_eq!(s.into_native(&bufs), Some(&[9u8, 8, 7][..]));
    bufs.remove(h);
    assert!(Slice::into_ffi(&Box::<Vec<u8>>::from_index(0), &bufs).is_none());
}

#[test]
fn text_view_accepts_valid_utf8() {
    let mut mem = Memory::new();
    let p = mem.adopt("naïve ✓".as_bytes().to_vec()).unwrap();
    let len = "naïve ✓".len();
    assert_eq!(Str(view(p, len)).into_native(&mem.blocks), Some("naïve ✓"));
    assert_eq!(Str(view(p, 0)).into_native(&mem.blocks), Some(""));
}

#[test]
fn text_view_rejects_invalid_utf8() {
    let mut mem = Memory::new();
    let p = mem.adopt(vec![b'a', 0xff, 0xfe]).unwrap();
    assert_eq!(Str(view(p, 3)).into_native(&mem.blocks), None);
    assert_eq!(Str(view(p, 1)).into_native(&mem.blocks), Some("a"));
    let q = mem.adopt("é".as_bytes().to_vec()).unwrap();
    assert_eq!(Str(view(q, 1)).into_native(&mem.blocks), None);
}

#[test]
fn write_fills_start_of_block() {
    let mut mem = Memory::new();
    let p = mem.allocate(Layout { size: 4, align: 4 }).unwrap();
    assert!(mem.write(p, &[7, 8]));
    assert_eq!(mem.blocks.get(&Box::from_index(p)), Some(&vec![7u8, 8, 0, 0]));
    assert!(!mem.write(p, &[1, 2, 3, 4, 5]));
    assert!(!mem.write(p + 1, &[1]));
    assert_eq!(mem.blocks.get(&Box::from_index(p)), Some(&vec![7u8, 8, 0, 0]));
    assert_eq!(mem.release(Layout { size: 4, align: 4 }, p), Ok(()));
    assert!(!mem.write(p, &[]));
}

#[test]
fn swap_exchanges_owned_value() {
    let mut values: Heap<u64> = Heap::new();
    let h = values.insert(1);
    let mut v = 2u64;
    assert!(values.swap(&h, &mut v));
    assert_eq!(v, 1);
    assert_eq!(values.get(&h), Some(&2));
    values.remove(h);
    let mut w = 3u64;
    assert!(!values.swap(&Box::from_index(0), &mut w));
    assert_eq!(w, 3);
}

#[test]
fn text_view_of_whole_buffer() {
    let mut bufs: Heap<Vec<u8>> = Heap::new();
    let h = bufs.insert("añb".as_bytes().to_vec());
    let s = Str::into_ffi(&h, &bufs).unwrap();
    assert_eq!(s.0.len, 4);
    assert_eq!(s.into_native(&bufs), Some("añb"));
    assert!(Str::into_ffi(&Box::<Vec<u8>>::from_index(3), &bufs).is_none());
}
