use vsb::VariableSizedBox;

#[test]
fn zeroed_round_trip() {
    let b = VariableSizedBox::<u32>::zeroed(16);
    assert_eq!(b.len(), 16);
    let all = b.slice_from_count(b.as_ptr().cast::<u8>(), 16);
    assert_eq!(all.len(), 16);
    assert!(all.iter().all(|&x| x == 0));
}

#[test]
fn new_has_requested_length() {
    let b = VariableSizedBox::<u64>::new(24);
    assert_eq!(b.len(), 24);
    let b1 = VariableSizedBox::<u8>::new(1);
    assert_eq!(b1.len(), 1);
}

#[test]
fn resize_grow_preserves_prefix() {
    let mut b = VariableSizedBox::<u32>::zeroed(8);
    let base = b.as_mut_ptr().cast::<u8>();
    let s = b.slice_from_count_mut(base, 8);
    for (i, x) in s.iter_mut().enumerate() {
        *x = 0x10 + i as u8;
    }
    b.resize(16);
    assert_eq!(b.len(), 16);
    let prefix = b.slice_from_count(b.as_ptr().cast::<u8>(), 8);
    for (i, &x) in prefix.iter().enumerate() {
        assert_eq!(x, 0x10 + i as u8);
    }
}

#[test]
fn resize_shrink_preserves_prefix() {
    let mut b = VariableSizedBox::<u32>::zeroed(12);
    let base = b.as_mut_ptr().cast::<u8>();
    let s = b.slice_from_count_mut(base, 12);
    for (i, x) in s.iter_mut().enumerate() {
        *x = 0x40 + i as u8;
    }
    b.resize(4);
    assert_eq!(b.len(), 4);
    let kept = b.slice_from_count(b.as_ptr().cast::<u8>(), 4);
    assert_eq!(kept, &[0x40, 0x41, 0x42, 0x43]);
}

#[test]
fn count_bounds_boundary() {
    // 12 bytes of storage, field at offset 4: 8 bytes of u8 elements end
    // exactly at the storage's end and are accepted; one more is rejected.
    let b = VariableSizedBox::<u32>::zeroed(12);
    let field = b.as_ptr().cast::<u8>().byte_add(4);
    let exact = b.try_slice_from_count(field, 8);
    assert_eq!(exact.expect("span ending at the storage's end").len(), 8);
    assert!(b.try_slice_from_count(field, 9).is_none());
    // The same boundary in u32 elements.
    let field32 = b.as_ptr().byte_add(4);
    assert!(b.try_slice_from_count(field32, 2).is_some());
    assert!(b.try_slice_from_count(field32, 3).is_none());
}

#[test]
fn count_overflow_rejected() {
    let b = VariableSizedBox::<u32>::zeroed(16);
    assert!(b.try_slice_from_count(b.as_ptr(), usize::MAX).is_none());
}

#[test]
fn zero_count_accepted_anywhere_in_bounds() {
    let b = VariableSizedBox::<u32>::zeroed(8);
    let end = b.as_ptr().byte_add(8);
    let s = b.try_slice_from_count(end, 0).expect("empty span at the end");
    assert!(s.is_empty());
}

#[test]
fn total_size_underflow_rejected() {
    let b = VariableSizedBox::<u32>::zeroed(16);
    let field = b.as_ptr().byte_add(8);
    // A reported total smaller than the field's offset must not wrap around.
    assert!(b.try_slice_from_total_bytes(field, 7).is_none());
    assert!(b.try_slice_from_total_bytes(field, 0).is_none());
    // The offset itself is an empty, well-formed span.
    let s = b.try_slice_from_total_bytes(field, 8).expect("empty trailing array");
    assert!(s.is_empty());
}

#[test]
fn total_size_beyond_storage_rejected() {
    let b = VariableSizedBox::<u32>::zeroed(16);
    let field = b.as_ptr().byte_add(4);
    assert!(b.try_slice_from_total_bytes(field, 16).is_some());
    assert!(b.try_slice_from_total_bytes(field, 24).is_none());
}

#[test]
fn zero_sized_elements() {
    let b = VariableSizedBox::<u32>::zeroed(8);
    // Elements of size zero span no bytes however many are asked for...
    let s = b.try_slice_from_count(b.as_ptr().cast::<()>(), 1000).expect("no bytes spanned");
    assert!(s.is_empty());
    // ...but a byte length cannot be divided among them.
    assert!(b.try_slice_from_total_bytes(b.as_ptr().cast::<()>(), 8).is_none());
}

#[test]
fn header_and_trailing_array() {
    // 16 zeroed bytes: a 4-byte fixed header, then a trailing array of u32.
    let mut b = VariableSizedBox::<u32>::zeroed(16);
    let header = b.as_mut_ref();
    header.copy_from_slice(&[0xde, 0xad, 0xbe, 0xef]);
    let field = b.as_ptr().byte_add(4);
    let trailing = b.slice_from_total_bytes(field, 16);
    // Three u32 elements' worth of bytes, all still zero.
    assert_eq!(trailing.len(), 12);
    assert!(trailing.iter().all(|&x| x == 0));
    // The trailing array is writable, at the right offsets.
    let field = b.as_mut_ptr().byte_add(4);
    let trailing = b.slice_from_total_bytes_mut(field, 16);
    trailing[0] = 0x01;
    trailing[11] = 0x99;
    let all = b.slice_from_count(b.as_ptr().cast::<u8>(), 16);
    assert_eq!(all[0], 0xde);
    assert_eq!(all[3], 0xef);
    assert_eq!(all[4], 0x01);
    assert_eq!(all[5], 0x00);
    assert_eq!(all[15], 0x99);
    assert_eq!(b.as_ref(), &[0xde, 0xad, 0xbe, 0xef]);
}

#[test]
fn shrink_then_oversized_count_rejected() {
    let mut b = VariableSizedBox::<u32>::new(8);
    b.resize(4);
    assert_eq!(b.len(), 4);
    // Two u32 elements need 8 bytes; only 4 remain.
    assert!(b.try_slice_from_count(b.as_ptr(), 2).is_none());
    assert!(b.try_slice_from_count(b.as_ptr(), 1).is_some());
}

#[test]
fn byte_length_drops_partial_element() {
    let mut b = VariableSizedBox::<u32>::zeroed(16);
    // 10 bytes hold two whole u32 elements; the trailing half element is
    // dropped.
    let s = b.slice_from_bytes(b.as_ptr(), 10);
    assert_eq!(s.len(), 8);
    let base = b.as_mut_ptr();
    let s = b.slice_from_bytes_mut(base, 10);
    assert_eq!(s.len(), 8);
    s[7] = 3;
    let all = b.slice_from_count(b.as_ptr().cast::<u8>(), 16);
    assert_eq!(all[7], 3);
    assert_eq!(all[8], 0);
}

#[test]
fn sanitize_keeps_the_position() {
    let mut b = VariableSizedBox::<u32>::zeroed(16);
    let field = b.as_ptr().byte_add(12);
    assert_eq!(b.sanitize_ptr(field).offset_bytes(), 12);
    let field = b.as_mut_ptr().byte_add(12);
    assert_eq!(b.sanitize_mut_ptr(field).offset_bytes(), 12);
}

#[test]
fn pointer_derivation() {
    let b = VariableSizedBox::<u64>::zeroed(32);
    let p = b.as_ptr();
    assert_eq!(p.offset_bytes(), 0);
    assert_eq!(p.byte_add(8).byte_add(4).offset_bytes(), 12);
    assert_eq!(p.byte_add(8).cast::<u16>().offset_bytes(), 8);
}

#[test]
fn header_view_bytes() {
    let mut b = VariableSizedBox::<u32>::zeroed(16);
    assert_eq!(b.as_ref(), &[0, 0, 0, 0]);
    let header = b.as_mut_ref();
    assert_eq!(header.len(), 4);
    header[1] = 0x7f;
    assert_eq!(b.as_ref(), &[0, 0x7f, 0, 0]);
    // Bytes beyond the header are untouched by the header borrow.
    let rest = b.slice_from_count(b.as_ptr().cast::<u8>().byte_add(4), 12);
    assert!(rest.iter().all(|&x| x == 0));
}

#[test]
fn sequential_allocate_release_cycles() {
    // Two allocate/release cycles of the same size: each buffer owns its
    // storage alone and gives it back when dropped.
    for _ in 0..2 {
        let b = VariableSizedBox::<u64>::zeroed(64);
        assert_eq!(b.len(), 64);
        drop(b);
    }
}
