//! The constant pool: entry kinds, wide-slot accounting, index translation,
//! and Modified-UTF-8 validation.

use classfile::constantpool::ConstantPool;
use classfile::err::ClassError;

fn push_u16(v: &mut Vec<u8>, x: u16) {
    v.extend_from_slice(&x.to_be_bytes());
}

#[test]
fn long_and_double_cover_two_slots() {
    // Declared count 5: Utf8("x") at slot 1, Long(7) at slots 2-3,
    // Integer(3) at slot 4.
    let mut v = Vec::new();
    v.push(1); // UTF8
    push_u16(&mut v, 1);
    v.push(b'x');
    v.push(5); // Long
    v.extend_from_slice(&7i64.to_be_bytes());
    v.push(3); // Integer
    v.extend_from_slice(&3i32.to_be_bytes());
    let (pool, pos) = ConstantPool::parse(&v, 0, 5).unwrap();
    assert_eq!(pos, v.len());
    assert_eq!(pool.len(), 3);
    assert_eq!(pool[0], ConstantPool::UTF8(b"x".to_vec()));
    assert_eq!(pool[1], ConstantPool::Long(7));
    assert_eq!(pool[2], ConstantPool::Integer(3));

    // External index 4 resolves to the Integer.
    assert_eq!(*ConstantPool::get(&pool, 4).unwrap(), ConstantPool::Integer(3));
    // External index 3 is the reserved successor slot of the Long.
    assert_eq!(
        ConstantPool::get(&pool, 3).unwrap_err(),
        ClassError::IndexOutOfBounds { index: 3 }
    );
    assert_eq!(*ConstantPool::get(&pool, 1).unwrap(), ConstantPool::UTF8(b"x".to_vec()));
    assert_eq!(*ConstantPool::get(&pool, 2).unwrap(), ConstantPool::Long(7));
    // Index 0 is reserved; index 5 is past the covered slots.
    assert_eq!(ConstantPool::get(&pool, 0).unwrap_err(), ClassError::IndexOutOfBounds { index: 0 });
    assert_eq!(ConstantPool::get(&pool, 5).unwrap_err(), ClassError::IndexOutOfBounds { index: 5 });
}

#[test]
fn wide_entry_may_not_overrun_declared_count() {
    // Declared count 2 leaves one logical slot, but a Long needs two.
    let mut v = Vec::new();
    v.push(5);
    v.extend_from_slice(&7i64.to_be_bytes());
    let err = ConstantPool::parse(&v, 0, 2).unwrap_err();
    assert_eq!(err, ClassError::IndexOutOfBounds { index: 2 });
}

#[test]
fn all_reference_kinds_decode() {
    let mut v = Vec::new();
    v.push(7); // Class
    push_u16(&mut v, 10);
    v.push(9); // FieldRef
    push_u16(&mut v, 1);
    push_u16(&mut v, 2);
    v.push(10); // MethodRef
    push_u16(&mut v, 3);
    push_u16(&mut v, 4);
    v.push(11); // InterfaceMethodRef
    push_u16(&mut v, 5);
    push_u16(&mut v, 6);
    v.push(8); // String
    push_u16(&mut v, 7);
    v.push(12); // NameAndType
    push_u16(&mut v, 8);
    push_u16(&mut v, 9);
    v.push(15); // MethodHandle
    v.push(6);
    push_u16(&mut v, 11);
    v.push(16); // MethodType
    push_u16(&mut v, 12);
    v.push(17); // Dynamic
    push_u16(&mut v, 13);
    push_u16(&mut v, 14);
    v.push(18); // InvokeDynamic
    push_u16(&mut v, 15);
    push_u16(&mut v, 16);
    v.push(19); // Module
    push_u16(&mut v, 17);
    v.push(20); // Package
    push_u16(&mut v, 18);
    let (pool, pos) = ConstantPool::parse(&v, 0, 13).unwrap();
    assert_eq!(pos, v.len());
    assert_eq!(pool[0], ConstantPool::Class(10));
    assert_eq!(pool[1], ConstantPool::FieldRef(1, 2));
    assert_eq!(pool[2], ConstantPool::MethodRef(3, 4));
    assert_eq!(pool[3], ConstantPool::InterfaceMethodRef(5, 6));
    assert_eq!(pool[4], ConstantPool::String(7));
    assert_eq!(pool[5], ConstantPool::NameAndType(8, 9));
    assert_eq!(pool[6], ConstantPool::MethodHandle(6, 11));
    assert_eq!(pool[7], ConstantPool::MethodType(12));
    assert_eq!(pool[8], ConstantPool::Dynamic(13, 14));
    assert_eq!(pool[9], ConstantPool::InvokeDynamic(15, 16));
    assert_eq!(pool[10], ConstantPool::Module(17));
    assert_eq!(pool[11], ConstantPool::Package(18));
}

#[test]
fn numeric_entries_keep_exact_values() {
    let mut v = Vec::new();
    v.push(3); // Integer -2
    v.extend_from_slice(&(-2i32).to_be_bytes());
    v.push(5); // Long -1
    v.extend_from_slice(&(-1i64).to_be_bytes());
    v.push(4); // Float bit pattern of 1.0f
    v.extend_from_slice(&0x3F80_0000u32.to_be_bytes());
    v.push(6); // Double bit pattern of 1.0
    v.extend_from_slice(&0x3FF0_0000_0000_0000u64.to_be_bytes());
    let (pool, _) = ConstantPool::parse(&v, 0, 7).unwrap();
    assert_eq!(pool[0], ConstantPool::Integer(-2));
    assert_eq!(pool[1], ConstantPool::Long(-1));
    assert_eq!(pool[2], ConstantPool::Float(0x3F80_0000));
    assert_eq!(pool[3], ConstantPool::Double(0x3FF0_0000_0000_0000));
}

#[test]
fn unknown_tag_is_rejected() {
    let v = vec![99u8, 0, 0];
    let err = ConstantPool::parse(&v, 0, 2).unwrap_err();
    assert_eq!(err, ClassError::UnknownConstantTag { tag: 99, at: 0 });
}

#[test]
fn utf8_raw_nul_byte_is_rejected() {
    // Modified-UTF-8 never contains a 0x00 byte.
    let mut v = Vec::new();
    v.push(1);
    push_u16(&mut v, 1);
    v.push(0x00);
    let err = ConstantPool::parse(&v, 0, 2).unwrap_err();
    assert_eq!(err, ClassError::BadUtf8 { at: 3 });
}

#[test]
fn utf8_two_byte_nul_is_accepted() {
    // The NUL character is encoded in two bytes, C0 80.
    let mut v = Vec::new();
    v.push(1);
    push_u16(&mut v, 2);
    v.push(0xC0);
    v.push(0x80);
    let (pool, _) = ConstantPool::parse(&v, 0, 2).unwrap();
    assert_eq!(pool[0], ConstantPool::UTF8(vec![0xC0, 0x80]));
}

#[test]
fn utf8_three_byte_sequence_is_accepted() {
    let mut v = Vec::new();
    v.push(1);
    push_u16(&mut v, 3);
    v.extend_from_slice(&[0xE4, 0xB8, 0xAD]);
    let (pool, _) = ConstantPool::parse(&v, 0, 2).unwrap();
    assert_eq!(pool[0], ConstantPool::UTF8(vec![0xE4, 0xB8, 0xAD]));
}

#[test]
fn utf8_four_byte_sequence_is_rejected() {
    // Supplementary planes use surrogate pairs, never four-byte sequences.
    let mut v = Vec::new();
    v.push(1);
    push_u16(&mut v, 4);
    v.extend_from_slice(&[0xF0, 0x9F, 0x98, 0x80]);
    let err = ConstantPool::parse(&v, 0, 2).unwrap_err();
    assert_eq!(err, ClassError::BadUtf8 { at: 3 });
}

#[test]
fn truncated_entry_is_eof() {
    let v = vec![3u8, 0, 0];
    let err = ConstantPool::parse(&v, 0, 2).unwrap_err();
    assert_eq!(err, ClassError::UnexpectedEof { at: 1, need: 4, have: 2 });
}
