//! The optional index-legality check over decoded trees.

use classfile::constantpool::ConstantPool;
use classfile::decode;
use classfile::err::Policy;
use classfile::validate::validate_indices;
use classfile::validate::validate_pool;

fn push_u16(v: &mut Vec<u8>, x: u16) {
    v.extend_from_slice(&x.to_be_bytes());
}

fn push_u32(v: &mut Vec<u8>, x: u32) {
    v.extend_from_slice(&x.to_be_bytes());
}

#[test]
fn pool_cross_references_check() {
    let good = vec![
        ConstantPool::Class(4),
        ConstantPool::FieldRef(1, 3),
        ConstantPool::NameAndType(4, 5),
        ConstantPool::UTF8(b"n".to_vec()),
        ConstantPool::UTF8(b"d".to_vec()),
    ];
    assert!(validate_pool(&good));

    // A FieldRef whose class index lands on a UTF8 entry is illegal.
    let bad = vec![
        ConstantPool::Class(4),
        ConstantPool::FieldRef(4, 3),
        ConstantPool::NameAndType(4, 5),
        ConstantPool::UTF8(b"n".to_vec()),
        ConstantPool::UTF8(b"d".to_vec()),
    ];
    assert!(!validate_pool(&bad));

    // A String whose index lands on the reserved slot of a Long is illegal.
    let reserved = vec![ConstantPool::Long(1), ConstantPool::String(2)];
    assert!(!validate_pool(&reserved));
    let past_long = vec![ConstantPool::Long(1), ConstantPool::UTF8(b"s".to_vec()),
        ConstantPool::String(3)];
    assert!(validate_pool(&past_long));
}

#[test]
fn minimal_class_fails_the_stronger_check() {
    // The minimal class has this_class = 0, which dereferences nothing.
    let mut v = Vec::new();
    push_u32(&mut v, 0xCAFE_BABE);
    push_u16(&mut v, 0);
    push_u16(&mut v, 61);
    push_u16(&mut v, 1);
    for _ in 0..7 {
        push_u16(&mut v, 0);
    }
    let cf = decode(&v, Policy::Strict).unwrap();
    assert!(!validate_indices(&cf));
}

#[test]
fn well_referenced_class_passes_the_stronger_check() {
    let mut v = Vec::new();
    push_u32(&mut v, 0xCAFE_BABE);
    push_u16(&mut v, 0);
    push_u16(&mut v, 61);
    push_u16(&mut v, 4); // pool count: Class(2), UTF8("A"), UTF8("I")
    v.push(7);
    push_u16(&mut v, 2);
    v.push(1);
    push_u16(&mut v, 1);
    v.push(b'A');
    v.push(1);
    push_u16(&mut v, 1);
    v.push(b'I');
    push_u16(&mut v, 0x0021); // access
    push_u16(&mut v, 1); // this class
    push_u16(&mut v, 0); // super class
    push_u16(&mut v, 1); // one interface
    push_u16(&mut v, 1);
    push_u16(&mut v, 1); // one field
    push_u16(&mut v, 0);
    push_u16(&mut v, 2); // name: UTF8 "A"
    push_u16(&mut v, 3); // descriptor: UTF8 "I"
    push_u16(&mut v, 0);
    push_u16(&mut v, 0); // no methods
    push_u16(&mut v, 0); // no attributes
    let cf = decode(&v, Policy::Strict).unwrap();
    assert!(validate_indices(&cf));
}

#[test]
fn field_with_bad_descriptor_fails_the_stronger_check() {
    let mut v = Vec::new();
    push_u32(&mut v, 0xCAFE_BABE);
    push_u16(&mut v, 0);
    push_u16(&mut v, 61);
    push_u16(&mut v, 3); // pool: Class(2), UTF8("A")
    v.push(7);
    push_u16(&mut v, 2);
    v.push(1);
    push_u16(&mut v, 1);
    v.push(b'A');
    push_u16(&mut v, 0);
    push_u16(&mut v, 1); // this class
    push_u16(&mut v, 0); // super class
    push_u16(&mut v, 0); // no interfaces
    push_u16(&mut v, 1); // one field
    push_u16(&mut v, 0);
    push_u16(&mut v, 2); // name: UTF8
    push_u16(&mut v, 1); // descriptor: Class entry, not UTF8
    push_u16(&mut v, 0);
    push_u16(&mut v, 0);
    push_u16(&mut v, 0);
    let cf = decode(&v, Policy::Strict).unwrap();
    assert!(!validate_indices(&cf));
}
