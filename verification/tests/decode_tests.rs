//! End-to-end decoding of whole class files.

use classfile::classfile::ClassFile;
use classfile::constantpool::ConstantPool;
use classfile::decode;
use classfile::err::ClassError;
use classfile::err::Policy;

fn push_u16(v: &mut Vec<u8>, x: u16) {
    v.extend_from_slice(&x.to_be_bytes());
}

fn push_u32(v: &mut Vec<u8>, x: u32) {
    v.extend_from_slice(&x.to_be_bytes());
}

/// The smallest well-formed class file: major 61, an empty constant pool of
/// declared count 1, and no interfaces, fields, methods, or attributes.
fn minimal_class() -> Vec<u8> {
    let mut v = Vec::new();
    push_u32(&mut v, 0xCAFE_BABE);
    push_u16(&mut v, 0); // minor
    push_u16(&mut v, 61); // major
    push_u16(&mut v, 1); // constant pool count
    push_u16(&mut v, 0); // access flags
    push_u16(&mut v, 0); // this class
    push_u16(&mut v, 0); // super class
    push_u16(&mut v, 0); // interfaces count
    push_u16(&mut v, 0); // fields count
    push_u16(&mut v, 0); // methods count
    push_u16(&mut v, 0); // attributes count
    v
}

#[test]
fn minimal_empty_class() {
    let bytes = minimal_class();
    let cf = decode(&bytes, Policy::Strict).unwrap();
    assert_eq!(cf.minor_version, 0);
    assert_eq!(cf.major_version, 61);
    assert_eq!(cf.constant_pool_count, 1);
    assert!(cf.constant_pool.is_empty());
    assert_eq!(cf.access_flags, 0);
    assert_eq!(cf.this_class, 0);
    assert_eq!(cf.super_class, 0);
    assert!(cf.interfaces.is_empty());
    assert!(cf.fields.is_empty());
    assert!(cf.methods.is_empty());
    assert!(cf.attributes.is_empty());
}

#[test]
fn magic_guard() {
    let bytes = vec![0xDE, 0xAD, 0xBE, 0xEF, 0x00, 0x00];
    let err = decode(&bytes, Policy::Strict).unwrap_err();
    assert_eq!(err, ClassError::BadMagic { found: 0xDEAD_BEEF });
}

#[test]
fn trailing_bytes_rejected() {
    let mut bytes = minimal_class();
    bytes.push(0x00);
    let err = decode(&bytes, Policy::Strict).unwrap_err();
    assert_eq!(err, ClassError::TrailingBytes { extra: 1 });
}

#[test]
fn truncated_header_is_eof() {
    let bytes = vec![0xCA, 0xFE];
    let err = decode(&bytes, Policy::Strict).unwrap_err();
    assert_eq!(err, ClassError::UnexpectedEof { at: 0, need: 4, have: 2 });
}

#[test]
fn decode_is_deterministic() {
    let bytes = minimal_class();
    let a = decode(&bytes, Policy::Strict).unwrap();
    let b = decode(&bytes, Policy::Strict).unwrap();
    assert_eq!(a, b);
}

#[test]
fn class_with_field_and_method() {
    let mut v = Vec::new();
    push_u32(&mut v, 0xCAFE_BABE);
    push_u16(&mut v, 3); // minor
    push_u16(&mut v, 55); // major
    push_u16(&mut v, 3); // pool count: two entries
    v.push(7); // Class
    push_u16(&mut v, 2);
    v.push(1); // UTF8 "A"
    push_u16(&mut v, 1);
    v.push(b'A');
    push_u16(&mut v, 0x0021); // access flags
    push_u16(&mut v, 1); // this class
    push_u16(&mut v, 0); // super class
    push_u16(&mut v, 2); // interfaces count
    push_u16(&mut v, 1);
    push_u16(&mut v, 2);
    push_u16(&mut v, 1); // fields count
    push_u16(&mut v, 0x0002); // field access
    push_u16(&mut v, 2); // field name
    push_u16(&mut v, 2); // field descriptor
    push_u16(&mut v, 0); // field attributes
    push_u16(&mut v, 1); // methods count
    push_u16(&mut v, 0x0001); // method access
    push_u16(&mut v, 2); // method name
    push_u16(&mut v, 2); // method descriptor
    push_u16(&mut v, 0); // method attributes
    push_u16(&mut v, 0); // class attributes
    let cf: ClassFile = decode(&v, Policy::Strict).unwrap();
    assert_eq!(cf.constant_pool.len(), 2);
    assert_eq!(cf.constant_pool[0], ConstantPool::Class(2));
    assert_eq!(cf.constant_pool[1], ConstantPool::UTF8(b"A".to_vec()));
    assert_eq!(cf.interfaces, vec![1, 2]);
    assert_eq!(cf.fields.len(), 1);
    assert_eq!(cf.fields[0].access_flags, 0x0002);
    assert_eq!(cf.fields[0].name_index, 2);
    assert_eq!(cf.fields[0].descriptor_index, 2);
    assert!(cf.fields[0].attributes.is_empty());
    assert_eq!(cf.methods.len(), 1);
    assert_eq!(cf.methods[0].access_flags, 0x0001);
    assert!(cf.methods[0].attributes.is_empty());
}

#[test]
fn parse_class_file_reports_position() {
    let bytes = minimal_class();
    let (_, pos) = ClassFile::parse_class_file(&bytes, 0, Policy::Strict).unwrap();
    assert_eq!(pos, bytes.len());
}

#[test]
fn lenient_decode_keeps_vendor_attribute() {
    let mut v = Vec::new();
    push_u32(&mut v, 0xCAFE_BABE);
    push_u16(&mut v, 0);
    push_u16(&mut v, 61);
    push_u16(&mut v, 2); // pool: UTF8 "VendorX"
    v.push(1);
    push_u16(&mut v, 7);
    v.extend_from_slice(b"VendorX");
    push_u16(&mut v, 0); // access
    push_u16(&mut v, 0); // this
    push_u16(&mut v, 0); // super
    push_u16(&mut v, 0); // interfaces
    push_u16(&mut v, 0); // fields
    push_u16(&mut v, 0); // methods
    push_u16(&mut v, 1); // one class attribute
    push_u16(&mut v, 1); // name index
    push_u32(&mut v, 2); // length
    v.extend_from_slice(&[0xAB, 0xCD]);
    let cf = decode(&v, Policy::Lenient).unwrap();
    assert_eq!(cf.attributes.len(), 1);
    assert_eq!(
        cf.attributes[0],
        classfile::attribute::Attribute::Unknown {
            name: b"VendorX".to_vec(),
            info: vec![0xAB, 0xCD],
        }
    );
    // The same bytes fail under the strict policy.
    let err = decode(&v, Policy::Strict).unwrap_err();
    assert_eq!(err, ClassError::UnknownAttribute { name: b"VendorX".to_vec() });
}
