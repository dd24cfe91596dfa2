//! The attribute envelope, the dispatcher, and the typed attribute bodies.

use classfile::attribute::Attribute;
use classfile::attribute::AttributeInfo;
use classfile::attribute::Code;
use classfile::constantpool::ConstantPool;
use classfile::err::ClassError;
use classfile::err::Policy;
use classfile::records::EnclosingMethod;
use classfile::records::LineNumber;
use classfile::records::Signature;
use classfile::records::SourceFile;

fn push_u16(v: &mut Vec<u8>, x: u16) {
    v.extend_from_slice(&x.to_be_bytes());
}

fn push_u32(v: &mut Vec<u8>, x: u32) {
    v.extend_from_slice(&x.to_be_bytes());
}

fn utf8_pool(names: &[&str]) -> Vec<ConstantPool> {
    names.iter().map(|n| ConstantPool::UTF8(n.as_bytes().to_vec())).collect()
}

#[test]
fn envelope_parse_copies_exact_body() {
    let mut v = Vec::new();
    push_u16(&mut v, 7);
    push_u32(&mut v, 3);
    v.extend_from_slice(&[9, 8, 7]);
    v.push(0xAA); // unrelated trailing byte
    let (a, pos) = AttributeInfo::parse(&v, 0).unwrap();
    assert_eq!(pos, 9);
    assert_eq!(a.attribute_name_index, 7);
    assert_eq!(a.attribute_length, 3);
    assert_eq!(a.info, vec![9, 8, 7]);
}

#[test]
fn code_attribute_round_trip() {
    let pool = utf8_pool(&["Code", "LineNumberTable"]);
    let mut body = Vec::new();
    push_u16(&mut body, 2); // max_stack
    push_u16(&mut body, 1); // max_locals
    push_u32(&mut body, 1); // code_length
    body.push(0xB1); // return
    push_u16(&mut body, 0); // exception table length
    push_u16(&mut body, 1); // nested attribute count
    push_u16(&mut body, 2); // nested name index: LineNumberTable
    push_u32(&mut body, 6); // nested length
    push_u16(&mut body, 1); // one line-number entry
    push_u16(&mut body, 0); // start_pc
    push_u16(&mut body, 42); // line_number
    let at = Attribute::parse(1, &body, &pool, Policy::Strict, 64).unwrap();
    match at {
        Attribute::Code(code) => {
            assert_eq!(code.max_stack, 2);
            assert_eq!(code.max_locals, 1);
            assert_eq!(code.code, vec![0xB1]);
            assert!(code.exception_table.is_empty());
            assert_eq!(
                code.attributes,
                vec![Attribute::LineNumberTable(vec![LineNumber { start_pc: 0, line_number: 42 }])]
            );
        },
        other => panic!("expected a Code attribute, got {:?}", other),
    }
}

#[test]
fn code_attribute_via_from_attribute_info() {
    let pool = utf8_pool(&["Code"]);
    let mut body = Vec::new();
    push_u16(&mut body, 3);
    push_u16(&mut body, 4);
    push_u32(&mut body, 2);
    body.extend_from_slice(&[0x00, 0xB1]);
    push_u16(&mut body, 1); // one exception row
    push_u16(&mut body, 0);
    push_u16(&mut body, 2);
    push_u16(&mut body, 2);
    push_u16(&mut body, 0);
    push_u16(&mut body, 0); // no nested attributes
    let infos = vec![AttributeInfo {
        attribute_name_index: 1,
        attribute_length: body.len() as u32,
        info: body,
    }];
    let attrs = Attribute::from_attribute_info(infos, &pool, Policy::Strict).unwrap();
    assert_eq!(attrs.len(), 1);
    match &attrs[0] {
        Attribute::Code(Code { exception_table, .. }) => {
            assert_eq!(exception_table.len(), 1);
            assert_eq!(exception_table[0].end_pc, 2);
            assert_eq!(exception_table[0].handler_pc, 2);
        },
        other => panic!("expected a Code attribute, got {:?}", other),
    }
}

#[test]
fn unknown_attribute_lenient_keeps_envelope() {
    let pool = utf8_pool(&["VendorX"]);
    let body = vec![1u8, 2, 3];
    let at = Attribute::parse(1, &body, &pool, Policy::Lenient, 64).unwrap();
    assert_eq!(at, Attribute::Unknown { name: b"VendorX".to_vec(), info: vec![1, 2, 3] });
}

#[test]
fn unknown_attribute_strict_fails() {
    let pool = utf8_pool(&["VendorX"]);
    let body = vec![1u8, 2, 3];
    let err = Attribute::parse(1, &body, &pool, Policy::Strict, 64).unwrap_err();
    assert_eq!(err, ClassError::UnknownAttribute { name: b"VendorX".to_vec() });
}

#[test]
fn body_must_be_consumed_exactly() {
    let pool = utf8_pool(&["ConstantValue"]);
    let body = vec![0u8, 5, 0];
    let err = Attribute::parse(1, &body, &pool, Policy::Strict, 64).unwrap_err();
    assert_eq!(
        err,
        ClassError::AttributeLengthMismatch {
            name: b"ConstantValue".to_vec(),
            declared: 3,
            consumed: 2,
        }
    );
}

#[test]
fn name_index_must_point_into_pool() {
    let pool = utf8_pool(&["ConstantValue"]);
    let err = Attribute::parse(0, &[], &pool, Policy::Strict, 64).unwrap_err();
    assert_eq!(err, ClassError::IndexOutOfBounds { index: 0 });
    let err = Attribute::parse(2, &[], &pool, Policy::Strict, 64).unwrap_err();
    assert_eq!(err, ClassError::IndexOutOfBounds { index: 2 });
}

#[test]
fn name_index_must_name_a_utf8_entry() {
    let pool = vec![ConstantPool::Integer(7)];
    let err = Attribute::parse(1, &[], &pool, Policy::Strict, 64).unwrap_err();
    assert_eq!(err, ClassError::PoolKindMismatch { index: 1 });
}

#[test]
fn simple_bodies_decode() {
    let pool = utf8_pool(&[
        "ConstantValue",
        "Synthetic",
        "Deprecated",
        "Signature",
        "SourceFile",
        "EnclosingMethod",
        "SourceDebugExtension",
        "ModuleMainClass",
        "NestHost",
    ]);
    let two = |a: u16| -> Vec<u8> { a.to_be_bytes().to_vec() };
    assert_eq!(
        Attribute::parse(1, &two(9), &pool, Policy::Strict, 64).unwrap(),
        Attribute::ConstantValue(9)
    );
    assert_eq!(
        Attribute::parse(2, &[], &pool, Policy::Strict, 64).unwrap(),
        Attribute::Synthetic
    );
    assert_eq!(
        Attribute::parse(3, &[], &pool, Policy::Strict, 64).unwrap(),
        Attribute::Deprecated
    );
    assert_eq!(
        Attribute::parse(4, &two(5), &pool, Policy::Strict, 64).unwrap(),
        Attribute::Signature(Signature { signature_index: 5 })
    );
    assert_eq!(
        Attribute::parse(5, &two(6), &pool, Policy::Strict, 64).unwrap(),
        Attribute::SourceFile(SourceFile { sourcefile_index: 6 })
    );
    let mut em = Vec::new();
    push_u16(&mut em, 3);
    push_u16(&mut em, 4);
    assert_eq!(
        Attribute::parse(6, &em, &pool, Policy::Strict, 64).unwrap(),
        Attribute::EnclosingMethod(EnclosingMethod { class_index: 3, method_index: 4 })
    );
    assert_eq!(
        Attribute::parse(7, &[0x61, 0x62], &pool, Policy::Strict, 64).unwrap(),
        Attribute::SourceDebugExtension(vec![0x61, 0x62])
    );
    assert_eq!(
        Attribute::parse(8, &two(2), &pool, Policy::Strict, 64).unwrap(),
        Attribute::ModuleMainClass(2)
    );
    assert_eq!(
        Attribute::parse(9, &two(3), &pool, Policy::Strict, 64).unwrap(),
        Attribute::NestHost(3)
    );
}

#[test]
fn index_list_bodies_decode() {
    let pool = utf8_pool(&["Exceptions", "NestMembers", "PermittedSubclasses", "ModulePackages"]);
    let mut body = Vec::new();
    push_u16(&mut body, 2);
    push_u16(&mut body, 7);
    push_u16(&mut body, 9);
    match Attribute::parse(1, &body, &pool, Policy::Strict, 64).unwrap() {
        Attribute::Exceptions(e) => assert_eq!(e.exception_index_table, vec![7, 9]),
        other => panic!("expected Exceptions, got {:?}", other),
    }
    assert_eq!(
        Attribute::parse(2, &body, &pool, Policy::Strict, 64).unwrap(),
        Attribute::NestMembers(vec![7, 9])
    );
    assert_eq!(
        Attribute::parse(3, &body, &pool, Policy::Strict, 64).unwrap(),
        Attribute::PermittedSubclasses(vec![7, 9])
    );
    assert_eq!(
        Attribute::parse(4, &body, &pool, Policy::Strict, 64).unwrap(),
        Attribute::ModulePackages(vec![7, 9])
    );
}

#[test]
fn record_components_decode() {
    let pool = utf8_pool(&["Record", "Signature"]);
    let mut body = Vec::new();
    push_u16(&mut body, 1); // one component
    push_u16(&mut body, 5); // name index
    push_u16(&mut body, 6); // descriptor index
    push_u16(&mut body, 1); // one nested attribute
    push_u16(&mut body, 2); // Signature
    push_u32(&mut body, 2);
    push_u16(&mut body, 9);
    match Attribute::parse(1, &body, &pool, Policy::Strict, 64).unwrap() {
        Attribute::Record(cs) => {
            assert_eq!(cs.len(), 1);
            assert_eq!(cs[0].name_index, 5);
            assert_eq!(cs[0].descriptor_index, 6);
            assert_eq!(cs[0].attributes, vec![Attribute::Signature(Signature {
                signature_index: 9,
            })]);
        },
        other => panic!("expected Record, got {:?}", other),
    }
}

#[test]
fn module_attribute_decodes() {
    let pool = utf8_pool(&["Module"]);
    let mut body = Vec::new();
    push_u16(&mut body, 3); // module name index
    push_u16(&mut body, 0x20); // module flags
    push_u16(&mut body, 4); // module version index
    push_u16(&mut body, 1); // requires count
    push_u16(&mut body, 5);
    push_u16(&mut body, 0);
    push_u16(&mut body, 6);
    push_u16(&mut body, 1); // exports count
    push_u16(&mut body, 7);
    push_u16(&mut body, 0);
    push_u16(&mut body, 1); // exports to count
    push_u16(&mut body, 8);
    push_u16(&mut body, 0); // opens count
    push_u16(&mut body, 1); // uses count
    push_u16(&mut body, 9);
    push_u16(&mut body, 1); // provides count
    push_u16(&mut body, 10);
    push_u16(&mut body, 1); // provides with count
    push_u16(&mut body, 11);
    match Attribute::parse(1, &body, &pool, Policy::Strict, 64).unwrap() {
        Attribute::Module(m) => {
            assert_eq!(m.module_name_index, 3);
            assert_eq!(m.module_flags, 0x20);
            assert_eq!(m.module_version_index, 4);
            assert_eq!(m.requires_entries.len(), 1);
            assert_eq!(m.requires_entries[0].requires_index, 5);
            assert_eq!(m.requires_entries[0].requires_version_index, 6);
            assert_eq!(m.exports.len(), 1);
            assert_eq!(m.exports[0].exports_index, 7);
            assert_eq!(m.exports[0].exports_to_index, vec![8]);
            assert!(m.opens.is_empty());
            assert_eq!(m.uses, vec![9]);
            assert_eq!(m.provides.len(), 1);
            assert_eq!(m.provides[0].provides_index, 10);
            assert_eq!(m.provides[0].provides_with_index, vec![11]);
        },
        other => panic!("expected Module, got {:?}", other),
    }
}

#[test]
fn bootstrap_methods_and_parameters_decode() {
    let pool = utf8_pool(&["BootstrapMethods", "MethodParameters"]);
    let mut body = Vec::new();
    push_u16(&mut body, 1);
    push_u16(&mut body, 3); // method ref
    push_u16(&mut body, 2); // two arguments
    push_u16(&mut body, 8);
    push_u16(&mut body, 9);
    match Attribute::parse(1, &body, &pool, Policy::Strict, 64).unwrap() {
        Attribute::BootstrapMethods(ms) => {
            assert_eq!(ms.len(), 1);
            assert_eq!(ms[0].bootstrap_method_ref, 3);
            assert_eq!(ms[0].bootstrap_arguments, vec![8, 9]);
        },
        other => panic!("expected BootstrapMethods, got {:?}", other),
    }
    let mut mp = Vec::new();
    mp.push(1); // one parameter (u8 count)
    push_u16(&mut mp, 4);
    push_u16(&mut mp, 0x10);
    match Attribute::parse(2, &mp, &pool, Policy::Strict, 64).unwrap() {
        Attribute::MethodParameters(ps) => {
            assert_eq!(ps.len(), 1);
            assert_eq!(ps[0].name_index, 4);
            assert_eq!(ps[0].access_flags, 0x10);
        },
        other => panic!("expected MethodParameters, got {:?}", other),
    }
}

#[test]
fn local_variable_tables_decode() {
    let pool = utf8_pool(&["LocalVariableTable", "LocalVariableTypeTable", "InnerClasses"]);
    let mut body = Vec::new();
    push_u16(&mut body, 1);
    for x in [0u16, 8, 2, 3, 0] {
        push_u16(&mut body, x);
    }
    match Attribute::parse(1, &body, &pool, Policy::Strict, 64).unwrap() {
        Attribute::LocalVariableTable(ls) => {
            assert_eq!(ls.len(), 1);
            assert_eq!(ls[0].length, 8);
            assert_eq!(ls[0].descriptor_index, 3);
        },
        other => panic!("expected LocalVariableTable, got {:?}", other),
    }
    match Attribute::parse(2, &body, &pool, Policy::Strict, 64).unwrap() {
        Attribute::LocalVariableTypeTable(ls) => {
            assert_eq!(ls.len(), 1);
            assert_eq!(ls[0].signature_index, 3);
        },
        other => panic!("expected LocalVariableTypeTable, got {:?}", other),
    }
    let mut ic = Vec::new();
    push_u16(&mut ic, 1);
    for x in [2u16, 3, 4, 0x19] {
        push_u16(&mut ic, x);
    }
    match Attribute::parse(3, &ic, &pool, Policy::Strict, 64).unwrap() {
        Attribute::InnerClasses(cs) => {
            assert_eq!(cs.classes.len(), 1);
            assert_eq!(cs.classes[0].inner_class_info_index, 2);
            assert_eq!(cs.classes[0].inner_class_access_flags, 0x19);
        },
        other => panic!("expected InnerClasses, got {:?}", other),
    }
}
