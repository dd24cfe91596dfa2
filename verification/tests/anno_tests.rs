//! Annotations, element values, and type annotations.

use classfile::anno::Annotation;
use classfile::anno::ElementValue;
use classfile::anno::TargetInfo;
use classfile::anno::TypeAnnotation;
use classfile::anno::parse_element_value;
use classfile::attribute::Attribute;
use classfile::constantpool::ConstantPool;
use classfile::err::ClassError;
use classfile::err::Policy;

fn push_u16(v: &mut Vec<u8>, x: u16) {
    v.extend_from_slice(&x.to_be_bytes());
}

fn utf8_pool(names: &[&str]) -> Vec<ConstantPool> {
    names.iter().map(|n| ConstantPool::UTF8(n.as_bytes().to_vec())).collect()
}

#[test]
fn element_value_kinds_decode() {
    // Constant kinds keep their ASCII tag.
    let mut v = Vec::new();
    v.push(b'I');
    push_u16(&mut v, 3);
    let (ev, p) = parse_element_value(&v, 0, 64).unwrap();
    assert_eq!(p, v.len());
    assert_eq!(ev, ElementValue::ConstValue(b'I', 3));

    let mut v = Vec::new();
    v.push(b'e');
    push_u16(&mut v, 4);
    push_u16(&mut v, 5);
    let (ev, _) = parse_element_value(&v, 0, 64).unwrap();
    assert_eq!(ev, ElementValue::EnumConstValue(4, 5));

    let mut v = Vec::new();
    v.push(b'c');
    push_u16(&mut v, 6);
    let (ev, _) = parse_element_value(&v, 0, 64).unwrap();
    assert_eq!(ev, ElementValue::ClassInfoIndex(6));

    // A nested annotation with one string-constant pair.
    let mut v = Vec::new();
    v.push(b'@');
    push_u16(&mut v, 7); // type index
    push_u16(&mut v, 1); // one pair
    push_u16(&mut v, 8); // element name
    v.push(b's');
    push_u16(&mut v, 9);
    let (ev, _) = parse_element_value(&v, 0, 64).unwrap();
    assert_eq!(
        ev,
        ElementValue::AnnotationValue(Annotation {
            type_index: 7,
            element_value_pairs: vec![(8, ElementValue::ConstValue(b's', 9))],
        })
    );

    // An array of two constants.
    let mut v = Vec::new();
    v.push(b'[');
    push_u16(&mut v, 2);
    v.push(b'Z');
    push_u16(&mut v, 1);
    v.push(b'Z');
    push_u16(&mut v, 0);
    let (ev, _) = parse_element_value(&v, 0, 64).unwrap();
    assert_eq!(
        ev,
        ElementValue::ArrayValue(vec![
            ElementValue::ConstValue(b'Z', 1),
            ElementValue::ConstValue(b'Z', 0),
        ])
    );
}

#[test]
fn unknown_element_value_tag_is_rejected() {
    let err = parse_element_value(&[b'x', 0, 0], 0, 64).unwrap_err();
    assert_eq!(err, ClassError::UnknownElementValueTag { tag: b'x', at: 0 });
}

#[test]
fn pathological_nesting_is_rejected() {
    // Deep towers of one-element arrays exhaust the depth bound.
    let mut v = Vec::new();
    for _ in 0..40 {
        v.push(b'[');
        push_u16(&mut v, 1);
    }
    v.push(b'B');
    push_u16(&mut v, 1);
    let err = parse_element_value(&v, 0, 64).unwrap_err();
    assert_eq!(err, ClassError::NestingTooDeep);
}

#[test]
fn runtime_annotations_attribute_decodes() {
    let pool = utf8_pool(&["RuntimeVisibleAnnotations"]);
    let mut body = Vec::new();
    push_u16(&mut body, 1); // one annotation
    push_u16(&mut body, 2); // type index
    push_u16(&mut body, 1); // one pair
    push_u16(&mut body, 3); // element name
    body.push(b'J');
    push_u16(&mut body, 4);
    match Attribute::parse(1, &body, &pool, Policy::Strict, 64).unwrap() {
        Attribute::RuntimeVisibleAnnotations(ans) => {
            assert_eq!(ans.len(), 1);
            assert_eq!(ans[0].type_index, 2);
            assert_eq!(ans[0].element_value_pairs, vec![(3, ElementValue::ConstValue(b'J', 4))]);
        },
        other => panic!("expected RuntimeVisibleAnnotations, got {:?}", other),
    }
}

#[test]
fn annotation_default_attribute_decodes() {
    let pool = utf8_pool(&["AnnotationDefault"]);
    let mut body = Vec::new();
    body.push(b'S');
    push_u16(&mut body, 11);
    assert_eq!(
        Attribute::parse(1, &body, &pool, Policy::Strict, 64).unwrap(),
        Attribute::AnnotationDefault(ElementValue::ConstValue(b'S', 11))
    );
}

#[test]
fn parameter_annotations_attribute_decodes() {
    let pool = utf8_pool(&["RuntimeInvisibleParameterAnnotations"]);
    let mut body = Vec::new();
    body.push(2); // two parameters (u8 count)
    push_u16(&mut body, 0); // first parameter: no annotations
    push_u16(&mut body, 1); // second parameter: one annotation
    push_u16(&mut body, 5);
    push_u16(&mut body, 0); // no pairs
    match Attribute::parse(1, &body, &pool, Policy::Strict, 64).unwrap() {
        Attribute::RuntimeInvisibleParameterAnnotations(ps) => {
            assert_eq!(ps.len(), 2);
            assert!(ps[0].annotations.is_empty());
            assert_eq!(ps[1].annotations.len(), 1);
            assert_eq!(ps[1].annotations[0].type_index, 5);
        },
        other => panic!("expected parameter annotations, got {:?}", other),
    }
}

#[test]
fn type_annotation_decodes() {
    // Target 0x13 (field) has an empty target info; one path step; no pairs.
    let mut v = Vec::new();
    v.push(0x13);
    v.push(1); // path length
    v.push(2); // type path kind
    v.push(0); // type argument index
    push_u16(&mut v, 9); // type index
    push_u16(&mut v, 0); // no pairs
    let (ta, p) = TypeAnnotation::parse(&v, 0, 64).unwrap();
    assert_eq!(p, v.len());
    assert_eq!(ta.target_type, 0x13);
    assert_eq!(ta.target_info, TargetInfo::Empty);
    assert_eq!(ta.target_path.path.len(), 1);
    assert_eq!(ta.target_path.path[0].type_path_kind, 2);
    assert_eq!(ta.type_index, 9);
    assert!(ta.element_value_pairs.is_empty());
}

#[test]
fn target_info_variants_decode() {
    assert_eq!(TargetInfo::parse(&[5], 0, 0x00).unwrap().0, TargetInfo::TypeParameter(5));
    assert_eq!(TargetInfo::parse(&[0, 7], 0, 0x10).unwrap().0, TargetInfo::SuperType(7));
    assert_eq!(
        TargetInfo::parse(&[1, 2], 0, 0x11).unwrap().0,
        TargetInfo::TypeParameterBound(1, 2)
    );
    assert_eq!(TargetInfo::parse(&[], 0, 0x14).unwrap().0, TargetInfo::Empty);
    assert_eq!(TargetInfo::parse(&[3], 0, 0x16).unwrap().0, TargetInfo::FormalParameter(3));
    assert_eq!(TargetInfo::parse(&[0, 4], 0, 0x17).unwrap().0, TargetInfo::Throws(4));
    let lv = TargetInfo::parse(&[0, 1, 0, 2, 0, 8, 0, 1], 0, 0x40).unwrap().0;
    match lv {
        TargetInfo::LocalVar(t) => {
            assert_eq!(t.len(), 1);
            assert_eq!(t[0].start_pc, 2);
            assert_eq!(t[0].length, 8);
            assert_eq!(t[0].index, 1);
        },
        other => panic!("expected a local-variable target, got {:?}", other),
    }
    assert_eq!(TargetInfo::parse(&[0, 5], 0, 0x42).unwrap().0, TargetInfo::Catch(5));
    assert_eq!(TargetInfo::parse(&[0, 6], 0, 0x43).unwrap().0, TargetInfo::Offset(6));
    assert_eq!(
        TargetInfo::parse(&[0, 7, 1], 0, 0x47).unwrap().0,
        TargetInfo::TypeArgument(7, 1)
    );
}

#[test]
fn unknown_target_type_is_rejected() {
    let err = TargetInfo::parse(&[], 0, 0xFE).unwrap_err();
    assert_eq!(err, ClassError::UnknownTargetType { tag: 0xFE, at: 0 });
}

#[test]
fn type_annotations_attribute_decodes() {
    let pool = utf8_pool(&["RuntimeVisibleTypeAnnotations"]);
    let mut body = Vec::new();
    push_u16(&mut body, 1); // one type annotation
    body.push(0x13);
    body.push(0); // empty path
    push_u16(&mut body, 3); // type index
    push_u16(&mut body, 0); // no pairs
    match Attribute::parse(1, &body, &pool, Policy::Strict, 64).unwrap() {
        Attribute::RuntimeVisibleTypeAnnotations(ts) => {
            assert_eq!(ts.len(), 1);
            assert_eq!(ts[0].type_index, 3);
        },
        other => panic!("expected type annotations, got {:?}", other),
    }
}
