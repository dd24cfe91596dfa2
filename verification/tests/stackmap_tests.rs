//! Stack-map frames: the tag ranges and their payloads.

use classfile::err::ClassError;
use classfile::stackmap::StackMapFrame;
use classfile::stackmap::StackMapTable;
use classfile::stackmap::VerificationTypeInfo;

#[test]
fn five_frame_kinds_decode_in_order() {
    let mut v: Vec<u8> = Vec::new();
    v.extend_from_slice(&5u16.to_be_bytes()); // number of entries
    v.push(0x00); // SameFrame, delta 0
    v.extend_from_slice(&[0x40, 0x01]); // SameLocals1StackItemFrame, Integer
    v.extend_from_slice(&[0xFA, 0x00, 0x05]); // ChopFrame, k = 1, delta 5
    v.extend_from_slice(&[0xFD, 0x00, 0x07, 0x01, 0x01]); // AppendFrame, k = 2
    v.extend_from_slice(&[0xFF, 0x00, 0x00, 0x00, 0x00, 0x00, 0x00]); // FullFrame, empty
    let (table, pos) = StackMapTable::parse(&v, 0).unwrap();
    assert_eq!(pos, v.len());
    assert_eq!(table.entries.len(), 5);
    assert_eq!(table.entries[0], StackMapFrame::SameFrame(0));
    assert_eq!(
        table.entries[1],
        StackMapFrame::SameLocals1StackItemFrame(0, VerificationTypeInfo::IntegerVariableInfo)
    );
    assert_eq!(table.entries[2], StackMapFrame::ChopFrame(1, 5));
    assert_eq!(
        table.entries[3],
        StackMapFrame::AppendFrame(
            7,
            vec![
                VerificationTypeInfo::IntegerVariableInfo,
                VerificationTypeInfo::IntegerVariableInfo,
            ]
        )
    );
    assert_eq!(table.entries[4], StackMapFrame::FullFrame(0, 0, vec![], 0, vec![]));
}

#[test]
fn extended_frames_decode() {
    // SameLocals1StackItemFrameExtended with an Object entry, then
    // SameFrameExtended.
    let v: Vec<u8> = vec![0xF7, 0x00, 0x09, 0x07, 0x00, 0x02, 0xFB, 0x00, 0x0A];
    let (f1, p1) = StackMapFrame::parse(&v, 0).unwrap();
    assert_eq!(
        f1,
        StackMapFrame::SameLocals1StackItemFrameExtended(
            9,
            VerificationTypeInfo::ObjectVariableInfo(2)
        )
    );
    let (f2, p2) = StackMapFrame::parse(&v, p1).unwrap();
    assert_eq!(f2, StackMapFrame::SameFrameExtended(10));
    assert_eq!(p2, v.len());
}

#[test]
fn same_frame_keeps_its_tag_delta() {
    let (f, _) = StackMapFrame::parse(&[0x3F], 0).unwrap();
    assert_eq!(f, StackMapFrame::SameFrame(63));
    let (f, _) = StackMapFrame::parse(&[0x7F, 0x05], 0).unwrap();
    assert_eq!(
        f,
        StackMapFrame::SameLocals1StackItemFrame(63, VerificationTypeInfo::NullVariableInfo)
    );
}

#[test]
fn reserved_frame_tags_are_rejected() {
    // 128..=246 select no frame kind.
    let err = StackMapFrame::parse(&[0x80], 0).unwrap_err();
    assert_eq!(err, ClassError::UnknownStackMapFrame { tag: 0x80, at: 0 });
    let err = StackMapFrame::parse(&[0xF6], 0).unwrap_err();
    assert_eq!(err, ClassError::UnknownStackMapFrame { tag: 0xF6, at: 0 });
}

#[test]
fn all_verification_tags_decode() {
    let v: Vec<u8> = vec![0, 1, 2, 3, 4, 5, 6, 7, 0x00, 0x09, 8, 0x00, 0x0B];
    let mut pos = 0usize;
    let mut got = Vec::new();
    for _ in 0..9 {
        let (t, p) = VerificationTypeInfo::parse(&v, pos).unwrap();
        got.push(t);
        pos = p;
    }
    assert_eq!(pos, v.len());
    assert_eq!(
        got,
        vec![
            VerificationTypeInfo::TopVariableInfo,
            VerificationTypeInfo::IntegerVariableInfo,
            VerificationTypeInfo::FloatVariableInfo,
            VerificationTypeInfo::DoubleVariableInfo,
            VerificationTypeInfo::LongVariableInfo,
            VerificationTypeInfo::NullVariableInfo,
            VerificationTypeInfo::UninitializedThisVariableInfo,
            VerificationTypeInfo::ObjectVariableInfo(9),
            VerificationTypeInfo::UninitializedVariableInfo(11),
        ]
    );
}

#[test]
fn verification_tag_past_eight_is_rejected() {
    let err = VerificationTypeInfo::parse(&[9], 0).unwrap_err();
    assert_eq!(err, ClassError::UnknownVerificationTag { tag: 9, at: 0 });
}
