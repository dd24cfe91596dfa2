//! The primitive cursor: big-endian reads, byte runs, and end-of-input.

use classfile::cursor::read_bytes;
use classfile::cursor::read_i32;
use classfile::cursor::read_i64;
use classfile::cursor::read_u16;
use classfile::cursor::read_u32;
use classfile::cursor::read_u64;
use classfile::cursor::read_u8;
use classfile::err::ClassError;
use classfile::mutf8::check_mutf8;

#[test]
fn big_endian_reads_are_exact() {
    let v = [0x12u8, 0x34, 0x56, 0x78, 0x9A, 0xBC, 0xDE, 0xF0];
    assert_eq!(read_u8(&v, 0).unwrap(), (0x12, 1));
    assert_eq!(read_u16(&v, 0).unwrap(), (0x1234, 2));
    assert_eq!(read_u16(&v, 1).unwrap(), (0x3456, 3));
    assert_eq!(read_u32(&v, 0).unwrap(), (0x1234_5678, 4));
    assert_eq!(read_u64(&v, 0).unwrap(), (0x1234_5678_9ABC_DEF0, 8));
}

#[test]
fn signed_reads_use_twos_complement() {
    let v = [0xFFu8, 0xFF, 0xFF, 0xFE];
    assert_eq!(read_i32(&v, 0).unwrap(), (-2, 4));
    let v = [0x80u8, 0x00, 0x00, 0x00];
    assert_eq!(read_i32(&v, 0).unwrap(), (i32::MIN, 4));
    let v = [0x7Fu8, 0xFF, 0xFF, 0xFF];
    assert_eq!(read_i32(&v, 0).unwrap(), (i32::MAX, 4));
    let v = [0xFFu8; 8];
    assert_eq!(read_i64(&v, 0).unwrap(), (-1, 8));
    let v = [0x80u8, 0, 0, 0, 0, 0, 0, 0];
    assert_eq!(read_i64(&v, 0).unwrap(), (i64::MIN, 8));
}

#[test]
fn byte_runs_are_copied_exactly() {
    let v = [1u8, 2, 3, 4, 5];
    let (run, pos) = read_bytes(&v, 1, 3).unwrap();
    assert_eq!(run, vec![2, 3, 4]);
    assert_eq!(pos, 4);
    let (run, pos) = read_bytes(&v, 5, 0).unwrap();
    assert!(run.is_empty());
    assert_eq!(pos, 5);
}

#[test]
fn short_reads_report_need_and_have() {
    let v = [1u8, 2, 3];
    assert_eq!(
        read_u32(&v, 1).unwrap_err(),
        ClassError::UnexpectedEof { at: 1, need: 4, have: 2 }
    );
    assert_eq!(
        read_u16(&v, 3).unwrap_err(),
        ClassError::UnexpectedEof { at: 3, need: 2, have: 0 }
    );
    assert_eq!(
        read_bytes(&v, 0, 9).unwrap_err(),
        ClassError::UnexpectedEof { at: 0, need: 9, have: 3 }
    );
}

#[test]
fn modified_utf8_well_formedness() {
    assert!(check_mutf8(b"hello"));
    assert!(check_mutf8(&[]));
    assert!(check_mutf8(&[0xC0, 0x80])); // two-byte NUL
    assert!(check_mutf8(&[0xE4, 0xB8, 0xAD]));
    assert!(!check_mutf8(&[0x00])); // raw NUL
    assert!(!check_mutf8(&[0xC0])); // truncated pair
    assert!(!check_mutf8(&[0xE4, 0xB8])); // truncated triple
    assert!(!check_mutf8(&[0xF0, 0x9F, 0x98, 0x80])); // four-byte sequence
    assert!(!check_mutf8(&[0x80])); // stray continuation
    assert!(!check_mutf8(&[0xC2, 0x20])); // bad continuation
}
