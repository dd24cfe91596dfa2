//! The error taxonomy of the decoder, and the policy switch for unknown
//! attribute names.

use vstd::prelude::*;

verus! {

/// How the attribute dispatcher treats an attribute whose name is not one
/// of the JVM-defined names it knows.
///
/// Under `Strict` an unknown name is a decode failure; under `Lenient` the
/// raw envelope is retained as an `Unknown` attribute so that vendor
/// attributes survive decoding.
#[derive(Clone, Copy, Debug, PartialEq, Eq, Structural)]
pub enum Policy {
    Strict,
    Lenient,
}

impl DeepView for Policy {
    type V = Policy;

    open spec fn deep_view(&self) -> Policy {
        *self
    }
}

/// A structured decode failure. Every error is fatal to the current decode;
/// partial trees are never returned. Offsets count bytes from the start of
/// the buffer handed to the failing parser (the whole class file for the
/// shell and the constant pool, the attribute body for a sub-grammar).
#[derive(Debug, Clone, PartialEq, Eq)]
pub enum ClassError {
    /// The slice was exhausted in the middle of a field.
    UnexpectedEof { at: usize, need: usize, have: usize },
    /// The first four bytes are not `CA FE BA BE`.
    BadMagic { found: u32 },
    /// A constant-pool tag byte outside the defined table.
    UnknownConstantTag { tag: u8, at: usize },
    /// A `UTF8` pool entry whose bytes are not well-formed Modified-UTF-8.
    BadUtf8 { at: usize },
    /// Strict policy only: an attribute name outside the JVM-defined set.
    UnknownAttribute { name: Vec<u8> },
    /// An attribute sub-grammar did not consume exactly the declared length.
    AttributeLengthMismatch { name: Vec<u8>, declared: usize, consumed: usize },
    /// A stack-map frame type byte outside the defined ranges.
    UnknownStackMapFrame { tag: u8, at: usize },
    /// A verification-type tag greater than 8.
    UnknownVerificationTag { tag: u8, at: usize },
    /// An element-value tag outside the ten-entry table.
    UnknownElementValueTag { tag: u8, at: usize },
    /// A type-annotation target type outside the JVM-defined table.
    UnknownTargetType { tag: u8, at: usize },
    /// A constant-pool index that is 0, beyond the declared count, or the
    /// reserved successor slot of a `Long` or `Double`.
    IndexOutOfBounds { index: u16 },
    /// The pool entry named by an attribute's name index is not a `UTF8`.
    PoolKindMismatch { index: u16 },
    /// Residual bytes after the top-level class-file structure.
    TrailingBytes { extra: usize },
    /// Recursion in the grammar exceeded the fixed depth bound.
    NestingTooDeep,
}

/// The mathematical shape of a `ClassError`: byte runs become sequences and
/// offsets become unbounded integers, so that the grammar mirror can state
/// exactly which error each rejected input produces.
#[verifier::ext_equal]
pub enum SpecError {
    UnexpectedEof { at: int, need: int, have: int },
    BadMagic { found: u32 },
    UnknownConstantTag { tag: u8, at: int },
    BadUtf8 { at: int },
    UnknownAttribute { name: Seq<u8> },
    AttributeLengthMismatch { name: Seq<u8>, declared: int, consumed: int },
    UnknownStackMapFrame { tag: u8, at: int },
    UnknownVerificationTag { tag: u8, at: int },
    UnknownElementValueTag { tag: u8, at: int },
    UnknownTargetType { tag: u8, at: int },
    IndexOutOfBounds { index: u16 },
    PoolKindMismatch { index: u16 },
    TrailingBytes { extra: int },
    NestingTooDeep,
}

impl DeepView for ClassError {
    type V = SpecError;

    open spec fn deep_view(&self) -> SpecError {
        match self {
            ClassError::UnexpectedEof { at, need, have } => SpecError::UnexpectedEof {
                at: *at as int,
                need: *need as int,
                have: *have as int,
            },
            ClassError::BadMagic { found } => SpecError::BadMagic { found: *found },
            ClassError::UnknownConstantTag { tag, at } => SpecError::UnknownConstantTag {
                tag: *tag,
                at: *at as int,
            },
            ClassError::BadUtf8 { at } => SpecError::BadUtf8 { at: *at as int },
            ClassError::UnknownAttribute { name } => SpecError::UnknownAttribute { name: name@ },
            ClassError::AttributeLengthMismatch { name, declared, consumed } => {
                SpecError::AttributeLengthMismatch {
                    name: name@,
                    declared: *declared as int,
                    consumed: *consumed as int,
                }
            },
            ClassError::UnknownStackMapFrame { tag, at } => SpecError::UnknownStackMapFrame {
                tag: *tag,
                at: *at as int,
            },
            ClassError::UnknownVerificationTag { tag, at } => SpecError::UnknownVerificationTag {
                tag: *tag,
                at: *at as int,
            },
            ClassError::UnknownElementValueTag { tag, at } => SpecError::UnknownElementValueTag {
                tag: *tag,
                at: *at as int,
            },
            ClassError::UnknownTargetType { tag, at } => SpecError::UnknownTargetType {
                tag: *tag,
                at: *at as int,
            },
            ClassError::IndexOutOfBounds { index } => SpecError::IndexOutOfBounds { index: *index },
            ClassError::PoolKindMismatch { index } => SpecError::PoolKindMismatch { index: *index },
            ClassError::TrailingBytes { extra } => SpecError::TrailingBytes {
                extra: *extra as int,
            },
            ClassError::NestingTooDeep => SpecError::NestingTooDeep,
        }
    }
}

} // verus!
