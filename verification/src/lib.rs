//! A verified decoder for the JVM class-file binary format.
//!
//! The decoder consumes a flat byte buffer and yields a fully typed tree:
//! the constant pool, field and method records, and the named attributes
//! with their sub-grammars (code, stack-map frames, annotations, module
//! descriptions, and the rest). Every multi-byte integer is big-endian.
//!
//! Each executable parser is specified against a mathematical mirror of
//! the grammar: a spec function over `Seq<u8>` that pins down exactly the
//! decoded value, the final cursor position, and the error on every
//! rejected input.

#![verifier::loop_isolation(false)]

pub mod err;
pub mod cursor;
pub mod mutf8;
pub mod constantpool;
pub mod records;
pub mod anno;
pub mod stackmap;
pub mod attribute;
pub mod member;
pub mod classfile;
pub mod validate;

pub use classfile::ClassFile;
pub use classfile::decode;
pub use err::ClassError;
pub use err::Policy;
