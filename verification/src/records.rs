//! The fixed-shape records of the attribute grammars: exception-table rows,
//! inner classes, line numbers, local variables, type paths, bootstrap
//! methods, method parameters, and the module description with its
//! requires / exports / opens / provides tables.
//!
//! Each record is a straight sequence of big-endian fields; each list is a
//! run of records whose count was read by the caller. Every parser is
//! specified exactly against its grammar mirror.

use vstd::prelude::*;

use crate::cursor::advances;
use crate::cursor::read_u16;
use crate::cursor::read_u16_list;
use crate::cursor::read_u8;
use crate::cursor::res_eq;
use crate::cursor::sp_u16;
use crate::cursor::sp_u16_list;
use crate::cursor::sp_u8;
use crate::err::ClassError;
use crate::err::SpecError;

verus! {

/// `Exception` record: `start_pc`, `end_pc`, `handler_pc`, `catch_type`.
#[derive(Debug, Clone, Copy, PartialEq, Eq)]
pub struct Exception {
    pub start_pc: u16,
    pub end_pc: u16,
    pub handler_pc: u16,
    pub catch_type: u16,
}

impl DeepView for Exception {
    type V = Exception;

    open spec fn deep_view(&self) -> Exception {
        *self
    }
}

/// Mirror of `Exception::parse`.
pub open spec fn sp_exception(s: Seq<u8>, i: int) -> Result<(Exception, int), SpecError> {
    match sp_u16(s, i) {
        Result::Err(e) => Result::Err(e),
        Result::Ok((f0, j0)) => {
            match sp_u16(s, j0) {
                Result::Err(e) => Result::Err(e),
                Result::Ok((f1, j1)) => {
                    match sp_u16(s, j1) {
                        Result::Err(e) => Result::Err(e),
                        Result::Ok((f2, j2)) => {
                            match sp_u16(s, j2) {
                                Result::Err(e) => Result::Err(e),
                                Result::Ok((f3, j3)) => {
                                    Result::Ok((Exception { start_pc: f0, end_pc: f1, handler_pc: f2, catch_type: f3 }, j3))
                                },
                            }
                        },
                    }
                },
            }
        },
    }
}

impl Exception {
    /// Read one `Exception` record.
    pub fn parse(s: &[u8], pos: usize) -> (r: Result<(Exception, usize), ClassError>)
        requires
            pos <= s@.len(),
        ensures
            res_eq(r, sp_exception(s@, pos as int)),
            advances(r, pos, s@.len() as int),
    {
        let (f0, j0) = match read_u16(s, pos) {
            Ok(v) => v,
            Err(e) => {
                return Err(e);
            },
        };
        let (f1, j1) = match read_u16(s, j0) {
            Ok(v) => v,
            Err(e) => {
                return Err(e);
            },
        };
        let (f2, j2) = match read_u16(s, j1) {
            Ok(v) => v,
            Err(e) => {
                return Err(e);
            },
        };
        let (f3, j3) = match read_u16(s, j2) {
            Ok(v) => v,
            Err(e) => {
                return Err(e);
            },
        };
        Ok((Exception { start_pc: f0, end_pc: f1, handler_pc: f2, catch_type: f3 }, j3))
    }
}

/// `InnerClass` record: `inner_class_info_index`, `outer_class_info_index`, `inner_name_index`, `inner_class_access_flags`.
#[derive(Debug, Clone, Copy, PartialEq, Eq)]
pub struct InnerClass {
    pub inner_class_info_index: u16,
    pub outer_class_info_index: u16,
    pub inner_name_index: u16,
    pub inner_class_access_flags: u16,
}

impl DeepView for InnerClass {
    type V = InnerClass;

    open spec fn deep_view(&self) -> InnerClass {
        *self
    }
}

/// Mirror of `InnerClass::parse`.
pub open spec fn sp_inner_class(s: Seq<u8>, i: int) -> Result<(InnerClass, int), SpecError> {
    match sp_u16(s, i) {
        Result::Err(e) => Result::Err(e),
        Result::Ok((f0, j0)) => {
            match sp_u16(s, j0) {
                Result::Err(e) => Result::Err(e),
                Result::Ok((f1, j1)) => {
                    match sp_u16(s, j1) {
                        Result::Err(e) => Result::Err(e),
                        Result::Ok((f2, j2)) => {
                            match sp_u16(s, j2) {
                                Result::Err(e) => Result::Err(e),
                                Result::Ok((f3, j3)) => {
                                    Result::Ok((InnerClass { inner_class_info_index: f0, outer_class_info_index: f1, inner_name_index: f2, inner_class_access_flags: f3 }, j3))
                                },
                            }
                        },
                    }
                },
            }
        },
    }
}

impl InnerClass {
    /// Read one `InnerClass` record.
    pub fn parse(s: &[u8], pos: usize) -> (r: Result<(InnerClass, usize), ClassError>)
        requires
            pos <= s@.len(),
        ensures
            res_eq(r, sp_inner_class(s@, pos as int)),
            advances(r, pos, s@.len() as int),
    {
        let (f0, j0) = match read_u16(s, pos) {
            Ok(v) => v,
            Err(e) => {
                return Err(e);
            },
        };
        let (f1, j1) = match read_u16(s, j0) {
            Ok(v) => v,
            Err(e) => {
                return Err(e);
            },
        };
        let (f2, j2) = match read_u16(s, j1) {
            Ok(v) => v,
            Err(e) => {
                return Err(e);
            },
        };
        let (f3, j3) = match read_u16(s, j2) {
            Ok(v) => v,
            Err(e) => {
                return Err(e);
            },
        };
        Ok((InnerClass { inner_class_info_index: f0, outer_class_info_index: f1, inner_name_index: f2, inner_class_access_flags: f3 }, j3))
    }
}

/// `EnclosingMethod` record: `class_index`, `method_index`.
#[derive(Debug, Clone, Copy, PartialEq, Eq)]
pub struct EnclosingMethod {
    pub class_index: u16,
    pub method_index: u16,
}

impl DeepView for EnclosingMethod {
    type V = EnclosingMethod;

    open spec fn deep_view(&self) -> EnclosingMethod {
        *self
    }
}

/// Mirror of `EnclosingMethod::parse`.
pub open spec fn sp_enclosing_method(s: Seq<u8>, i: int) -> Result<(EnclosingMethod, int), SpecError> {
    match sp_u16(s, i) {
        Result::Err(e) => Result::Err(e),
        Result::Ok((f0, j0)) => {
            match sp_u16(s, j0) {
                Result::Err(e) => Result::Err(e),
                Result::Ok((f1, j1)) => {
                    Result::Ok((EnclosingMethod { class_index: f0, method_index: f1 }, j1))
                },
            }
        },
    }
}

impl EnclosingMethod {
    /// Read one `EnclosingMethod` record.
    pub fn parse(s: &[u8], pos: usize) -> (r: Result<(EnclosingMethod, usize), ClassError>)
        requires
            pos <= s@.len(),
        ensures
            res_eq(r, sp_enclosing_method(s@, pos as int)),
            advances(r, pos, s@.len() as int),
    {
        let (f0, j0) = match read_u16(s, pos) {
            Ok(v) => v,
            Err(e) => {
                return Err(e);
            },
        };
        let (f1, j1) = match read_u16(s, j0) {
            Ok(v) => v,
            Err(e) => {
                return Err(e);
            },
        };
        Ok((EnclosingMethod { class_index: f0, method_index: f1 }, j1))
    }
}

/// `Signature` record: `signature_index`.
#[derive(Debug, Clone, Copy, PartialEq, Eq)]
pub struct Signature {
    pub signature_index: u16,
}

impl DeepView for Signature {
    type V = Signature;

    open spec fn deep_view(&self) -> Signature {
        *self
    }
}

/// Mirror of `Signature::parse`.
pub open spec fn sp_signature(s: Seq<u8>, i: int) -> Result<(Signature, int), SpecError> {
    match sp_u16(s, i) {
        Result::Err(e) => Result::Err(e),
        Result::Ok((f0, j0)) => {
            Result::Ok((Signature { signature_index: f0 }, j0))
        },
    }
}

impl Signature {
    /// Read one `Signature` record.
    pub fn parse(s: &[u8], pos: usize) -> (r: Result<(Signature, usize), ClassError>)
        requires
            pos <= s@.len(),
        ensures
            res_eq(r, sp_signature(s@, pos as int)),
            advances(r, pos, s@.len() as int),
    {
        let (f0, j0) = match read_u16(s, pos) {
            Ok(v) => v,
            Err(e) => {
                return Err(e);
            },
        };
        Ok((Signature { signature_index: f0 }, j0))
    }
}

/// `SourceFile` record: `sourcefile_index`.
#[derive(Debug, Clone, Copy, PartialEq, Eq)]
pub struct SourceFile {
    pub sourcefile_index: u16,
}

impl DeepView for SourceFile {
    type V = SourceFile;

    open spec fn deep_view(&self) -> SourceFile {
        *self
    }
}

/// Mirror of `SourceFile::parse`.
pub open spec fn sp_source_file(s: Seq<u8>, i: int) -> Result<(SourceFile, int), SpecError> {
    match sp_u16(s, i) {
        Result::Err(e) => Result::Err(e),
        Result::Ok((f0, j0)) => {
            Result::Ok((SourceFile { sourcefile_index: f0 }, j0))
        },
    }
}

impl SourceFile {
    /// Read one `SourceFile` record.
    pub fn parse(s: &[u8], pos: usize) -> (r: Result<(SourceFile, usize), ClassError>)
        requires
            pos <= s@.len(),
        ensures
            res_eq(r, sp_source_file(s@, pos as int)),
            advances(r, pos, s@.len() as int),
    {
        let (f0, j0) = match read_u16(s, pos) {
            Ok(v) => v,
            Err(e) => {
                return Err(e);
            },
        };
        Ok((SourceFile { sourcefile_index: f0 }, j0))
    }
}

/// `LineNumber` record: `start_pc`, `line_number`.
#[derive(Debug, Clone, Copy, PartialEq, Eq)]
pub struct LineNumber {
    pub start_pc: u16,
    pub line_number: u16,
}

impl DeepView for LineNumber {
    type V = LineNumber;

    open spec fn deep_view(&self) -> LineNumber {
        *self
    }
}

/// Mirror of `LineNumber::parse`.
pub open spec fn sp_line_number(s: Seq<u8>, i: int) -> Result<(LineNumber, int), SpecError> {
    match sp_u16(s, i) {
        Result::Err(e) => Result::Err(e),
        Result::Ok((f0, j0)) => {
            match sp_u16(s, j0) {
                Result::Err(e) => Result::Err(e),
                Result::Ok((f1, j1)) => {
                    Result::Ok((LineNumber { start_pc: f0, line_number: f1 }, j1))
                },
            }
        },
    }
}

impl LineNumber {
    /// Read one `LineNumber` record.
    pub fn parse(s: &[u8], pos: usize) -> (r: Result<(LineNumber, usize), ClassError>)
        requires
            pos <= s@.len(),
        ensures
            res_eq(r, sp_line_number(s@, pos as int)),
            advances(r, pos, s@.len() as int),
    {
        let (f0, j0) = match read_u16(s, pos) {
            Ok(v) => v,
            Err(e) => {
                return Err(e);
            },
        };
        let (f1, j1) = match read_u16(s, j0) {
            Ok(v) => v,
            Err(e) => {
                return Err(e);
            },
        };
        Ok((LineNumber { start_pc: f0, line_number: f1 }, j1))
    }
}

/// `LocalVariable` record: `start_pc`, `length`, `name_index`, `descriptor_index`, `index`.
#[derive(Debug, Clone, Copy, PartialEq, Eq)]
pub struct LocalVariable {
    pub start_pc: u16,
    pub length: u16,
    pub name_index: u16,
    pub descriptor_index: u16,
    pub index: u16,
}

impl DeepView for LocalVariable {
    type V = LocalVariable;

    open spec fn deep_view(&self) -> LocalVariable {
        *self
    }
}

/// Mirror of `LocalVariable::parse`.
pub open spec fn sp_local_variable(s: Seq<u8>, i: int) -> Result<(LocalVariable, int), SpecError> {
    match sp_u16(s, i) {
        Result::Err(e) => Result::Err(e),
        Result::Ok((f0, j0)) => {
            match sp_u16(s, j0) {
                Result::Err(e) => Result::Err(e),
                Result::Ok((f1, j1)) => {
                    match sp_u16(s, j1) {
                        Result::Err(e) => Result::Err(e),
                        Result::Ok((f2, j2)) => {
                            match sp_u16(s, j2) {
                                Result::Err(e) => Result::Err(e),
                                Result::Ok((f3, j3)) => {
                                    match sp_u16(s, j3) {
                                        Result::Err(e) => Result::Err(e),
                                        Result::Ok((f4, j4)) => {
                                            Result::Ok((LocalVariable { start_pc: f0, length: f1, name_index: f2, descriptor_index: f3, index: f4 }, j4))
                                        },
                                    }
                                },
                            }
                        },
                    }
                },
            }
        },
    }
}

impl LocalVariable {
    /// Read one `LocalVariable` record.
    pub fn parse(s: &[u8], pos: usize) -> (r: Result<(LocalVariable, usize), ClassError>)
        requires
            pos <= s@.len(),
        ensures
            res_eq(r, sp_local_variable(s@, pos as int)),
            advances(r, pos, s@.len() as int),
    {
        let (f0, j0) = match read_u16(s, pos) {
            Ok(v) => v,
            Err(e) => {
                return Err(e);
            },
        };
        let (f1, j1) = match read_u16(s, j0) {
            Ok(v) => v,
            Err(e) => {
                return Err(e);
            },
        };
        let (f2, j2) = match read_u16(s, j1) {
            Ok(v) => v,
            Err(e) => {
                return Err(e);
            },
        };
        let (f3, j3) = match read_u16(s, j2) {
            Ok(v) => v,
            Err(e) => {
                return Err(e);
            },
        };
        let (f4, j4) = match read_u16(s, j3) {
            Ok(v) => v,
            Err(e) => {
                return Err(e);
            },
        };
        Ok((LocalVariable { start_pc: f0, length: f1, name_index: f2, descriptor_index: f3, index: f4 }, j4))
    }
}

/// `LocalVariableType` record: `start_pc`, `length`, `name_index`, `signature_index`, `index`.
#[derive(Debug, Clone, Copy, PartialEq, Eq)]
pub struct LocalVariableType {
    pub start_pc: u16,
    pub length: u16,
    pub name_index: u16,
    pub signature_index: u16,
    pub index: u16,
}

impl DeepView for LocalVariableType {
    type V = LocalVariableType;

    open spec fn deep_view(&self) -> LocalVariableType {
        *self
    }
}

/// Mirror of `LocalVariableType::parse`.
pub open spec fn sp_local_variable_type(s: Seq<u8>, i: int) -> Result<(LocalVariableType, int), SpecError> {
    match sp_u16(s, i) {
        Result::Err(e) => Result::Err(e),
        Result::Ok((f0, j0)) => {
            match sp_u16(s, j0) {
                Result::Err(e) => Result::Err(e),
                Result::Ok((f1, j1)) => {
                    match sp_u16(s, j1) {
                        Result::Err(e) => Result::Err(e),
                        Result::Ok((f2, j2)) => {
                            match sp_u16(s, j2) {
                                Result::Err(e) => Result::Err(e),
                                Result::Ok((f3, j3)) => {
                                    match sp_u16(s, j3) {
                                        Result::Err(e) => Result::Err(e),
                                        Result::Ok((f4, j4)) => {
                                            Result::Ok((LocalVariableType { start_pc: f0, length: f1, name_index: f2, signature_index: f3, index: f4 }, j4))
                                        },
                                    }
                                },
                            }
                        },
                    }
                },
            }
        },
    }
}

impl LocalVariableType {
    /// Read one `LocalVariableType` record.
    pub fn parse(s: &[u8], pos: usize) -> (r: Result<(LocalVariableType, usize), ClassError>)
        requires
            pos <= s@.len(),
        ensures
            res_eq(r, sp_local_variable_type(s@, pos as int)),
            advances(r, pos, s@.len() as int),
    {
        let (f0, j0) = match read_u16(s, pos) {
            Ok(v) => v,
            Err(e) => {
                return Err(e);
            },
        };
        let (f1, j1) = match read_u16(s, j0) {
            Ok(v) => v,
            Err(e) => {
                return Err(e);
            },
        };
        let (f2, j2) = match read_u16(s, j1) {
            Ok(v) => v,
            Err(e) => {
                return Err(e);
            },
        };
        let (f3, j3) = match read_u16(s, j2) {
            Ok(v) => v,
            Err(e) => {
                return Err(e);
            },
        };
        let (f4, j4) = match read_u16(s, j3) {
            Ok(v) => v,
            Err(e) => {
                return Err(e);
            },
        };
        Ok((LocalVariableType { start_pc: f0, length: f1, name_index: f2, signature_index: f3, index: f4 }, j4))
    }
}

/// `LocalVar` record: `start_pc`, `length`, `index`.
#[derive(Debug, Clone, Copy, PartialEq, Eq)]
pub struct LocalVar {
    pub start_pc: u16,
    pub length: u16,
    pub index: u16,
}

impl DeepView for LocalVar {
    type V = LocalVar;

    open spec fn deep_view(&self) -> LocalVar {
        *self
    }
}

/// Mirror of `LocalVar::parse`.
pub open spec fn sp_local_var(s: Seq<u8>, i: int) -> Result<(LocalVar, int), SpecError> {
    match sp_u16(s, i) {
        Result::Err(e) => Result::Err(e),
        Result::Ok((f0, j0)) => {
            match sp_u16(s, j0) {
                Result::Err(e) => Result::Err(e),
                Result::Ok((f1, j1)) => {
                    match sp_u16(s, j1) {
                        Result::Err(e) => Result::Err(e),
                        Result::Ok((f2, j2)) => {
                            Result::Ok((LocalVar { start_pc: f0, length: f1, index: f2 }, j2))
                        },
                    }
                },
            }
        },
    }
}

impl LocalVar {
    /// Read one `LocalVar` record.
    pub fn parse(s: &[u8], pos: usize) -> (r: Result<(LocalVar, usize), ClassError>)
        requires
            pos <= s@.len(),
        ensures
            res_eq(r, sp_local_var(s@, pos as int)),
            advances(r, pos, s@.len() as int),
    {
        let (f0, j0) = match read_u16(s, pos) {
            Ok(v) => v,
            Err(e) => {
                return Err(e);
            },
        };
        let (f1, j1) = match read_u16(s, j0) {
            Ok(v) => v,
            Err(e) => {
                return Err(e);
            },
        };
        let (f2, j2) = match read_u16(s, j1) {
            Ok(v) => v,
            Err(e) => {
                return Err(e);
            },
        };
        Ok((LocalVar { start_pc: f0, length: f1, index: f2 }, j2))
    }
}

/// `Path` record: `type_path_kind`, `type_argument_index`.
#[derive(Debug, Clone, Copy, PartialEq, Eq)]
pub struct Path {
    pub type_path_kind: u8,
    pub type_argument_index: u8,
}

impl DeepView for Path {
    type V = Path;

    open spec fn deep_view(&self) -> Path {
        *self
    }
}

/// Mirror of `Path::parse`.
pub open spec fn sp_path(s: Seq<u8>, i: int) -> Result<(Path, int), SpecError> {
    match sp_u8(s, i) {
        Result::Err(e) => Result::Err(e),
        Result::Ok((f0, j0)) => {
            match sp_u8(s, j0) {
                Result::Err(e) => Result::Err(e),
                Result::Ok((f1, j1)) => {
                    Result::Ok((Path { type_path_kind: f0, type_argument_index: f1 }, j1))
                },
            }
        },
    }
}

impl Path {
    /// Read one `Path` record.
    pub fn parse(s: &[u8], pos: usize) -> (r: Result<(Path, usize), ClassError>)
        requires
            pos <= s@.len(),
        ensures
            res_eq(r, sp_path(s@, pos as int)),
            advances(r, pos, s@.len() as int),
    {
        let (f0, j0) = match read_u8(s, pos) {
            Ok(v) => v,
            Err(e) => {
                return Err(e);
            },
        };
        let (f1, j1) = match read_u8(s, j0) {
            Ok(v) => v,
            Err(e) => {
                return Err(e);
            },
        };
        Ok((Path { type_path_kind: f0, type_argument_index: f1 }, j1))
    }
}

/// `Parameter` record: `name_index`, `access_flags`.
#[derive(Debug, Clone, Copy, PartialEq, Eq)]
pub struct Parameter {
    pub name_index: u16,
    pub access_flags: u16,
}

impl DeepView for Parameter {
    type V = Parameter;

    open spec fn deep_view(&self) -> Parameter {
        *self
    }
}

/// Mirror of `Parameter::parse`.
pub open spec fn sp_parameter(s: Seq<u8>, i: int) -> Result<(Parameter, int), SpecError> {
    match sp_u16(s, i) {
        Result::Err(e) => Result::Err(e),
        Result::Ok((f0, j0)) => {
            match sp_u16(s, j0) {
                Result::Err(e) => Result::Err(e),
                Result::Ok((f1, j1)) => {
                    Result::Ok((Parameter { name_index: f0, access_flags: f1 }, j1))
                },
            }
        },
    }
}

impl Parameter {
    /// Read one `Parameter` record.
    pub fn parse(s: &[u8], pos: usize) -> (r: Result<(Parameter, usize), ClassError>)
        requires
            pos <= s@.len(),
        ensures
            res_eq(r, sp_parameter(s@, pos as int)),
            advances(r, pos, s@.len() as int),
    {
        let (f0, j0) = match read_u16(s, pos) {
            Ok(v) => v,
            Err(e) => {
                return Err(e);
            },
        };
        let (f1, j1) = match read_u16(s, j0) {
            Ok(v) => v,
            Err(e) => {
                return Err(e);
            },
        };
        Ok((Parameter { name_index: f0, access_flags: f1 }, j1))
    }
}

/// `Requires` record: `requires_index`, `requires_flags`, `requires_version_index`.
#[derive(Debug, Clone, Copy, PartialEq, Eq)]
pub struct Requires {
    pub requires_index: u16,
    pub requires_flags: u16,
    pub requires_version_index: u16,
}

impl DeepView for Requires {
    type V = Requires;

    open spec fn deep_view(&self) -> Requires {
        *self
    }
}

/// Mirror of `Requires::parse`.
pub open spec fn sp_requires_entry(s: Seq<u8>, i: int) -> Result<(Requires, int), SpecError> {
    match sp_u16(s, i) {
        Result::Err(e) => Result::Err(e),
        Result::Ok((f0, j0)) => {
            match sp_u16(s, j0) {
                Result::Err(e) => Result::Err(e),
                Result::Ok((f1, j1)) => {
                    match sp_u16(s, j1) {
                        Result::Err(e) => Result::Err(e),
                        Result::Ok((f2, j2)) => {
                            Result::Ok((Requires { requires_index: f0, requires_flags: f1, requires_version_index: f2 }, j2))
                        },
                    }
                },
            }
        },
    }
}

impl Requires {
    /// Read one `Requires` record.
    pub fn parse(s: &[u8], pos: usize) -> (r: Result<(Requires, usize), ClassError>)
        requires
            pos <= s@.len(),
        ensures
            res_eq(r, sp_requires_entry(s@, pos as int)),
            advances(r, pos, s@.len() as int),
    {
        let (f0, j0) = match read_u16(s, pos) {
            Ok(v) => v,
            Err(e) => {
                return Err(e);
            },
        };
        let (f1, j1) = match read_u16(s, j0) {
            Ok(v) => v,
            Err(e) => {
                return Err(e);
            },
        };
        let (f2, j2) = match read_u16(s, j1) {
            Ok(v) => v,
            Err(e) => {
                return Err(e);
            },
        };
        Ok((Requires { requires_index: f0, requires_flags: f1, requires_version_index: f2 }, j2))
    }
}

/// Mirror of `parse_exception_list`: `n` consecutive `Exception` records.
pub open spec fn sp_exception_list(s: Seq<u8>, i: int, n: int) -> Result<(Seq<Exception>, int), SpecError>
    decreases n,
{
    if n <= 0 {
        Result::Ok((Seq::empty(), i))
    } else {
        match sp_exception(s, i) {
            Result::Err(e) => Result::Err(e),
            Result::Ok((v, j)) => match sp_exception_list(s, j, n - 1) {
                Result::Err(e) => Result::Err(e),
                Result::Ok((vs, k)) => Result::Ok((seq![v] + vs, k)),
            },
        }
    }
}

/// Read `n` consecutive `Exception` records.
pub fn parse_exception_list(s: &[u8], pos: usize, n: usize) -> (r: Result<(Vec<Exception>, usize), ClassError>)
    requires
        pos <= s@.len(),
    ensures
        res_eq(r, sp_exception_list(s@, pos as int, n as int)),
        advances(r, pos, s@.len() as int),
{
    let mut acc: Vec<Exception> = Vec::new();
    let mut k: usize = 0;
    let mut p: usize = pos;
    loop
        invariant
            k <= n,
            pos <= p <= s@.len(),
            sp_exception_list(s@, pos as int, n as int) == (match sp_exception_list(s@, p as int, n - k) {
                Result::Ok((vs, m)) => Result::<(Seq<Exception>, int), SpecError>::Ok(
                    (acc.deep_view() + vs, m),
                ),
                Result::Err(e) => Result::Err(e),
            }),
        decreases n - k,
    {
        if k == n {
            assert(acc.deep_view() + Seq::<Exception>::empty() =~= acc.deep_view());
            return Ok((acc, p));
        }
        let (v, j) = match Exception::parse(s, p) {
            Ok(t) => t,
            Err(e) => {
                return Err(e);
            },
        };
        let ghost prev = acc.deep_view();
        let ghost vdv = v.deep_view();
        acc.push(v);
        assert(acc.deep_view() =~= prev.push(vdv));
        proof {
            match sp_exception_list(s@, j as int, n - k - 1) {
                Result::Ok((vs2, m2)) => {
                    assert(sp_exception_list(s@, p as int, n - k) == Result::<
                        (Seq<Exception>, int),
                        SpecError,
                    >::Ok((seq![vdv] + vs2, m2)));
                    assert(prev + (seq![vdv] + vs2) =~= prev.push(vdv) + vs2);
                },
                Result::Err(e2) => {
                    assert(sp_exception_list(s@, p as int, n - k) == Result::<
                        (Seq<Exception>, int),
                        SpecError,
                    >::Err(e2));
                },
            }
        }
        p = j;
        k = k + 1;
    }
}

/// Mirror of `parse_inner_class_list`: `n` consecutive `InnerClass` records.
pub open spec fn sp_inner_class_list(s: Seq<u8>, i: int, n: int) -> Result<(Seq<InnerClass>, int), SpecError>
    decreases n,
{
    if n <= 0 {
        Result::Ok((Seq::empty(), i))
    } else {
        match sp_inner_class(s, i) {
            Result::Err(e) => Result::Err(e),
            Result::Ok((v, j)) => match sp_inner_class_list(s, j, n - 1) {
                Result::Err(e) => Result::Err(e),
                Result::Ok((vs, k)) => Result::Ok((seq![v] + vs, k)),
            },
        }
    }
}

/// Read `n` consecutive `InnerClass` records.
pub fn parse_inner_class_list(s: &[u8], pos: usize, n: usize) -> (r: Result<(Vec<InnerClass>, usize), ClassError>)
    requires
        pos <= s@.len(),
    ensures
        res_eq(r, sp_inner_class_list(s@, pos as int, n as int)),
        advances(r, pos, s@.len() as int),
{
    let mut acc: Vec<InnerClass> = Vec::new();
    let mut k: usize = 0;
    let mut p: usize = pos;
    loop
        invariant
            k <= n,
            pos <= p <= s@.len(),
            sp_inner_class_list(s@, pos as int, n as int) == (match sp_inner_class_list(s@, p as int, n - k) {
                Result::Ok((vs, m)) => Result::<(Seq<InnerClass>, int), SpecError>::Ok(
                    (acc.deep_view() + vs, m),
                ),
                Result::Err(e) => Result::Err(e),
            }),
        decreases n - k,
    {
        if k == n {
            assert(acc.deep_view() + Seq::<InnerClass>::empty() =~= acc.deep_view());
            return Ok((acc, p));
        }
        let (v, j) = match InnerClass::parse(s, p) {
            Ok(t) => t,
            Err(e) => {
                return Err(e);
            },
        };
        let ghost prev = acc.deep_view();
        let ghost vdv = v.deep_view();
        acc.push(v);
        assert(acc.deep_view() =~= prev.push(vdv));
        proof {
            match sp_inner_class_list(s@, j as int, n - k - 1) {
                Result::Ok((vs2, m2)) => {
                    assert(sp_inner_class_list(s@, p as int, n - k) == Result::<
                        (Seq<InnerClass>, int),
                        SpecError,
                    >::Ok((seq![vdv] + vs2, m2)));
                    assert(prev + (seq![vdv] + vs2) =~= prev.push(vdv) + vs2);
                },
                Result::Err(e2) => {
                    assert(sp_inner_class_list(s@, p as int, n - k) == Result::<
                        (Seq<InnerClass>, int),
                        SpecError,
                    >::Err(e2));
                },
            }
        }
        p = j;
        k = k + 1;
    }
}

/// Mirror of `parse_line_number_list`: `n` consecutive `LineNumber` records.
pub open spec fn sp_line_number_list(s: Seq<u8>, i: int, n: int) -> Result<(Seq<LineNumber>, int), SpecError>
    decreases n,
{
    if n <= 0 {
        Result::Ok((Seq::empty(), i))
    } else {
        match sp_line_number(s, i) {
            Result::Err(e) => Result::Err(e),
            Result::Ok((v, j)) => match sp_line_number_list(s, j, n - 1) {
                Result::Err(e) => Result::Err(e),
                Result::Ok((vs, k)) => Result::Ok((seq![v] + vs, k)),
            },
        }
    }
}

/// Read `n` consecutive `LineNumber` records.
pub fn parse_line_number_list(s: &[u8], pos: usize, n: usize) -> (r: Result<(Vec<LineNumber>, usize), ClassError>)
    requires
        pos <= s@.len(),
    ensures
        res_eq(r, sp_line_number_list(s@, pos as int, n as int)),
        advances(r, pos, s@.len() as int),
{
    let mut acc: Vec<LineNumber> = Vec::new();
    let mut k: usize = 0;
    let mut p: usize = pos;
    loop
        invariant
            k <= n,
            pos <= p <= s@.len(),
            sp_line_number_list(s@, pos as int, n as int) == (match sp_line_number_list(s@, p as int, n - k) {
                Result::Ok((vs, m)) => Result::<(Seq<LineNumber>, int), SpecError>::Ok(
                    (acc.deep_view() + vs, m),
                ),
                Result::Err(e) => Result::Err(e),
            }),
        decreases n - k,
    {
        if k == n {
            assert(acc.deep_view() + Seq::<LineNumber>::empty() =~= acc.deep_view());
            return Ok((acc, p));
        }
        let (v, j) = match LineNumber::parse(s, p) {
            Ok(t) => t,
            Err(e) => {
                return Err(e);
            },
        };
        let ghost prev = acc.deep_view();
        let ghost vdv = v.deep_view();
        acc.push(v);
        assert(acc.deep_view() =~= prev.push(vdv));
        proof {
            match sp_line_number_list(s@, j as int, n - k - 1) {
                Result::Ok((vs2, m2)) => {
                    assert(sp_line_number_list(s@, p as int, n - k) == Result::<
                        (Seq<LineNumber>, int),
                        SpecError,
                    >::Ok((seq![vdv] + vs2, m2)));
                    assert(prev + (seq![vdv] + vs2) =~= prev.push(vdv) + vs2);
                },
                Result::Err(e2) => {
                    assert(sp_line_number_list(s@, p as int, n - k) == Result::<
                        (Seq<LineNumber>, int),
                        SpecError,
                    >::Err(e2));
                },
            }
        }
        p = j;
        k = k + 1;
    }
}

/// Mirror of `parse_local_variable_list`: `n` consecutive `LocalVariable` records.
pub open spec fn sp_local_variable_list(s: Seq<u8>, i: int, n: int) -> Result<(Seq<LocalVariable>, int), SpecError>
    decreases n,
{
    if n <= 0 {
        Result::Ok((Seq::empty(), i))
    } else {
        match sp_local_variable(s, i) {
            Result::Err(e) => Result::Err(e),
            Result::Ok((v, j)) => match sp_local_variable_list(s, j, n - 1) {
                Result::Err(e) => Result::Err(e),
                Result::Ok((vs, k)) => Result::Ok((seq![v] + vs, k)),
            },
        }
    }
}

/// Read `n` consecutive `LocalVariable` records.
pub fn parse_local_variable_list(s: &[u8], pos: usize, n: usize) -> (r: Result<(Vec<LocalVariable>, usize), ClassError>)
    requires
        pos <= s@.len(),
    ensures
        res_eq(r, sp_local_variable_list(s@, pos as int, n as int)),
        advances(r, pos, s@.len() as int),
{
    let mut acc: Vec<LocalVariable> = Vec::new();
    let mut k: usize = 0;
    let mut p: usize = pos;
    loop
        invariant
            k <= n,
            pos <= p <= s@.len(),
            sp_local_variable_list(s@, pos as int, n as int) == (match sp_local_variable_list(s@, p as int, n - k) {
                Result::Ok((vs, m)) => Result::<(Seq<LocalVariable>, int), SpecError>::Ok(
                    (acc.deep_view() + vs, m),
                ),
                Result::Err(e) => Result::Err(e),
            }),
        decreases n - k,
    {
        if k == n {
            assert(acc.deep_view() + Seq::<LocalVariable>::empty() =~= acc.deep_view());
            return Ok((acc, p));
        }
        let (v, j) = match LocalVariable::parse(s, p) {
            Ok(t) => t,
            Err(e) => {
                return Err(e);
            },
        };
        let ghost prev = acc.deep_view();
        let ghost vdv = v.deep_view();
        acc.push(v);
        assert(acc.deep_view() =~= prev.push(vdv));
        proof {
            match sp_local_variable_list(s@, j as int, n - k - 1) {
                Result::Ok((vs2, m2)) => {
                    assert(sp_local_variable_list(s@, p as int, n - k) == Result::<
                        (Seq<LocalVariable>, int),
                        SpecError,
                    >::Ok((seq![vdv] + vs2, m2)));
                    assert(prev + (seq![vdv] + vs2) =~= prev.push(vdv) + vs2);
                },
                Result::Err(e2) => {
                    assert(sp_local_variable_list(s@, p as int, n - k) == Result::<
                        (Seq<LocalVariable>, int),
                        SpecError,
                    >::Err(e2));
                },
            }
        }
        p = j;
        k = k + 1;
    }
}

/// Mirror of `parse_local_variable_type_list`: `n` consecutive `LocalVariableType` records.
pub open spec fn sp_local_variable_type_list(s: Seq<u8>, i: int, n: int) -> Result<(Seq<LocalVariableType>, int), SpecError>
    decreases n,
{
    if n <= 0 {
        Result::Ok((Seq::empty(), i))
    } else {
        match sp_local_variable_type(s, i) {
            Result::Err(e) => Result::Err(e),
            Result::Ok((v, j)) => match sp_local_variable_type_list(s, j, n - 1) {
                Result::Err(e) => Result::Err(e),
                Result::Ok((vs, k)) => Result::Ok((seq![v] + vs, k)),
            },
        }
    }
}

/// Read `n` consecutive `LocalVariableType` records.
pub fn parse_local_variable_type_list(s: &[u8], pos: usize, n: usize) -> (r: Result<(Vec<LocalVariableType>, usize), ClassError>)
    requires
        pos <= s@.len(),
    ensures
        res_eq(r, sp_local_variable_type_list(s@, pos as int, n as int)),
        advances(r, pos, s@.len() as int),
{
    let mut acc: Vec<LocalVariableType> = Vec::new();
    let mut k: usize = 0;
    let mut p: usize = pos;
    loop
        invariant
            k <= n,
            pos <= p <= s@.len(),
            sp_local_variable_type_list(s@, pos as int, n as int) == (match sp_local_variable_type_list(s@, p as int, n - k) {
                Result::Ok((vs, m)) => Result::<(Seq<LocalVariableType>, int), SpecError>::Ok(
                    (acc.deep_view() + vs, m),
                ),
                Result::Err(e) => Result::Err(e),
            }),
        decreases n - k,
    {
        if k == n {
            assert(acc.deep_view() + Seq::<LocalVariableType>::empty() =~= acc.deep_view());
            return Ok((acc, p));
        }
        let (v, j) = match LocalVariableType::parse(s, p) {
            Ok(t) => t,
            Err(e) => {
                return Err(e);
            },
        };
        let ghost prev = acc.deep_view();
        let ghost vdv = v.deep_view();
        acc.push(v);
        assert(acc.deep_view() =~= prev.push(vdv));
        proof {
            match sp_local_variable_type_list(s@, j as int, n - k - 1) {
                Result::Ok((vs2, m2)) => {
                    assert(sp_local_variable_type_list(s@, p as int, n - k) == Result::<
                        (Seq<LocalVariableType>, int),
                        SpecError,
                    >::Ok((seq![vdv] + vs2, m2)));
                    assert(prev + (seq![vdv] + vs2) =~= prev.push(vdv) + vs2);
                },
                Result::Err(e2) => {
                    assert(sp_local_variable_type_list(s@, p as int, n - k) == Result::<
                        (Seq<LocalVariableType>, int),
                        SpecError,
                    >::Err(e2));
                },
            }
        }
        p = j;
        k = k + 1;
    }
}

/// Mirror of `parse_local_var_list`: `n` consecutive `LocalVar` records.
pub open spec fn sp_local_var_list(s: Seq<u8>, i: int, n: int) -> Result<(Seq<LocalVar>, int), SpecError>
    decreases n,
{
    if n <= 0 {
        Result::Ok((Seq::empty(), i))
    } else {
        match sp_local_var(s, i) {
            Result::Err(e) => Result::Err(e),
            Result::Ok((v, j)) => match sp_local_var_list(s, j, n - 1) {
                Result::Err(e) => Result::Err(e),
                Result::Ok((vs, k)) => Result::Ok((seq![v] + vs, k)),
            },
        }
    }
}

/// Read `n` consecutive `LocalVar` records.
pub fn parse_local_var_list(s: &[u8], pos: usize, n: usize) -> (r: Result<(Vec<LocalVar>, usize), ClassError>)
    requires
        pos <= s@.len(),
    ensures
        res_eq(r, sp_local_var_list(s@, pos as int, n as int)),
        advances(r, pos, s@.len() as int),
{
    let mut acc: Vec<LocalVar> = Vec::new();
    let mut k: usize = 0;
    let mut p: usize = pos;
    loop
        invariant
            k <= n,
            pos <= p <= s@.len(),
            sp_local_var_list(s@, pos as int, n as int) == (match sp_local_var_list(s@, p as int, n - k) {
                Result::Ok((vs, m)) => Result::<(Seq<LocalVar>, int), SpecError>::Ok(
                    (acc.deep_view() + vs, m),
                ),
                Result::Err(e) => Result::Err(e),
            }),
        decreases n - k,
    {
        if k == n {
            assert(acc.deep_view() + Seq::<LocalVar>::empty() =~= acc.deep_view());
            return Ok((acc, p));
        }
        let (v, j) = match LocalVar::parse(s, p) {
            Ok(t) => t,
            Err(e) => {
                return Err(e);
            },
        };
        let ghost prev = acc.deep_view();
        let ghost vdv = v.deep_view();
        acc.push(v);
        assert(acc.deep_view() =~= prev.push(vdv));
        proof {
            match sp_local_var_list(s@, j as int, n - k - 1) {
                Result::Ok((vs2, m2)) => {
                    assert(sp_local_var_list(s@, p as int, n - k) == Result::<
                        (Seq<LocalVar>, int),
                        SpecError,
                    >::Ok((seq![vdv] + vs2, m2)));
                    assert(prev + (seq![vdv] + vs2) =~= prev.push(vdv) + vs2);
                },
                Result::Err(e2) => {
                    assert(sp_local_var_list(s@, p as int, n - k) == Result::<
                        (Seq<LocalVar>, int),
                        SpecError,
                    >::Err(e2));
                },
            }
        }
        p = j;
        k = k + 1;
    }
}

/// Mirror of `parse_path_list`: `n` consecutive `Path` records.
pub open spec fn sp_path_list(s: Seq<u8>, i: int, n: int) -> Result<(Seq<Path>, int), SpecError>
    decreases n,
{
    if n <= 0 {
        Result::Ok((Seq::empty(), i))
    } else {
        match sp_path(s, i) {
            Result::Err(e) => Result::Err(e),
            Result::Ok((v, j)) => match sp_path_list(s, j, n - 1) {
                Result::Err(e) => Result::Err(e),
                Result::Ok((vs, k)) => Result::Ok((seq![v] + vs, k)),
            },
        }
    }
}

/// Read `n` consecutive `Path` records.
pub fn parse_path_list(s: &[u8], pos: usize, n: usize) -> (r: Result<(Vec<Path>, usize), ClassError>)
    requires
        pos <= s@.len(),
    ensures
        res_eq(r, sp_path_list(s@, pos as int, n as int)),
        advances(r, pos, s@.len() as int),
{
    let mut acc: Vec<Path> = Vec::new();
    let mut k: usize = 0;
    let mut p: usize = pos;
    loop
        invariant
            k <= n,
            pos <= p <= s@.len(),
            sp_path_list(s@, pos as int, n as int) == (match sp_path_list(s@, p as int, n - k) {
                Result::Ok((vs, m)) => Result::<(Seq<Path>, int), SpecError>::Ok(
                    (acc.deep_view() + vs, m),
                ),
                Result::Err(e) => Result::Err(e),
            }),
        decreases n - k,
    {
        if k == n {
            assert(acc.deep_view() + Seq::<Path>::empty() =~= acc.deep_view());
            return Ok((acc, p));
        }
        let (v, j) = match Path::parse(s, p) {
            Ok(t) => t,
            Err(e) => {
                return Err(e);
            },
        };
        let ghost prev = acc.deep_view();
        let ghost vdv = v.deep_view();
        acc.push(v);
        assert(acc.deep_view() =~= prev.push(vdv));
        proof {
            match sp_path_list(s@, j as int, n - k - 1) {
                Result::Ok((vs2, m2)) => {
                    assert(sp_path_list(s@, p as int, n - k) == Result::<
                        (Seq<Path>, int),
                        SpecError,
                    >::Ok((seq![vdv] + vs2, m2)));
                    assert(prev + (seq![vdv] + vs2) =~= prev.push(vdv) + vs2);
                },
                Result::Err(e2) => {
                    assert(sp_path_list(s@, p as int, n - k) == Result::<
                        (Seq<Path>, int),
                        SpecError,
                    >::Err(e2));
                },
            }
        }
        p = j;
        k = k + 1;
    }
}

/// Mirror of `parse_parameter_list`: `n` consecutive `Parameter` records.
pub open spec fn sp_parameter_list(s: Seq<u8>, i: int, n: int) -> Result<(Seq<Parameter>, int), SpecError>
    decreases n,
{
    if n <= 0 {
        Result::Ok((Seq::empty(), i))
    } else {
        match sp_parameter(s, i) {
            Result::Err(e) => Result::Err(e),
            Result::Ok((v, j)) => match sp_parameter_list(s, j, n - 1) {
                Result::Err(e) => Result::Err(e),
                Result::Ok((vs, k)) => Result::Ok((seq![v] + vs, k)),
            },
        }
    }
}

/// Read `n` consecutive `Parameter` records.
pub fn parse_parameter_list(s: &[u8], pos: usize, n: usize) -> (r: Result<(Vec<Parameter>, usize), ClassError>)
    requires
        pos <= s@.len(),
    ensures
        res_eq(r, sp_parameter_list(s@, pos as int, n as int)),
        advances(r, pos, s@.len() as int),
{
    let mut acc: Vec<Parameter> = Vec::new();
    let mut k: usize = 0;
    let mut p: usize = pos;
    loop
        invariant
            k <= n,
            pos <= p <= s@.len(),
            sp_parameter_list(s@, pos as int, n as int) == (match sp_parameter_list(s@, p as int, n - k) {
                Result::Ok((vs, m)) => Result::<(Seq<Parameter>, int), SpecError>::Ok(
                    (acc.deep_view() + vs, m),
                ),
                Result::Err(e) => Result::Err(e),
            }),
        decreases n - k,
    {
        if k == n {
            assert(acc.deep_view() + Seq::<Parameter>::empty() =~= acc.deep_view());
            return Ok((acc, p));
        }
        let (v, j) = match Parameter::parse(s, p) {
            Ok(t) => t,
            Err(e) => {
                return Err(e);
            },
        };
        let ghost prev = acc.deep_view();
        let ghost vdv = v.deep_view();
        acc.push(v);
        assert(acc.deep_view() =~= prev.push(vdv));
        proof {
            match sp_parameter_list(s@, j as int, n - k - 1) {
                Result::Ok((vs2, m2)) => {
                    assert(sp_parameter_list(s@, p as int, n - k) == Result::<
                        (Seq<Parameter>, int),
                        SpecError,
                    >::Ok((seq![vdv] + vs2, m2)));
                    assert(prev + (seq![vdv] + vs2) =~= prev.push(vdv) + vs2);
                },
                Result::Err(e2) => {
                    assert(sp_parameter_list(s@, p as int, n - k) == Result::<
                        (Seq<Parameter>, int),
                        SpecError,
                    >::Err(e2));
                },
            }
        }
        p = j;
        k = k + 1;
    }
}

/// Mirror of `parse_requires_entry_list`: `n` consecutive `Requires` records.
pub open spec fn sp_requires_entry_list(s: Seq<u8>, i: int, n: int) -> Result<(Seq<Requires>, int), SpecError>
    decreases n,
{
    if n <= 0 {
        Result::Ok((Seq::empty(), i))
    } else {
        match sp_requires_entry(s, i) {
            Result::Err(e) => Result::Err(e),
            Result::Ok((v, j)) => match sp_requires_entry_list(s, j, n - 1) {
                Result::Err(e) => Result::Err(e),
                Result::Ok((vs, k)) => Result::Ok((seq![v] + vs, k)),
            },
        }
    }
}

/// Read `n` consecutive `Requires` records.
pub fn parse_requires_entry_list(s: &[u8], pos: usize, n: usize) -> (r: Result<(Vec<Requires>, usize), ClassError>)
    requires
        pos <= s@.len(),
    ensures
        res_eq(r, sp_requires_entry_list(s@, pos as int, n as int)),
        advances(r, pos, s@.len() as int),
{
    let mut acc: Vec<Requires> = Vec::new();
    let mut k: usize = 0;
    let mut p: usize = pos;
    loop
        invariant
            k <= n,
            pos <= p <= s@.len(),
            sp_requires_entry_list(s@, pos as int, n as int) == (match sp_requires_entry_list(s@, p as int, n - k) {
                Result::Ok((vs, m)) => Result::<(Seq<Requires>, int), SpecError>::Ok(
                    (acc.deep_view() + vs, m),
                ),
                Result::Err(e) => Result::Err(e),
            }),
        decreases n - k,
    {
        if k == n {
            assert(acc.deep_view() + Seq::<Requires>::empty() =~= acc.deep_view());
            return Ok((acc, p));
        }
        let (v, j) = match Requires::parse(s, p) {
            Ok(t) => t,
            Err(e) => {
                return Err(e);
            },
        };
        let ghost prev = acc.deep_view();
        let ghost vdv = v.deep_view();
        acc.push(v);
        assert(acc.deep_view() =~= prev.push(vdv));
        proof {
            match sp_requires_entry_list(s@, j as int, n - k - 1) {
                Result::Ok((vs2, m2)) => {
                    assert(sp_requires_entry_list(s@, p as int, n - k) == Result::<
                        (Seq<Requires>, int),
                        SpecError,
                    >::Ok((seq![vdv] + vs2, m2)));
                    assert(prev + (seq![vdv] + vs2) =~= prev.push(vdv) + vs2);
                },
                Result::Err(e2) => {
                    assert(sp_requires_entry_list(s@, p as int, n - k) == Result::<
                        (Seq<Requires>, int),
                        SpecError,
                    >::Err(e2));
                },
            }
        }
        p = j;
        k = k + 1;
    }
}

/// `Exceptions` record; each inner list is count-prefixed in the byte stream.
#[derive(Debug, Clone, PartialEq, Eq)]
pub struct Exceptions {
    pub exception_index_table: Vec<u16>,
}

/// The mathematical shape of an `Exceptions`.
#[verifier::ext_equal]
pub struct SpecExceptions {
    pub exception_index_table: Seq<u16>,
}

impl DeepView for Exceptions {
    type V = SpecExceptions;

    open spec fn deep_view(&self) -> SpecExceptions {
        SpecExceptions {
            exception_index_table: self.exception_index_table.deep_view(),
        }
    }
}

/// Mirror of `Exceptions::parse`.
pub open spec fn sp_exceptions(s: Seq<u8>, i: int) -> Result<(SpecExceptions, int), SpecError> {
    match sp_u16(s, i) {
        Result::Err(e) => Result::Err(e),
        Result::Ok((n0, j0)) => {
            match sp_u16_list(s, j0, n0 as int) {
                Result::Err(e) => Result::Err(e),
                Result::Ok((f1, j1)) => {
                    Result::Ok((SpecExceptions { exception_index_table: f1 }, j1))
                },
            }
        },
    }
}

impl Exceptions {
    /// Read one `Exceptions` record.
    pub fn parse(s: &[u8], pos: usize) -> (r: Result<(Exceptions, usize), ClassError>)
        requires
            pos <= s@.len(),
        ensures
            res_eq(r, sp_exceptions(s@, pos as int)),
            advances(r, pos, s@.len() as int),
    {
        let (n0, j0) = match read_u16(s, pos) {
            Ok(v) => v,
            Err(e) => {
                return Err(e);
            },
        };
        let (f1, j1) = match read_u16_list(s, j0, n0 as usize) {
            Ok(v) => v,
            Err(e) => {
                return Err(e);
            },
        };
        Ok((Exceptions { exception_index_table: f1 }, j1))
    }
}

/// `InnerClasses` record; each inner list is count-prefixed in the byte stream.
#[derive(Debug, Clone, PartialEq, Eq)]
pub struct InnerClasses {
    pub classes: Vec<InnerClass>,
}

/// The mathematical shape of an `InnerClasses`.
#[verifier::ext_equal]
pub struct SpecInnerClasses {
    pub classes: Seq<InnerClass>,
}

impl DeepView for InnerClasses {
    type V = SpecInnerClasses;

    open spec fn deep_view(&self) -> SpecInnerClasses {
        SpecInnerClasses {
            classes: self.classes.deep_view(),
        }
    }
}

/// Mirror of `InnerClasses::parse`.
pub open spec fn sp_inner_classes(s: Seq<u8>, i: int) -> Result<(SpecInnerClasses, int), SpecError> {
    match sp_u16(s, i) {
        Result::Err(e) => Result::Err(e),
        Result::Ok((n0, j0)) => {
            match sp_inner_class_list(s, j0, n0 as int) {
                Result::Err(e) => Result::Err(e),
                Result::Ok((f1, j1)) => {
                    Result::Ok((SpecInnerClasses { classes: f1 }, j1))
                },
            }
        },
    }
}

impl InnerClasses {
    /// Read one `InnerClasses` record.
    pub fn parse(s: &[u8], pos: usize) -> (r: Result<(InnerClasses, usize), ClassError>)
        requires
            pos <= s@.len(),
        ensures
            res_eq(r, sp_inner_classes(s@, pos as int)),
            advances(r, pos, s@.len() as int),
    {
        let (n0, j0) = match read_u16(s, pos) {
            Ok(v) => v,
            Err(e) => {
                return Err(e);
            },
        };
        let (f1, j1) = match parse_inner_class_list(s, j0, n0 as usize) {
            Ok(v) => v,
            Err(e) => {
                return Err(e);
            },
        };
        Ok((InnerClasses { classes: f1 }, j1))
    }
}

/// `TypePath` record; each inner list is count-prefixed in the byte stream.
#[derive(Debug, Clone, PartialEq, Eq)]
pub struct TypePath {
    pub path: Vec<Path>,
}

/// The mathematical shape of a `TypePath`.
#[verifier::ext_equal]
pub struct SpecTypePath {
    pub path: Seq<Path>,
}

impl DeepView for TypePath {
    type V = SpecTypePath;

    open spec fn deep_view(&self) -> SpecTypePath {
        SpecTypePath {
            path: self.path.deep_view(),
        }
    }
}

/// Mirror of `TypePath::parse`.
pub open spec fn sp_type_path(s: Seq<u8>, i: int) -> Result<(SpecTypePath, int), SpecError> {
    match sp_u8(s, i) {
        Result::Err(e) => Result::Err(e),
        Result::Ok((n0, j0)) => {
            match sp_path_list(s, j0, n0 as int) {
                Result::Err(e) => Result::Err(e),
                Result::Ok((f1, j1)) => {
                    Result::Ok((SpecTypePath { path: f1 }, j1))
                },
            }
        },
    }
}

impl TypePath {
    /// Read one `TypePath` record.
    pub fn parse(s: &[u8], pos: usize) -> (r: Result<(TypePath, usize), ClassError>)
        requires
            pos <= s@.len(),
        ensures
            res_eq(r, sp_type_path(s@, pos as int)),
            advances(r, pos, s@.len() as int),
    {
        let (n0, j0) = match read_u8(s, pos) {
            Ok(v) => v,
            Err(e) => {
                return Err(e);
            },
        };
        let (f1, j1) = match parse_path_list(s, j0, n0 as usize) {
            Ok(v) => v,
            Err(e) => {
                return Err(e);
            },
        };
        Ok((TypePath { path: f1 }, j1))
    }
}

/// `BootstrapMethod` record; each inner list is count-prefixed in the byte stream.
#[derive(Debug, Clone, PartialEq, Eq)]
pub struct BootstrapMethod {
    pub bootstrap_method_ref: u16,
    pub bootstrap_arguments: Vec<u16>,
}

/// The mathematical shape of a `BootstrapMethod`.
#[verifier::ext_equal]
pub struct SpecBootstrapMethod {
    pub bootstrap_method_ref: u16,
    pub bootstrap_arguments: Seq<u16>,
}

impl DeepView for BootstrapMethod {
    type V = SpecBootstrapMethod;

    open spec fn deep_view(&self) -> SpecBootstrapMethod {
        SpecBootstrapMethod {
            bootstrap_method_ref: self.bootstrap_method_ref,
            bootstrap_arguments: self.bootstrap_arguments.deep_view(),
        }
    }
}

/// Mirror of `BootstrapMethod::parse`.
pub open spec fn sp_bootstrap_method(s: Seq<u8>, i: int) -> Result<(SpecBootstrapMethod, int), SpecError> {
    match sp_u16(s, i) {
        Result::Err(e) => Result::Err(e),
        Result::Ok((f0, j0)) => {
            match sp_u16(s, j0) {
                Result::Err(e) => Result::Err(e),
                Result::Ok((n1, j1)) => {
                    match sp_u16_list(s, j1, n1 as int) {
                        Result::Err(e) => Result::Err(e),
                        Result::Ok((f2, j2)) => {
                            Result::Ok((SpecBootstrapMethod { bootstrap_method_ref: f0, bootstrap_arguments: f2 }, j2))
                        },
                    }
                },
            }
        },
    }
}

impl BootstrapMethod {
    /// Read one `BootstrapMethod` record.
    pub fn parse(s: &[u8], pos: usize) -> (r: Result<(BootstrapMethod, usize), ClassError>)
        requires
            pos <= s@.len(),
        ensures
            res_eq(r, sp_bootstrap_method(s@, pos as int)),
            advances(r, pos, s@.len() as int),
    {
        let (f0, j0) = match read_u16(s, pos) {
            Ok(v) => v,
            Err(e) => {
                return Err(e);
            },
        };
        let (n1, j1) = match read_u16(s, j0) {
            Ok(v) => v,
            Err(e) => {
                return Err(e);
            },
        };
        let (f2, j2) = match read_u16_list(s, j1, n1 as usize) {
            Ok(v) => v,
            Err(e) => {
                return Err(e);
            },
        };
        Ok((BootstrapMethod { bootstrap_method_ref: f0, bootstrap_arguments: f2 }, j2))
    }
}

/// `Exports` record; each inner list is count-prefixed in the byte stream.
#[derive(Debug, Clone, PartialEq, Eq)]
pub struct Exports {
    pub exports_index: u16,
    pub exports_flags: u16,
    pub exports_to_index: Vec<u16>,
}

/// The mathematical shape of an `Exports`.
#[verifier::ext_equal]
pub struct SpecExports {
    pub exports_index: u16,
    pub exports_flags: u16,
    pub exports_to_index: Seq<u16>,
}

impl DeepView for Exports {
    type V = SpecExports;

    open spec fn deep_view(&self) -> SpecExports {
        SpecExports {
            exports_index: self.exports_index,
            exports_flags: self.exports_flags,
            exports_to_index: self.exports_to_index.deep_view(),
        }
    }
}

/// Mirror of `Exports::parse`.
pub open spec fn sp_exports(s: Seq<u8>, i: int) -> Result<(SpecExports, int), SpecError> {
    match sp_u16(s, i) {
        Result::Err(e) => Result::Err(e),
        Result::Ok((f0, j0)) => {
            match sp_u16(s, j0) {
                Result::Err(e) => Result::Err(e),
                Result::Ok((f1, j1)) => {
                    match sp_u16(s, j1) {
                        Result::Err(e) => Result::Err(e),
                        Result::Ok((n2, j2)) => {
                            match sp_u16_list(s, j2, n2 as int) {
                                Result::Err(e) => Result::Err(e),
                                Result::Ok((f3, j3)) => {
                                    Result::Ok((SpecExports { exports_index: f0, exports_flags: f1, exports_to_index: f3 }, j3))
                                },
                            }
                        },
                    }
                },
            }
        },
    }
}

impl Exports {
    /// Read one `Exports` record.
    pub fn parse(s: &[u8], pos: usize) -> (r: Result<(Exports, usize), ClassError>)
        requires
            pos <= s@.len(),
        ensures
            res_eq(r, sp_exports(s@, pos as int)),
            advances(r, pos, s@.len() as int),
    {
        let (f0, j0) = match read_u16(s, pos) {
            Ok(v) => v,
            Err(e) => {
                return Err(e);
            },
        };
        let (f1, j1) = match read_u16(s, j0) {
            Ok(v) => v,
            Err(e) => {
                return Err(e);
            },
        };
        let (n2, j2) = match read_u16(s, j1) {
            Ok(v) => v,
            Err(e) => {
                return Err(e);
            },
        };
        let (f3, j3) = match read_u16_list(s, j2, n2 as usize) {
            Ok(v) => v,
            Err(e) => {
                return Err(e);
            },
        };
        Ok((Exports { exports_index: f0, exports_flags: f1, exports_to_index: f3 }, j3))
    }
}

/// `Opens` record; each inner list is count-prefixed in the byte stream.
#[derive(Debug, Clone, PartialEq, Eq)]
pub struct Opens {
    pub opens_index: u16,
    pub opens_flags: u16,
    pub opens_to_index: Vec<u16>,
}

/// The mathematical shape of an `Opens`.
#[verifier::ext_equal]
pub struct SpecOpens {
    pub opens_index: u16,
    pub opens_flags: u16,
    pub opens_to_index: Seq<u16>,
}

impl DeepView for Opens {
    type V = SpecOpens;

    open spec fn deep_view(&self) -> SpecOpens {
        SpecOpens {
            opens_index: self.opens_index,
            opens_flags: self.opens_flags,
            opens_to_index: self.opens_to_index.deep_view(),
        }
    }
}

/// Mirror of `Opens::parse`.
pub open spec fn sp_opens(s: Seq<u8>, i: int) -> Result<(SpecOpens, int), SpecError> {
    match sp_u16(s, i) {
        Result::Err(e) => Result::Err(e),
        Result::Ok((f0, j0)) => {
            match sp_u16(s, j0) {
                Result::Err(e) => Result::Err(e),
                Result::Ok((f1, j1)) => {
                    match sp_u16(s, j1) {
                        Result::Err(e) => Result::Err(e),
                        Result::Ok((n2, j2)) => {
                            match sp_u16_list(s, j2, n2 as int) {
                                Result::Err(e) => Result::Err(e),
                                Result::Ok((f3, j3)) => {
                                    Result::Ok((SpecOpens { opens_index: f0, opens_flags: f1, opens_to_index: f3 }, j3))
                                },
                            }
                        },
                    }
                },
            }
        },
    }
}

impl Opens {
    /// Read one `Opens` record.
    pub fn parse(s: &[u8], pos: usize) -> (r: Result<(Opens, usize), ClassError>)
        requires
            pos <= s@.len(),
        ensures
            res_eq(r, sp_opens(s@, pos as int)),
            advances(r, pos, s@.len() as int),
    {
        let (f0, j0) = match read_u16(s, pos) {
            Ok(v) => v,
            Err(e) => {
                return Err(e);
            },
        };
        let (f1, j1) = match read_u16(s, j0) {
            Ok(v) => v,
            Err(e) => {
                return Err(e);
            },
        };
        let (n2, j2) = match read_u16(s, j1) {
            Ok(v) => v,
            Err(e) => {
                return Err(e);
            },
        };
        let (f3, j3) = match read_u16_list(s, j2, n2 as usize) {
            Ok(v) => v,
            Err(e) => {
                return Err(e);
            },
        };
        Ok((Opens { opens_index: f0, opens_flags: f1, opens_to_index: f3 }, j3))
    }
}

/// `Provides` record; each inner list is count-prefixed in the byte stream.
#[derive(Debug, Clone, PartialEq, Eq)]
pub struct Provides {
    pub provides_index: u16,
    pub provides_with_index: Vec<u16>,
}

/// The mathematical shape of a `Provides`.
#[verifier::ext_equal]
pub struct SpecProvides {
    pub provides_index: u16,
    pub provides_with_index: Seq<u16>,
}

impl DeepView for Provides {
    type V = SpecProvides;

    open spec fn deep_view(&self) -> SpecProvides {
        SpecProvides {
            provides_index: self.provides_index,
            provides_with_index: self.provides_with_index.deep_view(),
        }
    }
}

/// Mirror of `Provides::parse`.
pub open spec fn sp_provides(s: Seq<u8>, i: int) -> Result<(SpecProvides, int), SpecError> {
    match sp_u16(s, i) {
        Result::Err(e) => Result::Err(e),
        Result::Ok((f0, j0)) => {
            match sp_u16(s, j0) {
                Result::Err(e) => Result::Err(e),
                Result::Ok((n1, j1)) => {
                    match sp_u16_list(s, j1, n1 as int) {
                        Result::Err(e) => Result::Err(e),
                        Result::Ok((f2, j2)) => {
                            Result::Ok((SpecProvides { provides_index: f0, provides_with_index: f2 }, j2))
                        },
                    }
                },
            }
        },
    }
}

impl Provides {
    /// Read one `Provides` record.
    pub fn parse(s: &[u8], pos: usize) -> (r: Result<(Provides, usize), ClassError>)
        requires
            pos <= s@.len(),
        ensures
            res_eq(r, sp_provides(s@, pos as int)),
            advances(r, pos, s@.len() as int),
    {
        let (f0, j0) = match read_u16(s, pos) {
            Ok(v) => v,
            Err(e) => {
                return Err(e);
            },
        };
        let (n1, j1) = match read_u16(s, j0) {
            Ok(v) => v,
            Err(e) => {
                return Err(e);
            },
        };
        let (f2, j2) = match read_u16_list(s, j1, n1 as usize) {
            Ok(v) => v,
            Err(e) => {
                return Err(e);
            },
        };
        Ok((Provides { provides_index: f0, provides_with_index: f2 }, j2))
    }
}

/// `Module` record; each inner list is count-prefixed in the byte stream.
#[derive(Debug, Clone, PartialEq, Eq)]
pub struct Module {
    pub module_name_index: u16,
    pub module_flags: u16,
    pub module_version_index: u16,
    pub requires_entries: Vec<Requires>,
    pub exports: Vec<Exports>,
    pub opens: Vec<Opens>,
    pub uses: Vec<u16>,
    pub provides: Vec<Provides>,
}

/// The mathematical shape of a `Module`.
#[verifier::ext_equal]
pub struct SpecModule {
    pub module_name_index: u16,
    pub module_flags: u16,
    pub module_version_index: u16,
    pub requires_entries: Seq<Requires>,
    pub exports: Seq<SpecExports>,
    pub opens: Seq<SpecOpens>,
    pub uses: Seq<u16>,
    pub provides: Seq<SpecProvides>,
}

impl DeepView for Module {
    type V = SpecModule;

    open spec fn deep_view(&self) -> SpecModule {
        SpecModule {
            module_name_index: self.module_name_index,
            module_flags: self.module_flags,
            module_version_index: self.module_version_index,
            requires_entries: self.requires_entries.deep_view(),
            exports: self.exports.deep_view(),
            opens: self.opens.deep_view(),
            uses: self.uses.deep_view(),
            provides: self.provides.deep_view(),
        }
    }
}

/// Mirror of `Module::parse`.
pub open spec fn sp_module(s: Seq<u8>, i: int) -> Result<(SpecModule, int), SpecError> {
    match sp_u16(s, i) {
        Result::Err(e) => Result::Err(e),
        Result::Ok((f0, j0)) => {
            match sp_u16(s, j0) {
                Result::Err(e) => Result::Err(e),
                Result::Ok((f1, j1)) => {
                    match sp_u16(s, j1) {
                        Result::Err(e) => Result::Err(e),
                        Result::Ok((f2, j2)) => {
                            match sp_u16(s, j2) {
                                Result::Err(e) => Result::Err(e),
                                Result::Ok((n3, j3)) => {
                                    match sp_requires_entry_list(s, j3, n3 as int) {
                                        Result::Err(e) => Result::Err(e),
                                        Result::Ok((f4, j4)) => {
                                            match sp_u16(s, j4) {
                                                Result::Err(e) => Result::Err(e),
                                                Result::Ok((n5, j5)) => {
                                                    match sp_exports_list(s, j5, n5 as int) {
                                                        Result::Err(e) => Result::Err(e),
                                                        Result::Ok((f6, j6)) => {
                                                            match sp_u16(s, j6) {
                                                                Result::Err(e) => Result::Err(e),
                                                                Result::Ok((n7, j7)) => {
                                                                    match sp_opens_list(s, j7, n7 as int) {
                                                                        Result::Err(e) => Result::Err(e),
                                                                        Result::Ok((f8, j8)) => {
                                                                            match sp_u16(s, j8) {
                                                                                Result::Err(e) => Result::Err(e),
                                                                                Result::Ok((n9, j9)) => {
                                                                                    match sp_u16_list(s, j9, n9 as int) {
                                                                                        Result::Err(e) => Result::Err(e),
                                                                                        Result::Ok((f10, j10)) => {
                                                                                            match sp_u16(s, j10) {
                                                                                                Result::Err(e) => Result::Err(e),
                                                                                                Result::Ok((n11, j11)) => {
                                                                                                    match sp_provides_list(s, j11, n11 as int) {
                                                                                                        Result::Err(e) => Result::Err(e),
                                                                                                        Result::Ok((f12, j12)) => {
                                                                                                            Result::Ok((SpecModule { module_name_index: f0, module_flags: f1, module_version_index: f2, requires_entries: f4, exports: f6, opens: f8, uses: f10, provides: f12 }, j12))
                                                                                                        },
                                                                                                    }
                                                                                                },
                                                                                            }
                                                                                        },
                                                                                    }
                                                                                },
                                                                            }
                                                                        },
                                                                    }
                                                                },
                                                            }
                                                        },
                                                    }
                                                },
                                            }
                                        },
                                    }
                                },
                            }
                        },
                    }
                },
            }
        },
    }
}

impl Module {
    /// Read one `Module` record.
    pub fn parse(s: &[u8], pos: usize) -> (r: Result<(Module, usize), ClassError>)
        requires
            pos <= s@.len(),
        ensures
            res_eq(r, sp_module(s@, pos as int)),
            advances(r, pos, s@.len() as int),
    {
        let (f0, j0) = match read_u16(s, pos) {
            Ok(v) => v,
            Err(e) => {
                return Err(e);
            },
        };
        let (f1, j1) = match read_u16(s, j0) {
            Ok(v) => v,
            Err(e) => {
                return Err(e);
            },
        };
        let (f2, j2) = match read_u16(s, j1) {
            Ok(v) => v,
            Err(e) => {
                return Err(e);
            },
        };
        let (n3, j3) = match read_u16(s, j2) {
            Ok(v) => v,
            Err(e) => {
                return Err(e);
            },
        };
        let (f4, j4) = match parse_requires_entry_list(s, j3, n3 as usize) {
            Ok(v) => v,
            Err(e) => {
                return Err(e);
            },
        };
        let (n5, j5) = match read_u16(s, j4) {
            Ok(v) => v,
            Err(e) => {
                return Err(e);
            },
        };
        let (f6, j6) = match parse_exports_list(s, j5, n5 as usize) {
            Ok(v) => v,
            Err(e) => {
                return Err(e);
            },
        };
        let (n7, j7) = match read_u16(s, j6) {
            Ok(v) => v,
            Err(e) => {
                return Err(e);
            },
        };
        let (f8, j8) = match parse_opens_list(s, j7, n7 as usize) {
            Ok(v) => v,
            Err(e) => {
                return Err(e);
            },
        };
        let (n9, j9) = match read_u16(s, j8) {
            Ok(v) => v,
            Err(e) => {
                return Err(e);
            },
        };
        let (f10, j10) = match read_u16_list(s, j9, n9 as usize) {
            Ok(v) => v,
            Err(e) => {
                return Err(e);
            },
        };
        let (n11, j11) = match read_u16(s, j10) {
            Ok(v) => v,
            Err(e) => {
                return Err(e);
            },
        };
        let (f12, j12) = match parse_provides_list(s, j11, n11 as usize) {
            Ok(v) => v,
            Err(e) => {
                return Err(e);
            },
        };
        Ok((Module { module_name_index: f0, module_flags: f1, module_version_index: f2, requires_entries: f4, exports: f6, opens: f8, uses: f10, provides: f12 }, j12))
    }
}

/// Mirror of `parse_exports_list`: `n` consecutive `Exports` records.
pub open spec fn sp_exports_list(s: Seq<u8>, i: int, n: int) -> Result<(Seq<SpecExports>, int), SpecError>
    decreases n,
{
    if n <= 0 {
        Result::Ok((Seq::empty(), i))
    } else {
        match sp_exports(s, i) {
            Result::Err(e) => Result::Err(e),
            Result::Ok((v, j)) => match sp_exports_list(s, j, n - 1) {
                Result::Err(e) => Result::Err(e),
                Result::Ok((vs, k)) => Result::Ok((seq![v] + vs, k)),
            },
        }
    }
}

/// Read `n` consecutive `Exports` records.
pub fn parse_exports_list(s: &[u8], pos: usize, n: usize) -> (r: Result<(Vec<Exports>, usize), ClassError>)
    requires
        pos <= s@.len(),
    ensures
        res_eq(r, sp_exports_list(s@, pos as int, n as int)),
        advances(r, pos, s@.len() as int),
{
    let mut acc: Vec<Exports> = Vec::new();
    let mut k: usize = 0;
    let mut p: usize = pos;
    loop
        invariant
            k <= n,
            pos <= p <= s@.len(),
            sp_exports_list(s@, pos as int, n as int) == (match sp_exports_list(s@, p as int, n - k) {
                Result::Ok((vs, m)) => Result::<(Seq<SpecExports>, int), SpecError>::Ok(
                    (acc.deep_view() + vs, m),
                ),
                Result::Err(e) => Result::Err(e),
            }),
        decreases n - k,
    {
        if k == n {
            assert(acc.deep_view() + Seq::<SpecExports>::empty() =~= acc.deep_view());
            return Ok((acc, p));
        }
        let (v, j) = match Exports::parse(s, p) {
            Ok(t) => t,
            Err(e) => {
                return Err(e);
            },
        };
        let ghost prev = acc.deep_view();
        let ghost vdv = v.deep_view();
        acc.push(v);
        assert(acc.deep_view() =~= prev.push(vdv));
        proof {
            match sp_exports_list(s@, j as int, n - k - 1) {
                Result::Ok((vs2, m2)) => {
                    assert(sp_exports_list(s@, p as int, n - k) == Result::<
                        (Seq<SpecExports>, int),
                        SpecError,
                    >::Ok((seq![vdv] + vs2, m2)));
                    assert(prev + (seq![vdv] + vs2) =~= prev.push(vdv) + vs2);
                },
                Result::Err(e2) => {
                    assert(sp_exports_list(s@, p as int, n - k) == Result::<
                        (Seq<SpecExports>, int),
                        SpecError,
                    >::Err(e2));
                },
            }
        }
        p = j;
        k = k + 1;
    }
}

/// Mirror of `parse_opens_list`: `n` consecutive `Opens` records.
pub open spec fn sp_opens_list(s: Seq<u8>, i: int, n: int) -> Result<(Seq<SpecOpens>, int), SpecError>
    decreases n,
{
    if n <= 0 {
        Result::Ok((Seq::empty(), i))
    } else {
        match sp_opens(s, i) {
            Result::Err(e) => Result::Err(e),
            Result::Ok((v, j)) => match sp_opens_list(s, j, n - 1) {
                Result::Err(e) => Result::Err(e),
                Result::Ok((vs, k)) => Result::Ok((seq![v] + vs, k)),
            },
        }
    }
}

/// Read `n` consecutive `Opens` records.
pub fn parse_opens_list(s: &[u8], pos: usize, n: usize) -> (r: Result<(Vec<Opens>, usize), ClassError>)
    requires
        pos <= s@.len(),
    ensures
        res_eq(r, sp_opens_list(s@, pos as int, n as int)),
        advances(r, pos, s@.len() as int),
{
    let mut acc: Vec<Opens> = Vec::new();
    let mut k: usize = 0;
    let mut p: usize = pos;
    loop
        invariant
            k <= n,
            pos <= p <= s@.len(),
            sp_opens_list(s@, pos as int, n as int) == (match sp_opens_list(s@, p as int, n - k) {
                Result::Ok((vs, m)) => Result::<(Seq<SpecOpens>, int), SpecError>::Ok(
                    (acc.deep_view() + vs, m),
                ),
                Result::Err(e) => Result::Err(e),
            }),
        decreases n - k,
    {
        if k == n {
            assert(acc.deep_view() + Seq::<SpecOpens>::empty() =~= acc.deep_view());
            return Ok((acc, p));
        }
        let (v, j) = match Opens::parse(s, p) {
            Ok(t) => t,
            Err(e) => {
                return Err(e);
            },
        };
        let ghost prev = acc.deep_view();
        let ghost vdv = v.deep_view();
        acc.push(v);
        assert(acc.deep_view() =~= prev.push(vdv));
        proof {
            match sp_opens_list(s@, j as int, n - k - 1) {
                Result::Ok((vs2, m2)) => {
                    assert(sp_opens_list(s@, p as int, n - k) == Result::<
                        (Seq<SpecOpens>, int),
                        SpecError,
                    >::Ok((seq![vdv] + vs2, m2)));
                    assert(prev + (seq![vdv] + vs2) =~= prev.push(vdv) + vs2);
                },
                Result::Err(e2) => {
                    assert(sp_opens_list(s@, p as int, n - k) == Result::<
                        (Seq<SpecOpens>, int),
                        SpecError,
                    >::Err(e2));
                },
            }
        }
        p = j;
        k = k + 1;
    }
}

/// Mirror of `parse_provides_list`: `n` consecutive `Provides` records.
pub open spec fn sp_provides_list(s: Seq<u8>, i: int, n: int) -> Result<(Seq<SpecProvides>, int), SpecError>
    decreases n,
{
    if n <= 0 {
        Result::Ok((Seq::empty(), i))
    } else {
        match sp_provides(s, i) {
            Result::Err(e) => Result::Err(e),
            Result::Ok((v, j)) => match sp_provides_list(s, j, n - 1) {
                Result::Err(e) => Result::Err(e),
                Result::Ok((vs, k)) => Result::Ok((seq![v] + vs, k)),
            },
        }
    }
}

/// Read `n` consecutive `Provides` records.
pub fn parse_provides_list(s: &[u8], pos: usize, n: usize) -> (r: Result<(Vec<Provides>, usize), ClassError>)
    requires
        pos <= s@.len(),
    ensures
        res_eq(r, sp_provides_list(s@, pos as int, n as int)),
        advances(r, pos, s@.len() as int),
{
    let mut acc: Vec<Provides> = Vec::new();
    let mut k: usize = 0;
    let mut p: usize = pos;
    loop
        invariant
            k <= n,
            pos <= p <= s@.len(),
            sp_provides_list(s@, pos as int, n as int) == (match sp_provides_list(s@, p as int, n - k) {
                Result::Ok((vs, m)) => Result::<(Seq<SpecProvides>, int), SpecError>::Ok(
                    (acc.deep_view() + vs, m),
                ),
                Result::Err(e) => Result::Err(e),
            }),
        decreases n - k,
    {
        if k == n {
            assert(acc.deep_view() + Seq::<SpecProvides>::empty() =~= acc.deep_view());
            return Ok((acc, p));
        }
        let (v, j) = match Provides::parse(s, p) {
            Ok(t) => t,
            Err(e) => {
                return Err(e);
            },
        };
        let ghost prev = acc.deep_view();
        let ghost vdv = v.deep_view();
        acc.push(v);
        assert(acc.deep_view() =~= prev.push(vdv));
        proof {
            match sp_provides_list(s@, j as int, n - k - 1) {
                Result::Ok((vs2, m2)) => {
                    assert(sp_provides_list(s@, p as int, n - k) == Result::<
                        (Seq<SpecProvides>, int),
                        SpecError,
                    >::Ok((seq![vdv] + vs2, m2)));
                    assert(prev + (seq![vdv] + vs2) =~= prev.push(vdv) + vs2);
                },
                Result::Err(e2) => {
                    assert(sp_provides_list(s@, p as int, n - k) == Result::<
                        (Seq<SpecProvides>, int),
                        SpecError,
                    >::Err(e2));
                },
            }
        }
        p = j;
        k = k + 1;
    }
}

/// Mirror of `parse_bootstrap_method_list`: `n` consecutive `BootstrapMethod` records.
pub open spec fn sp_bootstrap_method_list(s: Seq<u8>, i: int, n: int) -> Result<(Seq<SpecBootstrapMethod>, int), SpecError>
    decreases n,
{
    if n <= 0 {
        Result::Ok((Seq::empty(), i))
    } else {
        match sp_bootstrap_method(s, i) {
            Result::Err(e) => Result::Err(e),
            Result::Ok((v, j)) => match sp_bootstrap_method_list(s, j, n - 1) {
                Result::Err(e) => Result::Err(e),
                Result::Ok((vs, k)) => Result::Ok((seq![v] + vs, k)),
            },
        }
    }
}

/// Read `n` consecutive `BootstrapMethod` records.
pub fn parse_bootstrap_method_list(s: &[u8], pos: usize, n: usize) -> (r: Result<(Vec<BootstrapMethod>, usize), ClassError>)
    requires
        pos <= s@.len(),
    ensures
        res_eq(r, sp_bootstrap_method_list(s@, pos as int, n as int)),
        advances(r, pos, s@.len() as int),
{
    let mut acc: Vec<BootstrapMethod> = Vec::new();
    let mut k: usize = 0;
    let mut p: usize = pos;
    loop
        invariant
            k <= n,
            pos <= p <= s@.len(),
            sp_bootstrap_method_list(s@, pos as int, n as int) == (match sp_bootstrap_method_list(s@, p as int, n - k) {
                Result::Ok((vs, m)) => Result::<(Seq<SpecBootstrapMethod>, int), SpecError>::Ok(
                    (acc.deep_view() + vs, m),
                ),
                Result::Err(e) => Result::Err(e),
            }),
        decreases n - k,
    {
        if k == n {
            assert(acc.deep_view() + Seq::<SpecBootstrapMethod>::empty() =~= acc.deep_view());
            return Ok((acc, p));
        }
        let (v, j) = match BootstrapMethod::parse(s, p) {
            Ok(t) => t,
            Err(e) => {
                return Err(e);
            },
        };
        let ghost prev = acc.deep_view();
        let ghost vdv = v.deep_view();
        acc.push(v);
        assert(acc.deep_view() =~= prev.push(vdv));
        proof {
            match sp_bootstrap_method_list(s@, j as int, n - k - 1) {
                Result::Ok((vs2, m2)) => {
                    assert(sp_bootstrap_method_list(s@, p as int, n - k) == Result::<
                        (Seq<SpecBootstrapMethod>, int),
                        SpecError,
                    >::Ok((seq![vdv] + vs2, m2)));
                    assert(prev + (seq![vdv] + vs2) =~= prev.push(vdv) + vs2);
                },
                Result::Err(e2) => {
                    assert(sp_bootstrap_method_list(s@, p as int, n - k) == Result::<
                        (Seq<SpecBootstrapMethod>, int),
                        SpecError,
                    >::Err(e2));
                },
            }
        }
        p = j;
        k = k + 1;
    }
}

} // verus!
