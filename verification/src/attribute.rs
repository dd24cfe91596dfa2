//! The typed attributes: the uniform length-prefixed envelope, and the
//! dispatcher that resolves an envelope's name through the constant pool
//! and parses the body with the sub-grammar that name selects.
//!
//! Every sub-grammar must consume exactly the envelope length; any residue
//! is an `AttributeLengthMismatch`. The `Code` and `Record` bodies nest
//! further attributes; that recursion is guarded by an explicit depth
//! bound.

use vstd::prelude::*;
use vstd::slice::slice_to_vec;
use vstd::string::*;

use crate::anno::Annotation;
use crate::anno::ElementValue;
use crate::anno::ParameterAnnotation;
use crate::anno::SpecAnnotation;
use crate::anno::SpecElementValue;
use crate::anno::SpecParameterAnnotation;
use crate::anno::SpecTypeAnnotation;
use crate::anno::TypeAnnotation;
use crate::anno::ELEMENT_VALUE_DEPTH_LIMIT;
use crate::anno::parse_annotation_list;
use crate::anno::parse_element_value;
use crate::anno::parse_parameter_annotation_list;
use crate::anno::parse_type_annotation_list;
use crate::anno::sp_annotation_list;
use crate::anno::sp_element_value;
use crate::anno::sp_parameter_annotation_list;
use crate::anno::sp_type_annotation_list;
use crate::constantpool::ConstantPool;
use crate::constantpool::SpecConstant;
use crate::constantpool::sp_pool_get;
use crate::cursor::advances;
use crate::cursor::read_bytes;
use crate::cursor::read_u16;
use crate::cursor::read_u16_list;
use crate::cursor::read_u32;
use crate::cursor::read_u8;
use crate::cursor::res_eq;
use crate::cursor::res_eq_nopos;
use crate::cursor::sp_bytes;
use crate::cursor::sp_u16;
use crate::cursor::sp_u16_list;
use crate::cursor::sp_u32;
use crate::cursor::sp_u8;
use crate::err::ClassError;
use crate::err::Policy;
use crate::err::SpecError;
use crate::records::EnclosingMethod;
use crate::records::Exception;
use crate::records::Exceptions;
use crate::records::InnerClasses;
use crate::records::LineNumber;
use crate::records::LocalVariable;
use crate::records::LocalVariableType;
use crate::records::Module;
use crate::records::Parameter;
use crate::records::Signature;
use crate::records::SourceFile;
use crate::records::BootstrapMethod;
use crate::records::SpecBootstrapMethod;
use crate::records::SpecExceptions;
use crate::records::SpecInnerClasses;
use crate::records::SpecModule;
use crate::records::parse_bootstrap_method_list;
use crate::records::parse_exception_list;
use crate::records::parse_line_number_list;
use crate::records::parse_local_variable_list;
use crate::records::parse_local_variable_type_list;
use crate::records::parse_parameter_list;
use crate::records::sp_bootstrap_method_list;
use crate::records::sp_enclosing_method;
use crate::records::sp_exception_list;
use crate::records::sp_exceptions;
use crate::records::sp_inner_classes;
use crate::records::sp_line_number_list;
use crate::records::sp_local_variable_list;
use crate::records::sp_local_variable_type_list;
use crate::records::sp_module;
use crate::records::sp_parameter_list;
use crate::records::sp_signature;
use crate::records::sp_source_file;
use crate::stackmap::SpecStackMapTable;
use crate::stackmap::StackMapTable;
use crate::stackmap::sp_stack_map_table;

verus! {

broadcast use vstd::std_specs::vec::group_vec_axioms;

/// How many levels of attribute nesting (a `Code` or `Record` body inside
/// an attribute) the decoder accepts before it fails with `NestingTooDeep`.
pub const ATTRIBUTE_DEPTH_LIMIT: u32 = 64;

/// The raw envelope of one attribute: a name index into the constant pool,
/// the declared body length, and exactly that many body bytes.
#[derive(Debug, Clone, PartialEq, Eq)]
pub struct AttributeInfo {
    pub attribute_name_index: u16,
    pub attribute_length: u32,
    pub info: Vec<u8>,
}

/// The mathematical shape of an `AttributeInfo`.
#[verifier::ext_equal]
pub struct SpecAttributeInfo {
    pub attribute_name_index: u16,
    pub attribute_length: u32,
    pub info: Seq<u8>,
}

impl DeepView for AttributeInfo {
    type V = SpecAttributeInfo;

    open spec fn deep_view(&self) -> SpecAttributeInfo {
        SpecAttributeInfo {
            attribute_name_index: self.attribute_name_index,
            attribute_length: self.attribute_length,
            info: self.info.deep_view(),
        }
    }
}

/// A typed attribute, one variant per JVM-defined attribute name, plus the
/// `Unknown` variant that the lenient policy uses to retain a vendor
/// attribute's raw envelope.
#[derive(Debug, PartialEq, Eq)]
pub enum Attribute {
    ConstantValue(u16),
    Code(Code),
    StackMapTable(StackMapTable),
    Exceptions(Exceptions),
    InnerClasses(InnerClasses),
    EnclosingMethod(EnclosingMethod),
    Synthetic,
    Signature(Signature),
    SourceFile(SourceFile),
    SourceDebugExtension(Vec<u8>),
    LineNumberTable(Vec<LineNumber>),
    LocalVariableTable(Vec<LocalVariable>),
    LocalVariableTypeTable(Vec<LocalVariableType>),
    Deprecated,
    RuntimeVisibleAnnotations(Vec<Annotation>),
    RuntimeInvisibleAnnotations(Vec<Annotation>),
    RuntimeVisibleParameterAnnotations(Vec<ParameterAnnotation>),
    RuntimeInvisibleParameterAnnotations(Vec<ParameterAnnotation>),
    RuntimeVisibleTypeAnnotations(Vec<TypeAnnotation>),
    RuntimeInvisibleTypeAnnotations(Vec<TypeAnnotation>),
    AnnotationDefault(ElementValue),
    BootstrapMethods(Vec<BootstrapMethod>),
    MethodParameters(Vec<Parameter>),
    Module(Module),
    ModulePackages(Vec<u16>),
    ModuleMainClass(u16),
    NestHost(u16),
    NestMembers(Vec<u16>),
    Record(Vec<RecordComponentInfo>),
    PermittedSubclasses(Vec<u16>),
    Unknown { name: Vec<u8>, info: Vec<u8> },
}

/// A method body: sizes, the raw instruction bytes, the exception table,
/// and nested attributes.
#[derive(Debug, PartialEq, Eq)]
pub struct Code {
    pub max_stack: u16,
    pub max_locals: u16,
    pub code_length: u32,
    pub code: Vec<u8>,
    pub exception_table_length: u16,
    pub exception_table: Vec<Exception>,
    pub attributes_count: u16,
    pub attributes: Vec<Attribute>,
}

/// One component of a `Record` attribute.
#[derive(Debug, PartialEq, Eq)]
pub struct RecordComponentInfo {
    pub name_index: u16,
    pub descriptor_index: u16,
    pub attributes: Vec<Attribute>,
}

/// The mathematical shape of an `Attribute`.
#[verifier::ext_equal]
pub enum SpecAttribute {
    ConstantValue(u16),
    Code(SpecCode),
    StackMapTable(SpecStackMapTable),
    Exceptions(SpecExceptions),
    InnerClasses(SpecInnerClasses),
    EnclosingMethod(EnclosingMethod),
    Synthetic,
    Signature(Signature),
    SourceFile(SourceFile),
    SourceDebugExtension(Seq<u8>),
    LineNumberTable(Seq<LineNumber>),
    LocalVariableTable(Seq<LocalVariable>),
    LocalVariableTypeTable(Seq<LocalVariableType>),
    Deprecated,
    RuntimeVisibleAnnotations(Seq<SpecAnnotation>),
    RuntimeInvisibleAnnotations(Seq<SpecAnnotation>),
    RuntimeVisibleParameterAnnotations(Seq<SpecParameterAnnotation>),
    RuntimeInvisibleParameterAnnotations(Seq<SpecParameterAnnotation>),
    RuntimeVisibleTypeAnnotations(Seq<SpecTypeAnnotation>),
    RuntimeInvisibleTypeAnnotations(Seq<SpecTypeAnnotation>),
    AnnotationDefault(SpecElementValue),
    BootstrapMethods(Seq<SpecBootstrapMethod>),
    MethodParameters(Seq<Parameter>),
    Module(SpecModule),
    ModulePackages(Seq<u16>),
    ModuleMainClass(u16),
    NestHost(u16),
    NestMembers(Seq<u16>),
    Record(Seq<SpecRecordComponentInfo>),
    PermittedSubclasses(Seq<u16>),
    Unknown { name: Seq<u8>, info: Seq<u8> },
}

/// The mathematical shape of a `Code`.
#[verifier::ext_equal]
pub struct SpecCode {
    pub max_stack: u16,
    pub max_locals: u16,
    pub code_length: u32,
    pub code: Seq<u8>,
    pub exception_table_length: u16,
    pub exception_table: Seq<Exception>,
    pub attributes_count: u16,
    pub attributes: Seq<SpecAttribute>,
}

/// The mathematical shape of a `RecordComponentInfo`.
#[verifier::ext_equal]
pub struct SpecRecordComponentInfo {
    pub name_index: u16,
    pub descriptor_index: u16,
    pub attributes: Seq<SpecAttribute>,
}

/// The shape of a run of attributes.
pub open spec fn sp_attrs_view(v: Vec<Attribute>) -> Seq<SpecAttribute>
    decreases v,
{
    Seq::new(
        v@.len(),
        |i: int|
            if 0 <= i < v@.len() {
                sp_attr_view(v[i])
            } else {
                vstd::pervasive::arbitrary()
            },
    )
}

/// The shape of a run of record components.
pub open spec fn sp_rcs_view(v: Vec<RecordComponentInfo>) -> Seq<SpecRecordComponentInfo>
    decreases v,
{
    Seq::new(
        v@.len(),
        |i: int|
            if 0 <= i < v@.len() {
                sp_rc_view(v[i])
            } else {
                vstd::pervasive::arbitrary()
            },
    )
}

/// The shape of a `RecordComponentInfo`.
pub open spec fn sp_rc_view(rc: RecordComponentInfo) -> SpecRecordComponentInfo
    decreases rc,
{
    SpecRecordComponentInfo {
        name_index: rc.name_index,
        descriptor_index: rc.descriptor_index,
        attributes: sp_attrs_view(rc.attributes),
    }
}

/// The shape of a `Code`.
pub open spec fn sp_code_view(c: Code) -> SpecCode
    decreases c,
{
    SpecCode {
        max_stack: c.max_stack,
        max_locals: c.max_locals,
        code_length: c.code_length,
        code: c.code.deep_view(),
        exception_table_length: c.exception_table_length,
        exception_table: c.exception_table.deep_view(),
        attributes_count: c.attributes_count,
        attributes: sp_attrs_view(c.attributes),
    }
}

/// The shape of an `Attribute`.
pub open spec fn sp_attr_view(a: Attribute) -> SpecAttribute
    decreases a,
{
    match a {
        Attribute::ConstantValue(x) => SpecAttribute::ConstantValue(x),
        Attribute::Code(c) => SpecAttribute::Code(sp_code_view(c)),
        Attribute::StackMapTable(t) => SpecAttribute::StackMapTable(t.deep_view()),
        Attribute::Exceptions(x) => SpecAttribute::Exceptions(x.deep_view()),
        Attribute::InnerClasses(x) => SpecAttribute::InnerClasses(x.deep_view()),
        Attribute::EnclosingMethod(x) => SpecAttribute::EnclosingMethod(x),
        Attribute::Synthetic => SpecAttribute::Synthetic,
        Attribute::Signature(x) => SpecAttribute::Signature(x),
        Attribute::SourceFile(x) => SpecAttribute::SourceFile(x),
        Attribute::SourceDebugExtension(v) => SpecAttribute::SourceDebugExtension(v.deep_view()),
        Attribute::LineNumberTable(v) => SpecAttribute::LineNumberTable(v.deep_view()),
        Attribute::LocalVariableTable(v) => SpecAttribute::LocalVariableTable(v.deep_view()),
        Attribute::LocalVariableTypeTable(v) => SpecAttribute::LocalVariableTypeTable(
            v.deep_view(),
        ),
        Attribute::Deprecated => SpecAttribute::Deprecated,
        Attribute::RuntimeVisibleAnnotations(v) => SpecAttribute::RuntimeVisibleAnnotations(
            v.deep_view(),
        ),
        Attribute::RuntimeInvisibleAnnotations(v) => SpecAttribute::RuntimeInvisibleAnnotations(
            v.deep_view(),
        ),
        Attribute::RuntimeVisibleParameterAnnotations(v) => {
            SpecAttribute::RuntimeVisibleParameterAnnotations(v.deep_view())
        },
        Attribute::RuntimeInvisibleParameterAnnotations(v) => {
            SpecAttribute::RuntimeInvisibleParameterAnnotations(v.deep_view())
        },
        Attribute::RuntimeVisibleTypeAnnotations(v) => {
            SpecAttribute::RuntimeVisibleTypeAnnotations(v.deep_view())
        },
        Attribute::RuntimeInvisibleTypeAnnotations(v) => {
            SpecAttribute::RuntimeInvisibleTypeAnnotations(v.deep_view())
        },
        Attribute::AnnotationDefault(ev) => SpecAttribute::AnnotationDefault(ev.deep_view()),
        Attribute::BootstrapMethods(v) => SpecAttribute::BootstrapMethods(v.deep_view()),
        Attribute::MethodParameters(v) => SpecAttribute::MethodParameters(v.deep_view()),
        Attribute::Module(m) => SpecAttribute::Module(m.deep_view()),
        Attribute::ModulePackages(v) => SpecAttribute::ModulePackages(v.deep_view()),
        Attribute::ModuleMainClass(x) => SpecAttribute::ModuleMainClass(x),
        Attribute::NestHost(x) => SpecAttribute::NestHost(x),
        Attribute::NestMembers(v) => SpecAttribute::NestMembers(v.deep_view()),
        Attribute::Record(v) => SpecAttribute::Record(sp_rcs_view(v)),
        Attribute::PermittedSubclasses(v) => SpecAttribute::PermittedSubclasses(v.deep_view()),
        Attribute::Unknown { name, info } => SpecAttribute::Unknown {
            name: name.deep_view(),
            info: info.deep_view(),
        },
    }
}

impl DeepView for Attribute {
    type V = SpecAttribute;

    open spec fn deep_view(&self) -> SpecAttribute {
        sp_attr_view(*self)
    }
}

impl DeepView for Code {
    type V = SpecCode;

    open spec fn deep_view(&self) -> SpecCode {
        sp_code_view(*self)
    }
}

impl DeepView for RecordComponentInfo {
    type V = SpecRecordComponentInfo;

    open spec fn deep_view(&self) -> SpecRecordComponentInfo {
        sp_rc_view(*self)
    }
}

/// The two shapes of a run of attributes agree.
pub proof fn lemma_attrs_view(v: Vec<Attribute>)
    ensures
        sp_attrs_view(v) =~= v.deep_view(),
{
}

/// The two shapes of a run of record components agree.
pub proof fn lemma_rcs_view(v: Vec<RecordComponentInfo>)
    ensures
        sp_rcs_view(v) =~= v.deep_view(),
{
}

/// Mirror of `AttributeInfo::parse`: the envelope frame.
pub open spec fn sp_attribute_info(s: Seq<u8>, i: int) -> Result<(SpecAttributeInfo, int), SpecError> {
    match sp_u16(s, i) {
        Result::Err(e) => Result::Err(e),
        Result::Ok((name_index, j)) => match sp_u32(s, j) {
            Result::Err(e) => Result::Err(e),
            Result::Ok((len, k)) => match sp_bytes(s, k, len as int) {
                Result::Err(e) => Result::Err(e),
                Result::Ok((body, m)) => Result::Ok(
                    (
                        SpecAttributeInfo {
                            attribute_name_index: name_index,
                            attribute_length: len,
                            info: body,
                        },
                        m,
                    ),
                ),
            },
        },
    }
}

/// Mirror of `parse_attribute_info_list`.
pub open spec fn sp_attribute_info_list(s: Seq<u8>, i: int, n: int) -> Result<
    (Seq<SpecAttributeInfo>, int),
    SpecError,
>
    decreases n,
{
    if n <= 0 {
        Result::Ok((Seq::empty(), i))
    } else {
        match sp_attribute_info(s, i) {
            Result::Err(e) => Result::Err(e),
            Result::Ok((v, j)) => match sp_attribute_info_list(s, j, n - 1) {
                Result::Err(e) => Result::Err(e),
                Result::Ok((vs, k)) => Result::Ok((seq![v] + vs, k)),
            },
        }
    }
}

impl AttributeInfo {
    /// Read one raw attribute envelope.
    pub fn parse(s: &[u8], pos: usize) -> (r: Result<(AttributeInfo, usize), ClassError>)
        requires
            pos <= s@.len(),
        ensures
            res_eq(r, sp_attribute_info(s@, pos as int)),
            advances(r, pos, s@.len() as int),
    {
        let (name_index, j) = match read_u16(s, pos) {
            Ok(v) => v,
            Err(e) => {
                return Err(e);
            },
        };
        let (len, k) = match read_u32(s, j) {
            Ok(v) => v,
            Err(e) => {
                return Err(e);
            },
        };
        match read_bytes(s, k, len as usize) {
            Ok((body, m)) => Ok(
                (
                    AttributeInfo {
                        attribute_name_index: name_index,
                        attribute_length: len,
                        info: body,
                    },
                    m,
                ),
            ),
            Err(e) => Err(e),
        }
    }
}

/// Read `n` consecutive raw attribute envelopes.
pub fn parse_attribute_info_list(s: &[u8], pos: usize, n: usize) -> (r: Result<
    (Vec<AttributeInfo>, usize),
    ClassError,
>)
    requires
        pos <= s@.len(),
    ensures
        res_eq(r, sp_attribute_info_list(s@, pos as int, n as int)),
        advances(r, pos, s@.len() as int),
{
    let mut acc: Vec<AttributeInfo> = Vec::new();
    let mut k: usize = 0;
    let mut p: usize = pos;
    loop
        invariant
            k <= n,
            pos <= p <= s@.len(),
            sp_attribute_info_list(s@, pos as int, n as int) == (match sp_attribute_info_list(
                s@,
                p as int,
                n - k,
            ) {
                Result::Ok((vs, m)) => Result::<(Seq<SpecAttributeInfo>, int), SpecError>::Ok(
                    (acc.deep_view() + vs, m),
                ),
                Result::Err(e) => Result::Err(e),
            }),
        decreases n - k,
    {
        if k == n {
            assert(acc.deep_view() + Seq::<SpecAttributeInfo>::empty() =~= acc.deep_view());
            return Ok((acc, p));
        }
        let (v, j) = match AttributeInfo::parse(s, p) {
            Ok(t) => t,
            Err(e) => {
                return Err(e);
            },
        };
        let ghost prev = acc.deep_view();
        let ghost vdv = v.deep_view();
        acc.push(v);
        assert(acc.deep_view() =~= prev.push(vdv));
        proof {
            match sp_attribute_info_list(s@, j as int, n - k - 1) {
                Result::Ok((vs2, m2)) => {
                    assert(sp_attribute_info_list(s@, p as int, n - k) == Result::<
                        (Seq<SpecAttributeInfo>, int),
                        SpecError,
                    >::Ok((seq![vdv] + vs2, m2)));
                    assert(prev + (seq![vdv] + vs2) =~= prev.push(vdv) + vs2);
                },
                Result::Err(e2) => {
                    assert(sp_attribute_info_list(s@, p as int, n - k) == Result::<
                        (Seq<SpecAttributeInfo>, int),
                        SpecError,
                    >::Err(e2));
                },
            }
        }
        p = j;
        k = k + 1;
    }
}

/// The length-mismatch error for an attribute body.
pub open spec fn sp_alm(name: Seq<u8>, declared: int, consumed: int) -> SpecError {
    SpecError::AttributeLengthMismatch { name: name, declared: declared, consumed: consumed }
}

/// Build the length-mismatch error for an attribute body.
fn alm(name: &Vec<u8>, declared: usize, consumed: usize) -> (r: ClassError)
    ensures
        r.deep_view() == sp_alm(name@, declared as int, consumed as int),
{
    ClassError::AttributeLengthMismatch {
        name: slice_to_vec(name.as_slice()),
        declared,
        consumed,
    }
}

/// The attribute name `"ConstantValue"`, as bytes.
pub open spec fn name_constant_value() -> Seq<u8> {
    "ConstantValue".spec_bytes()
}

/// The attribute name `"Code"`, as bytes.
pub open spec fn name_code() -> Seq<u8> {
    "Code".spec_bytes()
}

/// The attribute name `"StackMapTable"`, as bytes.
pub open spec fn name_stack_map_table() -> Seq<u8> {
    "StackMapTable".spec_bytes()
}

/// The attribute name `"Exceptions"`, as bytes.
pub open spec fn name_exceptions() -> Seq<u8> {
    "Exceptions".spec_bytes()
}

/// The attribute name `"InnerClasses"`, as bytes.
pub open spec fn name_inner_classes() -> Seq<u8> {
    "InnerClasses".spec_bytes()
}

/// The attribute name `"EnclosingMethod"`, as bytes.
pub open spec fn name_enclosing_method() -> Seq<u8> {
    "EnclosingMethod".spec_bytes()
}

/// The attribute name `"Synthetic"`, as bytes.
pub open spec fn name_synthetic() -> Seq<u8> {
    "Synthetic".spec_bytes()
}

/// The attribute name `"Signature"`, as bytes.
pub open spec fn name_signature() -> Seq<u8> {
    "Signature".spec_bytes()
}

/// The attribute name `"SourceFile"`, as bytes.
pub open spec fn name_source_file() -> Seq<u8> {
    "SourceFile".spec_bytes()
}

/// The attribute name `"SourceDebugExtension"`, as bytes.
pub open spec fn name_source_debug_extension() -> Seq<u8> {
    "SourceDebugExtension".spec_bytes()
}

/// The attribute name `"LineNumberTable"`, as bytes.
pub open spec fn name_line_number_table() -> Seq<u8> {
    "LineNumberTable".spec_bytes()
}

/// The attribute name `"LocalVariableTable"`, as bytes.
pub open spec fn name_local_variable_table() -> Seq<u8> {
    "LocalVariableTable".spec_bytes()
}

/// The attribute name `"LocalVariableTypeTable"`, as bytes.
pub open spec fn name_local_variable_type_table() -> Seq<u8> {
    "LocalVariableTypeTable".spec_bytes()
}

/// The attribute name `"Deprecated"`, as bytes.
pub open spec fn name_deprecated() -> Seq<u8> {
    "Deprecated".spec_bytes()
}

/// The attribute name `"RuntimeVisibleAnnotations"`, as bytes.
pub open spec fn name_runtime_visible_annotations() -> Seq<u8> {
    "RuntimeVisibleAnnotations".spec_bytes()
}

/// The attribute name `"RuntimeInvisibleAnnotations"`, as bytes.
pub open spec fn name_runtime_invisible_annotations() -> Seq<u8> {
    "RuntimeInvisibleAnnotations".spec_bytes()
}

/// The attribute name `"RuntimeVisibleParameterAnnotations"`, as bytes.
pub open spec fn name_runtime_visible_parameter_annotations() -> Seq<u8> {
    "RuntimeVisibleParameterAnnotations".spec_bytes()
}

/// The attribute name `"RuntimeInvisibleParameterAnnotations"`, as bytes.
pub open spec fn name_runtime_invisible_parameter_annotations() -> Seq<u8> {
    "RuntimeInvisibleParameterAnnotations".spec_bytes()
}

/// The attribute name `"RuntimeVisibleTypeAnnotations"`, as bytes.
pub open spec fn name_runtime_visible_type_annotations() -> Seq<u8> {
    "RuntimeVisibleTypeAnnotations".spec_bytes()
}

/// The attribute name `"RuntimeInvisibleTypeAnnotations"`, as bytes.
pub open spec fn name_runtime_invisible_type_annotations() -> Seq<u8> {
    "RuntimeInvisibleTypeAnnotations".spec_bytes()
}

/// The attribute name `"AnnotationDefault"`, as bytes.
pub open spec fn name_annotation_default() -> Seq<u8> {
    "AnnotationDefault".spec_bytes()
}

/// The attribute name `"BootstrapMethods"`, as bytes.
pub open spec fn name_bootstrap_methods() -> Seq<u8> {
    "BootstrapMethods".spec_bytes()
}

/// The attribute name `"MethodParameters"`, as bytes.
pub open spec fn name_method_parameters() -> Seq<u8> {
    "MethodParameters".spec_bytes()
}

/// The attribute name `"Module"`, as bytes.
pub open spec fn name_module() -> Seq<u8> {
    "Module".spec_bytes()
}

/// The attribute name `"ModulePackages"`, as bytes.
pub open spec fn name_module_packages() -> Seq<u8> {
    "ModulePackages".spec_bytes()
}

/// The attribute name `"ModuleMainClass"`, as bytes.
pub open spec fn name_module_main_class() -> Seq<u8> {
    "ModuleMainClass".spec_bytes()
}

/// The attribute name `"NestHost"`, as bytes.
pub open spec fn name_nest_host() -> Seq<u8> {
    "NestHost".spec_bytes()
}

/// The attribute name `"NestMembers"`, as bytes.
pub open spec fn name_nest_members() -> Seq<u8> {
    "NestMembers".spec_bytes()
}

/// The attribute name `"Record"`, as bytes.
pub open spec fn name_record() -> Seq<u8> {
    "Record".spec_bytes()
}

/// The attribute name `"PermittedSubclasses"`, as bytes.
pub open spec fn name_permitted_subclasses() -> Seq<u8> {
    "PermittedSubclasses".spec_bytes()
}

/// Mirror of the attribute body dispatcher: parse the body `info` with the
/// sub-grammar selected by `name`, requiring it to consume exactly the
/// body. An unknown name fails under `Policy::Strict` and is retained
/// raw under `Policy::Lenient`.
pub open spec fn sp_attribute_body(
    name: Seq<u8>,
    info: Seq<u8>,
    pool: Seq<SpecConstant>,
    pol: Policy,
    d: int,
) -> Result<SpecAttribute, SpecError>
    decreases d, 2int, 0int,
{
    if name == name_constant_value() {
        match sp_u16(info, 0) {
            Result::Err(e) => Result::Err(e),
            Result::Ok((x, j)) => {
                if j == info.len() {
                    Result::Ok(SpecAttribute::ConstantValue(x))
                } else {
                    Result::Err(sp_alm(name, info.len() as int, j))
                }
            },
        }
    } else if name == name_code() {
        match sp_code(info, 0, pool, pol, d) {
            Result::Err(e) => Result::Err(e),
            Result::Ok((c, j)) => {
                if j == info.len() {
                    Result::Ok(SpecAttribute::Code(c))
                } else {
                    Result::Err(sp_alm(name, info.len() as int, j))
                }
            },
        }
    } else if name == name_stack_map_table() {
        match sp_stack_map_table(info, 0) {
            Result::Err(e) => Result::Err(e),
            Result::Ok((x, j)) => {
                if j == info.len() {
                    Result::Ok(SpecAttribute::StackMapTable(x))
                } else {
                    Result::Err(sp_alm(name, info.len() as int, j))
                }
            },
        }
    } else if name == name_exceptions() {
        match sp_exceptions(info, 0) {
            Result::Err(e) => Result::Err(e),
            Result::Ok((x, j)) => {
                if j == info.len() {
                    Result::Ok(SpecAttribute::Exceptions(x))
                } else {
                    Result::Err(sp_alm(name, info.len() as int, j))
                }
            },
        }
    } else if name == name_inner_classes() {
        match sp_inner_classes(info, 0) {
            Result::Err(e) => Result::Err(e),
            Result::Ok((x, j)) => {
                if j == info.len() {
                    Result::Ok(SpecAttribute::InnerClasses(x))
                } else {
                    Result::Err(sp_alm(name, info.len() as int, j))
                }
            },
        }
    } else if name == name_enclosing_method() {
        match sp_enclosing_method(info, 0) {
            Result::Err(e) => Result::Err(e),
            Result::Ok((x, j)) => {
                if j == info.len() {
                    Result::Ok(SpecAttribute::EnclosingMethod(x))
                } else {
                    Result::Err(sp_alm(name, info.len() as int, j))
                }
            },
        }
    } else if name == name_synthetic() {
        if info.len() == 0 {
            Result::Ok(SpecAttribute::Synthetic)
        } else {
            Result::Err(sp_alm(name, info.len() as int, 0))
        }
    } else if name == name_signature() {
        match sp_signature(info, 0) {
            Result::Err(e) => Result::Err(e),
            Result::Ok((x, j)) => {
                if j == info.len() {
                    Result::Ok(SpecAttribute::Signature(x))
                } else {
                    Result::Err(sp_alm(name, info.len() as int, j))
                }
            },
        }
    } else if name == name_source_file() {
        match sp_source_file(info, 0) {
            Result::Err(e) => Result::Err(e),
            Result::Ok((x, j)) => {
                if j == info.len() {
                    Result::Ok(SpecAttribute::SourceFile(x))
                } else {
                    Result::Err(sp_alm(name, info.len() as int, j))
                }
            },
        }
    } else if name == name_source_debug_extension() {
        Result::Ok(SpecAttribute::SourceDebugExtension(info))
    } else if name == name_line_number_table() {
        match sp_u16(info, 0) {
            Result::Err(e) => Result::Err(e),
            Result::Ok((n, j)) => match sp_line_number_list(info, j, n as int) {
                Result::Err(e) => Result::Err(e),
                Result::Ok((xs, k)) => {
                    if k == info.len() {
                        Result::Ok(SpecAttribute::LineNumberTable(xs))
                    } else {
                        Result::Err(sp_alm(name, info.len() as int, k))
                    }
                },
            },
        }
    } else if name == name_local_variable_table() {
        match sp_u16(info, 0) {
            Result::Err(e) => Result::Err(e),
            Result::Ok((n, j)) => match sp_local_variable_list(info, j, n as int) {
                Result::Err(e) => Result::Err(e),
                Result::Ok((xs, k)) => {
                    if k == info.len() {
                        Result::Ok(SpecAttribute::LocalVariableTable(xs))
                    } else {
                        Result::Err(sp_alm(name, info.len() as int, k))
                    }
                },
            },
        }
    } else if name == name_local_variable_type_table() {
        match sp_u16(info, 0) {
            Result::Err(e) => Result::Err(e),
            Result::Ok((n, j)) => match sp_local_variable_type_list(info, j, n as int) {
                Result::Err(e) => Result::Err(e),
                Result::Ok((xs, k)) => {
                    if k == info.len() {
                        Result::Ok(SpecAttribute::LocalVariableTypeTable(xs))
                    } else {
                        Result::Err(sp_alm(name, info.len() as int, k))
                    }
                },
            },
        }
    } else if name == name_deprecated() {
        if info.len() == 0 {
            Result::Ok(SpecAttribute::Deprecated)
        } else {
            Result::Err(sp_alm(name, info.len() as int, 0))
        }
    } else if name == name_runtime_visible_annotations() {
        match sp_u16(info, 0) {
            Result::Err(e) => Result::Err(e),
            Result::Ok((n, j)) => match sp_annotation_list(info, j, n as int, ELEMENT_VALUE_DEPTH_LIMIT as int) {
                Result::Err(e) => Result::Err(e),
                Result::Ok((xs, k)) => {
                    if k == info.len() {
                        Result::Ok(SpecAttribute::RuntimeVisibleAnnotations(xs))
                    } else {
                        Result::Err(sp_alm(name, info.len() as int, k))
                    }
                },
            },
        }
    } else if name == name_runtime_invisible_annotations() {
        match sp_u16(info, 0) {
            Result::Err(e) => Result::Err(e),
            Result::Ok((n, j)) => match sp_annotation_list(info, j, n as int, ELEMENT_VALUE_DEPTH_LIMIT as int) {
                Result::Err(e) => Result::Err(e),
                Result::Ok((xs, k)) => {
                    if k == info.len() {
                        Result::Ok(SpecAttribute::RuntimeInvisibleAnnotations(xs))
                    } else {
                        Result::Err(sp_alm(name, info.len() as int, k))
                    }
                },
            },
        }
    } else if name == name_runtime_visible_parameter_annotations() {
        match sp_u8(info, 0) {
            Result::Err(e) => Result::Err(e),
            Result::Ok((n, j)) => match sp_parameter_annotation_list(info, j, n as int, ELEMENT_VALUE_DEPTH_LIMIT as int) {
                Result::Err(e) => Result::Err(e),
                Result::Ok((xs, k)) => {
                    if k == info.len() {
                        Result::Ok(SpecAttribute::RuntimeVisibleParameterAnnotations(xs))
                    } else {
                        Result::Err(sp_alm(name, info.len() as int, k))
                    }
                },
            },
        }
    } else if name == name_runtime_invisible_parameter_annotations() {
        match sp_u8(info, 0) {
            Result::Err(e) => Result::Err(e),
            Result::Ok((n, j)) => match sp_parameter_annotation_list(info, j, n as int, ELEMENT_VALUE_DEPTH_LIMIT as int) {
                Result::Err(e) => Result::Err(e),
                Result::Ok((xs, k)) => {
                    if k == info.len() {
                        Result::Ok(SpecAttribute::RuntimeInvisibleParameterAnnotations(xs))
                    } else {
                        Result::Err(sp_alm(name, info.len() as int, k))
                    }
                },
            },
        }
    } else if name == name_runtime_visible_type_annotations() {
        match sp_u16(info, 0) {
            Result::Err(e) => Result::Err(e),
            Result::Ok((n, j)) => match sp_type_annotation_list(info, j, n as int, ELEMENT_VALUE_DEPTH_LIMIT as int) {
                Result::Err(e) => Result::Err(e),
                Result::Ok((xs, k)) => {
                    if k == info.len() {
                        Result::Ok(SpecAttribute::RuntimeVisibleTypeAnnotations(xs))
                    } else {
                        Result::Err(sp_alm(name, info.len() as int, k))
                    }
                },
            },
        }
    } else if name == name_runtime_invisible_type_annotations() {
        match sp_u16(info, 0) {
            Result::Err(e) => Result::Err(e),
            Result::Ok((n, j)) => match sp_type_annotation_list(info, j, n as int, ELEMENT_VALUE_DEPTH_LIMIT as int) {
                Result::Err(e) => Result::Err(e),
                Result::Ok((xs, k)) => {
                    if k == info.len() {
                        Result::Ok(SpecAttribute::RuntimeInvisibleTypeAnnotations(xs))
                    } else {
                        Result::Err(sp_alm(name, info.len() as int, k))
                    }
                },
            },
        }
    } else if name == name_annotation_default() {
        match sp_element_value(info, 0, ELEMENT_VALUE_DEPTH_LIMIT as int) {
            Result::Err(e) => Result::Err(e),
            Result::Ok((ev, j)) => {
                if j == info.len() {
                    Result::Ok(SpecAttribute::AnnotationDefault(ev))
                } else {
                    Result::Err(sp_alm(name, info.len() as int, j))
                }
            },
        }
    } else if name == name_bootstrap_methods() {
        match sp_u16(info, 0) {
            Result::Err(e) => Result::Err(e),
            Result::Ok((n, j)) => match sp_bootstrap_method_list(info, j, n as int) {
                Result::Err(e) => Result::Err(e),
                Result::Ok((xs, k)) => {
                    if k == info.len() {
                        Result::Ok(SpecAttribute::BootstrapMethods(xs))
                    } else {
                        Result::Err(sp_alm(name, info.len() as int, k))
                    }
                },
            },
        }
    } else if name == name_method_parameters() {
        match sp_u8(info, 0) {
            Result::Err(e) => Result::Err(e),
            Result::Ok((n, j)) => match sp_parameter_list(info, j, n as int) {
                Result::Err(e) => Result::Err(e),
                Result::Ok((xs, k)) => {
                    if k == info.len() {
                        Result::Ok(SpecAttribute::MethodParameters(xs))
                    } else {
                        Result::Err(sp_alm(name, info.len() as int, k))
                    }
                },
            },
        }
    } else if name == name_module() {
        match sp_module(info, 0) {
            Result::Err(e) => Result::Err(e),
            Result::Ok((x, j)) => {
                if j == info.len() {
                    Result::Ok(SpecAttribute::Module(x))
                } else {
                    Result::Err(sp_alm(name, info.len() as int, j))
                }
            },
        }
    } else if name == name_module_packages() {
        match sp_u16(info, 0) {
            Result::Err(e) => Result::Err(e),
            Result::Ok((n, j)) => match sp_u16_list(info, j, n as int) {
                Result::Err(e) => Result::Err(e),
                Result::Ok((xs, k)) => {
                    if k == info.len() {
                        Result::Ok(SpecAttribute::ModulePackages(xs))
                    } else {
                        Result::Err(sp_alm(name, info.len() as int, k))
                    }
                },
            },
        }
    } else if name == name_module_main_class() {
        match sp_u16(info, 0) {
            Result::Err(e) => Result::Err(e),
            Result::Ok((x, j)) => {
                if j == info.len() {
                    Result::Ok(SpecAttribute::ModuleMainClass(x))
                } else {
                    Result::Err(sp_alm(name, info.len() as int, j))
                }
            },
        }
    } else if name == name_nest_host() {
        match sp_u16(info, 0) {
            Result::Err(e) => Result::Err(e),
            Result::Ok((x, j)) => {
                if j == info.len() {
                    Result::Ok(SpecAttribute::NestHost(x))
                } else {
                    Result::Err(sp_alm(name, info.len() as int, j))
                }
            },
        }
    } else if name == name_nest_members() {
        match sp_u16(info, 0) {
            Result::Err(e) => Result::Err(e),
            Result::Ok((n, j)) => match sp_u16_list(info, j, n as int) {
                Result::Err(e) => Result::Err(e),
                Result::Ok((xs, k)) => {
                    if k == info.len() {
                        Result::Ok(SpecAttribute::NestMembers(xs))
                    } else {
                        Result::Err(sp_alm(name, info.len() as int, k))
                    }
                },
            },
        }
    } else if name == name_record() {
        match sp_u16(info, 0) {
            Result::Err(e) => Result::Err(e),
            Result::Ok((n, j)) => match sp_record_component_list(info, j, n as int, pool, pol, d) {
                Result::Err(e) => Result::Err(e),
                Result::Ok((xs, k)) => {
                    if k == info.len() {
                        Result::Ok(SpecAttribute::Record(xs))
                    } else {
                        Result::Err(sp_alm(name, info.len() as int, k))
                    }
                },
            },
        }
    } else if name == name_permitted_subclasses() {
        match sp_u16(info, 0) {
            Result::Err(e) => Result::Err(e),
            Result::Ok((n, j)) => match sp_u16_list(info, j, n as int) {
                Result::Err(e) => Result::Err(e),
                Result::Ok((xs, k)) => {
                    if k == info.len() {
                        Result::Ok(SpecAttribute::PermittedSubclasses(xs))
                    } else {
                        Result::Err(sp_alm(name, info.len() as int, k))
                    }
                },
            },
        }
    } else {
        match pol {
            Policy::Strict => Result::Err(SpecError::UnknownAttribute { name: name }),
            Policy::Lenient => Result::Ok(SpecAttribute::Unknown { name: name, info: info }),
        }
    }
}

/// Parse the body `info` of an attribute named `name`, with the
/// sub-grammar that the name selects. The body must be consumed exactly.
#[verifier::rlimit(100)]
fn attribute_body(
    name: &Vec<u8>,
    info: &[u8],
    constant_pool: &Vec<ConstantPool>,
    pol: Policy,
    d: u32,
) -> (r: Result<Attribute, ClassError>)
    ensures
        res_eq_nopos(
            r,
            sp_attribute_body(name@, info@, constant_pool.deep_view(), pol, d as int),
        ),
    decreases d, 2int, 0int,
{
    if crate::cursor::bytes_eq(name.as_slice(), "ConstantValue".as_bytes()) {
        match read_u16(info, 0) {
            Err(e) => Err(e),
            Ok((x, j)) => {
                if j == info.len() {
                    Ok(Attribute::ConstantValue(x))
                } else {
                    Err(alm(name, info.len(), j))
                }
            },
        }
    } else if crate::cursor::bytes_eq(name.as_slice(), "Code".as_bytes()) {
        match Code::parse(info, 0, constant_pool, pol, d) {
            Err(e) => Err(e),
            Ok((c, j)) => {
                if j == info.len() {
                    Ok(Attribute::Code(c))
                } else {
                    Err(alm(name, info.len(), j))
                }
            },
        }
    } else if crate::cursor::bytes_eq(name.as_slice(), "StackMapTable".as_bytes()) {
        match StackMapTable::parse(info, 0) {
            Err(e) => Err(e),
            Ok((x, j)) => {
                if j == info.len() {
                    Ok(Attribute::StackMapTable(x))
                } else {
                    Err(alm(name, info.len(), j))
                }
            },
        }
    } else if crate::cursor::bytes_eq(name.as_slice(), "Exceptions".as_bytes()) {
        match Exceptions::parse(info, 0) {
            Err(e) => Err(e),
            Ok((x, j)) => {
                if j == info.len() {
                    Ok(Attribute::Exceptions(x))
                } else {
                    Err(alm(name, info.len(), j))
                }
            },
        }
    } else if crate::cursor::bytes_eq(name.as_slice(), "InnerClasses".as_bytes()) {
        match InnerClasses::parse(info, 0) {
            Err(e) => Err(e),
            Ok((x, j)) => {
                if j == info.len() {
                    Ok(Attribute::InnerClasses(x))
                } else {
                    Err(alm(name, info.len(), j))
                }
            },
        }
    } else if crate::cursor::bytes_eq(name.as_slice(), "EnclosingMethod".as_bytes()) {
        match EnclosingMethod::parse(info, 0) {
            Err(e) => Err(e),
            Ok((x, j)) => {
                if j == info.len() {
                    Ok(Attribute::EnclosingMethod(x))
                } else {
                    Err(alm(name, info.len(), j))
                }
            },
        }
    } else if crate::cursor::bytes_eq(name.as_slice(), "Synthetic".as_bytes()) {
        if info.len() == 0 {
            Ok(Attribute::Synthetic)
        } else {
            Err(alm(name, info.len(), 0))
        }
    } else if crate::cursor::bytes_eq(name.as_slice(), "Signature".as_bytes()) {
        match Signature::parse(info, 0) {
            Err(e) => Err(e),
            Ok((x, j)) => {
                if j == info.len() {
                    Ok(Attribute::Signature(x))
                } else {
                    Err(alm(name, info.len(), j))
                }
            },
        }
    } else if crate::cursor::bytes_eq(name.as_slice(), "SourceFile".as_bytes()) {
        match SourceFile::parse(info, 0) {
            Err(e) => Err(e),
            Ok((x, j)) => {
                if j == info.len() {
                    Ok(Attribute::SourceFile(x))
                } else {
                    Err(alm(name, info.len(), j))
                }
            },
        }
    } else if crate::cursor::bytes_eq(name.as_slice(), "SourceDebugExtension".as_bytes()) {
        let body = slice_to_vec(info);
        assert(body.deep_view() =~= body@);
        Ok(Attribute::SourceDebugExtension(body))
    } else if crate::cursor::bytes_eq(name.as_slice(), "LineNumberTable".as_bytes()) {
        let (n, j) = match read_u16(info, 0) {
            Ok(v) => v,
            Err(e) => {
                return Err(e);
            },
        };
        match parse_line_number_list(info, j, n as usize) {
            Err(e) => Err(e),
            Ok((xs, k)) => {
                if k == info.len() {
                    Ok(Attribute::LineNumberTable(xs))
                } else {
                    Err(alm(name, info.len(), k))
                }
            },
        }
    } else if crate::cursor::bytes_eq(name.as_slice(), "LocalVariableTable".as_bytes()) {
        let (n, j) = match read_u16(info, 0) {
            Ok(v) => v,
            Err(e) => {
                return Err(e);
            },
        };
        match parse_local_variable_list(info, j, n as usize) {
            Err(e) => Err(e),
            Ok((xs, k)) => {
                if k == info.len() {
                    Ok(Attribute::LocalVariableTable(xs))
                } else {
                    Err(alm(name, info.len(), k))
                }
            },
        }
    } else if crate::cursor::bytes_eq(name.as_slice(), "LocalVariableTypeTable".as_bytes()) {
        let (n, j) = match read_u16(info, 0) {
            Ok(v) => v,
            Err(e) => {
                return Err(e);
            },
        };
        match parse_local_variable_type_list(info, j, n as usize) {
            Err(e) => Err(e),
            Ok((xs, k)) => {
                if k == info.len() {
                    Ok(Attribute::LocalVariableTypeTable(xs))
                } else {
                    Err(alm(name, info.len(), k))
                }
            },
        }
    } else if crate::cursor::bytes_eq(name.as_slice(), "Deprecated".as_bytes()) {
        if info.len() == 0 {
            Ok(Attribute::Deprecated)
        } else {
            Err(alm(name, info.len(), 0))
        }
    } else if crate::cursor::bytes_eq(name.as_slice(), "RuntimeVisibleAnnotations".as_bytes()) {
        let (n, j) = match read_u16(info, 0) {
            Ok(v) => v,
            Err(e) => {
                return Err(e);
            },
        };
        match parse_annotation_list(info, j, n as usize, ELEMENT_VALUE_DEPTH_LIMIT) {
            Err(e) => Err(e),
            Ok((xs, k)) => {
                if k == info.len() {
                    Ok(Attribute::RuntimeVisibleAnnotations(xs))
                } else {
                    Err(alm(name, info.len(), k))
                }
            },
        }
    } else if crate::cursor::bytes_eq(name.as_slice(), "RuntimeInvisibleAnnotations".as_bytes()) {
        let (n, j) = match read_u16(info, 0) {
            Ok(v) => v,
            Err(e) => {
                return Err(e);
            },
        };
        match parse_annotation_list(info, j, n as usize, ELEMENT_VALUE_DEPTH_LIMIT) {
            Err(e) => Err(e),
            Ok((xs, k)) => {
                if k == info.len() {
                    Ok(Attribute::RuntimeInvisibleAnnotations(xs))
                } else {
                    Err(alm(name, info.len(), k))
                }
            },
        }
    } else if crate::cursor::bytes_eq(name.as_slice(), "RuntimeVisibleParameterAnnotations".as_bytes()) {
        let (n, j) = match read_u8(info, 0) {
            Ok(v) => v,
            Err(e) => {
                return Err(e);
            },
        };
        match parse_parameter_annotation_list(info, j, n as usize, ELEMENT_VALUE_DEPTH_LIMIT) {
            Err(e) => Err(e),
            Ok((xs, k)) => {
                if k == info.len() {
                    Ok(Attribute::RuntimeVisibleParameterAnnotations(xs))
                } else {
                    Err(alm(name, info.len(), k))
                }
            },
        }
    } else if crate::cursor::bytes_eq(name.as_slice(), "RuntimeInvisibleParameterAnnotations".as_bytes()) {
        let (n, j) = match read_u8(info, 0) {
            Ok(v) => v,
            Err(e) => {
                return Err(e);
            },
        };
        match parse_parameter_annotation_list(info, j, n as usize, ELEMENT_VALUE_DEPTH_LIMIT) {
            Err(e) => Err(e),
            Ok((xs, k)) => {
                if k == info.len() {
                    Ok(Attribute::RuntimeInvisibleParameterAnnotations(xs))
                } else {
                    Err(alm(name, info.len(), k))
                }
            },
        }
    } else if crate::cursor::bytes_eq(name.as_slice(), "RuntimeVisibleTypeAnnotations".as_bytes()) {
        let (n, j) = match read_u16(info, 0) {
            Ok(v) => v,
            Err(e) => {
                return Err(e);
            },
        };
        match parse_type_annotation_list(info, j, n as usize, ELEMENT_VALUE_DEPTH_LIMIT) {
            Err(e) => Err(e),
            Ok((xs, k)) => {
                if k == info.len() {
                    Ok(Attribute::RuntimeVisibleTypeAnnotations(xs))
                } else {
                    Err(alm(name, info.len(), k))
                }
            },
        }
    } else if crate::cursor::bytes_eq(name.as_slice(), "RuntimeInvisibleTypeAnnotations".as_bytes()) {
        let (n, j) = match read_u16(info, 0) {
            Ok(v) => v,
            Err(e) => {
                return Err(e);
            },
        };
        match parse_type_annotation_list(info, j, n as usize, ELEMENT_VALUE_DEPTH_LIMIT) {
            Err(e) => Err(e),
            Ok((xs, k)) => {
                if k == info.len() {
                    Ok(Attribute::RuntimeInvisibleTypeAnnotations(xs))
                } else {
                    Err(alm(name, info.len(), k))
                }
            },
        }
    } else if crate::cursor::bytes_eq(name.as_slice(), "AnnotationDefault".as_bytes()) {
        match parse_element_value(info, 0, ELEMENT_VALUE_DEPTH_LIMIT) {
            Err(e) => Err(e),
            Ok((ev, j)) => {
                if j == info.len() {
                    Ok(Attribute::AnnotationDefault(ev))
                } else {
                    Err(alm(name, info.len(), j))
                }
            },
        }
    } else if crate::cursor::bytes_eq(name.as_slice(), "BootstrapMethods".as_bytes()) {
        let (n, j) = match read_u16(info, 0) {
            Ok(v) => v,
            Err(e) => {
                return Err(e);
            },
        };
        match parse_bootstrap_method_list(info, j, n as usize) {
            Err(e) => Err(e),
            Ok((xs, k)) => {
                if k == info.len() {
                    Ok(Attribute::BootstrapMethods(xs))
                } else {
                    Err(alm(name, info.len(), k))
                }
            },
        }
    } else if crate::cursor::bytes_eq(name.as_slice(), "MethodParameters".as_bytes()) {
        let (n, j) = match read_u8(info, 0) {
            Ok(v) => v,
            Err(e) => {
                return Err(e);
            },
        };
        match parse_parameter_list(info, j, n as usize) {
            Err(e) => Err(e),
            Ok((xs, k)) => {
                if k == info.len() {
                    Ok(Attribute::MethodParameters(xs))
                } else {
                    Err(alm(name, info.len(), k))
                }
            },
        }
    } else if crate::cursor::bytes_eq(name.as_slice(), "Module".as_bytes()) {
        match Module::parse(info, 0) {
            Err(e) => Err(e),
            Ok((x, j)) => {
                if j == info.len() {
                    Ok(Attribute::Module(x))
                } else {
                    Err(alm(name, info.len(), j))
                }
            },
        }
    } else if crate::cursor::bytes_eq(name.as_slice(), "ModulePackages".as_bytes()) {
        let (n, j) = match read_u16(info, 0) {
            Ok(v) => v,
            Err(e) => {
                return Err(e);
            },
        };
        match read_u16_list(info, j, n as usize) {
            Err(e) => Err(e),
            Ok((xs, k)) => {
                if k == info.len() {
                    Ok(Attribute::ModulePackages(xs))
                } else {
                    Err(alm(name, info.len(), k))
                }
            },
        }
    } else if crate::cursor::bytes_eq(name.as_slice(), "ModuleMainClass".as_bytes()) {
        match read_u16(info, 0) {
            Err(e) => Err(e),
            Ok((x, j)) => {
                if j == info.len() {
                    Ok(Attribute::ModuleMainClass(x))
                } else {
                    Err(alm(name, info.len(), j))
                }
            },
        }
    } else if crate::cursor::bytes_eq(name.as_slice(), "NestHost".as_bytes()) {
        match read_u16(info, 0) {
            Err(e) => Err(e),
            Ok((x, j)) => {
                if j == info.len() {
                    Ok(Attribute::NestHost(x))
                } else {
                    Err(alm(name, info.len(), j))
                }
            },
        }
    } else if crate::cursor::bytes_eq(name.as_slice(), "NestMembers".as_bytes()) {
        let (n, j) = match read_u16(info, 0) {
            Ok(v) => v,
            Err(e) => {
                return Err(e);
            },
        };
        match read_u16_list(info, j, n as usize) {
            Err(e) => Err(e),
            Ok((xs, k)) => {
                if k == info.len() {
                    Ok(Attribute::NestMembers(xs))
                } else {
                    Err(alm(name, info.len(), k))
                }
            },
        }
    } else if crate::cursor::bytes_eq(name.as_slice(), "Record".as_bytes()) {
        let (n, j) = match read_u16(info, 0) {
            Ok(v) => v,
            Err(e) => {
                return Err(e);
            },
        };
        match parse_record_component_list(info, j, n as usize, constant_pool, pol, d) {
            Err(e) => Err(e),
            Ok((xs, k)) => {
                if k == info.len() {
                    proof {
                        lemma_rcs_view(xs);
                    }
                    Ok(Attribute::Record(xs))
                } else {
                    Err(alm(name, info.len(), k))
                }
            },
        }
    } else if crate::cursor::bytes_eq(name.as_slice(), "PermittedSubclasses".as_bytes()) {
        let (n, j) = match read_u16(info, 0) {
            Ok(v) => v,
            Err(e) => {
                return Err(e);
            },
        };
        match read_u16_list(info, j, n as usize) {
            Err(e) => Err(e),
            Ok((xs, k)) => {
                if k == info.len() {
                    Ok(Attribute::PermittedSubclasses(xs))
                } else {
                    Err(alm(name, info.len(), k))
                }
            },
        }
    } else {
        match pol {
            Policy::Strict => Err(
                ClassError::UnknownAttribute { name: slice_to_vec(name.as_slice()) },
            ),
            Policy::Lenient => {
                let nv = slice_to_vec(name.as_slice());
                let iv = slice_to_vec(info);
                assert(nv.deep_view() =~= nv@);
                assert(iv.deep_view() =~= iv@);
                Ok(Attribute::Unknown { name: nv, info: iv })
            },
        }
    }
}

/// Mirror of `Attribute::parse`: resolve the name index in the pool (it
/// must name a `UTF8` entry) and dispatch on the name.
pub open spec fn sp_attribute_from_info(
    name_index: u16,
    info: Seq<u8>,
    pool: Seq<SpecConstant>,
    pol: Policy,
    d: int,
) -> Result<SpecAttribute, SpecError>
    decreases d, 3int, 0int,
{
    match sp_pool_get(pool, name_index) {
        Result::Err(e) => Result::Err(e),
        Result::Ok(c) => match c {
            SpecConstant::UTF8(name) => sp_attribute_body(name, info, pool, pol, d),
            _ => Result::Err(SpecError::PoolKindMismatch { index: name_index }),
        },
    }
}

/// Mirror of `Attribute::from_attribute_info`: promote every envelope.
pub open spec fn sp_attributes_from_infos(
    infos: Seq<SpecAttributeInfo>,
    pool: Seq<SpecConstant>,
    pol: Policy,
    d: int,
) -> Result<Seq<SpecAttribute>, SpecError>
    decreases d, 4int, infos.len(),
{
    if infos.len() == 0 {
        Result::Ok(Seq::empty())
    } else {
        match sp_attribute_from_info(
            infos[0].attribute_name_index,
            infos[0].info,
            pool,
            pol,
            d,
        ) {
            Result::Err(e) => Result::Err(e),
            Result::Ok(a) => match sp_attributes_from_infos(infos.skip(1), pool, pol, d) {
                Result::Err(e) => Result::Err(e),
                Result::Ok(rest) => Result::Ok(seq![a] + rest),
            },
        }
    }
}

/// Mirror of `Code::parse`. The nested attributes are promoted one depth
/// level down; a `Code` at the depth bound fails with `NestingTooDeep`.
pub open spec fn sp_code(
    s: Seq<u8>,
    i: int,
    pool: Seq<SpecConstant>,
    pol: Policy,
    d: int,
) -> Result<(SpecCode, int), SpecError>
    decreases d, 1int, 0int,
{
    match sp_u16(s, i) {
        Result::Err(e) => Result::Err(e),
        Result::Ok((max_stack, j0)) => match sp_u16(s, j0) {
            Result::Err(e) => Result::Err(e),
            Result::Ok((max_locals, j1)) => match sp_u32(s, j1) {
                Result::Err(e) => Result::Err(e),
                Result::Ok((code_length, j2)) => match sp_bytes(s, j2, code_length as int) {
                    Result::Err(e) => Result::Err(e),
                    Result::Ok((code, j3)) => match sp_u16(s, j3) {
                        Result::Err(e) => Result::Err(e),
                        Result::Ok((etl, j4)) => match sp_exception_list(s, j4, etl as int) {
                            Result::Err(e) => Result::Err(e),
                            Result::Ok((et, j5)) => match sp_u16(s, j5) {
                                Result::Err(e) => Result::Err(e),
                                Result::Ok((ac, j6)) => match sp_attribute_info_list(
                                    s,
                                    j6,
                                    ac as int,
                                ) {
                                    Result::Err(e) => Result::Err(e),
                                    Result::Ok((infos, j7)) => {
                                        if d <= 0 {
                                            Result::Err(SpecError::NestingTooDeep)
                                        } else {
                                            match sp_attributes_from_infos(infos, pool, pol, d - 1) {
                                                Result::Err(e) => Result::Err(e),
                                                Result::Ok(attrs) => Result::Ok(
                                                    (
                                                        SpecCode {
                                                            max_stack: max_stack,
                                                            max_locals: max_locals,
                                                            code_length: code_length,
                                                            code: code,
                                                            exception_table_length: etl,
                                                            exception_table: et,
                                                            attributes_count: ac,
                                                            attributes: attrs,
                                                        },
                                                        j7,
                                                    ),
                                                ),
                                            }
                                        }
                                    },
                                },
                            },
                        },
                    },
                },
            },
        },
    }
}

/// Mirror of `RecordComponentInfo::parse`.
pub open spec fn sp_record_component(
    s: Seq<u8>,
    i: int,
    pool: Seq<SpecConstant>,
    pol: Policy,
    d: int,
) -> Result<(SpecRecordComponentInfo, int), SpecError>
    decreases d, 0int, 0int,
{
    match sp_u16(s, i) {
        Result::Err(e) => Result::Err(e),
        Result::Ok((name_index, j0)) => match sp_u16(s, j0) {
            Result::Err(e) => Result::Err(e),
            Result::Ok((descriptor_index, j1)) => match sp_u16(s, j1) {
                Result::Err(e) => Result::Err(e),
                Result::Ok((ac, j2)) => match sp_attribute_info_list(s, j2, ac as int) {
                    Result::Err(e) => Result::Err(e),
                    Result::Ok((infos, j3)) => {
                        if d <= 0 {
                            Result::Err(SpecError::NestingTooDeep)
                        } else {
                            match sp_attributes_from_infos(infos, pool, pol, d - 1) {
                                Result::Err(e) => Result::Err(e),
                                Result::Ok(attrs) => Result::Ok(
                                    (
                                        SpecRecordComponentInfo {
                                            name_index: name_index,
                                            descriptor_index: descriptor_index,
                                            attributes: attrs,
                                        },
                                        j3,
                                    ),
                                ),
                            }
                        }
                    },
                },
            },
        },
    }
}

/// Mirror of `parse_record_component_list`.
pub open spec fn sp_record_component_list(
    s: Seq<u8>,
    i: int,
    n: int,
    pool: Seq<SpecConstant>,
    pol: Policy,
    d: int,
) -> Result<(Seq<SpecRecordComponentInfo>, int), SpecError>
    decreases d, 1int, n,
{
    if n <= 0 {
        Result::Ok((Seq::empty(), i))
    } else {
        match sp_record_component(s, i, pool, pol, d) {
            Result::Err(e) => Result::Err(e),
            Result::Ok((v, j)) => match sp_record_component_list(s, j, n - 1, pool, pol, d) {
                Result::Err(e) => Result::Err(e),
                Result::Ok((vs, k)) => Result::Ok((seq![v] + vs, k)),
            },
        }
    }
}

impl Attribute {
    /// Promote raw envelopes to typed attributes, resolving each name
    /// through the constant pool.
    pub fn from_attribute_info(
        attributes: Vec<AttributeInfo>,
        constant_pool: &Vec<ConstantPool>,
        pol: Policy,
    ) -> (r: Result<Vec<Attribute>, ClassError>)
        ensures
            res_eq_nopos(
                r,
                sp_attributes_from_infos(
                    attributes.deep_view(),
                    constant_pool.deep_view(),
                    pol,
                    ATTRIBUTE_DEPTH_LIMIT as int,
                ),
            ),
    {
        promote_all(&attributes, constant_pool, pol, ATTRIBUTE_DEPTH_LIMIT)
    }

    /// Promote one raw envelope: resolve `attribute_name_index` in the pool
    /// (it must name a `UTF8` entry) and parse `info` with the sub-grammar
    /// the name selects.
    pub fn parse(
        attribute_name_index: u16,
        info: &[u8],
        constant_pool: &Vec<ConstantPool>,
        pol: Policy,
        d: u32,
    ) -> (r: Result<Attribute, ClassError>)
        ensures
            res_eq_nopos(
                r,
                sp_attribute_from_info(
                    attribute_name_index,
                    info@,
                    constant_pool.deep_view(),
                    pol,
                    d as int,
                ),
            ),
        decreases d, 3int, 0int,
    {
        let c = match ConstantPool::get(constant_pool, attribute_name_index) {
            Ok(c) => c,
            Err(e) => {
                return Err(e);
            },
        };
        match c {
            ConstantPool::UTF8(name) => attribute_body(name, info, constant_pool, pol, d),
            _ => Err(ClassError::PoolKindMismatch { index: attribute_name_index }),
        }
    }
}

/// Promote every envelope of a list, at nesting depth `d`.
fn promote_all(
    attributes: &Vec<AttributeInfo>,
    constant_pool: &Vec<ConstantPool>,
    pol: Policy,
    d: u32,
) -> (r: Result<Vec<Attribute>, ClassError>)
    ensures
        res_eq_nopos(
            r,
            sp_attributes_from_infos(
                attributes.deep_view(),
                constant_pool.deep_view(),
                pol,
                d as int,
            ),
        ),
    decreases d, 4int, 0int,
{
    let n = attributes.len();
    let mut acc: Vec<Attribute> = Vec::new();
    let mut k: usize = 0;
    assert(attributes.deep_view().skip(0) =~= attributes.deep_view());
    loop
        invariant
            k <= n,
            n == attributes@.len(),
            sp_attributes_from_infos(
                attributes.deep_view(),
                constant_pool.deep_view(),
                pol,
                d as int,
            ) == (match sp_attributes_from_infos(
                attributes.deep_view().skip(k as int),
                constant_pool.deep_view(),
                pol,
                d as int,
            ) {
                Result::Ok(vs) => Result::<Seq<SpecAttribute>, SpecError>::Ok(acc.deep_view() + vs),
                Result::Err(e) => Result::Err(e),
            }),
        decreases n - k,
    {
        if k == n {
            assert(attributes.deep_view().skip(k as int) =~= Seq::<SpecAttributeInfo>::empty());
            assert(acc.deep_view() + Seq::<SpecAttribute>::empty() =~= acc.deep_view());
            return Ok(acc);
        }
        let a = &attributes[k];
        assert(a.deep_view() == attributes.deep_view().skip(k as int)[0]);
        assert(a.info.deep_view() =~= a.info@);
        let at = match Attribute::parse(
            a.attribute_name_index,
            a.info.as_slice(),
            constant_pool,
            pol,
            d,
        ) {
            Ok(v) => v,
            Err(e) => {
                return Err(e);
            },
        };
        let ghost prev = acc.deep_view();
        let ghost vdv = at.deep_view();
        acc.push(at);
        assert(acc.deep_view() =~= prev.push(vdv));
        proof {
            assert(attributes.deep_view().skip(k as int).skip(1) =~= attributes.deep_view().skip(
                k + 1,
            ));
            match sp_attributes_from_infos(
                attributes.deep_view().skip(k + 1),
                constant_pool.deep_view(),
                pol,
                d as int,
            ) {
                Result::Ok(vs2) => {
                    assert(sp_attributes_from_infos(
                        attributes.deep_view().skip(k as int),
                        constant_pool.deep_view(),
                        pol,
                        d as int,
                    ) == Result::<Seq<SpecAttribute>, SpecError>::Ok(seq![vdv] + vs2));
                    assert(prev + (seq![vdv] + vs2) =~= prev.push(vdv) + vs2);
                },
                Result::Err(e2) => {
                    assert(sp_attributes_from_infos(
                        attributes.deep_view().skip(k as int),
                        constant_pool.deep_view(),
                        pol,
                        d as int,
                    ) == Result::<Seq<SpecAttribute>, SpecError>::Err(e2));
                },
            }
        }
        k = k + 1;
    }
}

impl Code {
    /// Read a `Code` attribute body; nested attributes are promoted one
    /// depth level down.
    pub fn parse(
        s: &[u8],
        pos: usize,
        constant_pool: &Vec<ConstantPool>,
        pol: Policy,
        d: u32,
    ) -> (r: Result<(Code, usize), ClassError>)
        requires
            pos <= s@.len(),
        ensures
            res_eq(r, sp_code(s@, pos as int, constant_pool.deep_view(), pol, d as int)),
            advances(r, pos, s@.len() as int),
        decreases d, 1int, 0int,
    {
        let (max_stack, j0) = match read_u16(s, pos) {
            Ok(v) => v,
            Err(e) => {
                return Err(e);
            },
        };
        let (max_locals, j1) = match read_u16(s, j0) {
            Ok(v) => v,
            Err(e) => {
                return Err(e);
            },
        };
        let (code_length, j2) = match read_u32(s, j1) {
            Ok(v) => v,
            Err(e) => {
                return Err(e);
            },
        };
        let (code, j3) = match read_bytes(s, j2, code_length as usize) {
            Ok(v) => v,
            Err(e) => {
                return Err(e);
            },
        };
        let (etl, j4) = match read_u16(s, j3) {
            Ok(v) => v,
            Err(e) => {
                return Err(e);
            },
        };
        let (et, j5) = match parse_exception_list(s, j4, etl as usize) {
            Ok(v) => v,
            Err(e) => {
                return Err(e);
            },
        };
        let (ac, j6) = match read_u16(s, j5) {
            Ok(v) => v,
            Err(e) => {
                return Err(e);
            },
        };
        let (infos, j7) = match parse_attribute_info_list(s, j6, ac as usize) {
            Ok(v) => v,
            Err(e) => {
                return Err(e);
            },
        };
        if d == 0 {
            return Err(ClassError::NestingTooDeep);
        }
        match promote_all(&infos, constant_pool, pol, d - 1) {
            Ok(attrs) => {
                proof {
                    lemma_attrs_view(attrs);
                }
                Ok(
                    (
                        Code {
                            max_stack,
                            max_locals,
                            code_length,
                            code,
                            exception_table_length: etl,
                            exception_table: et,
                            attributes_count: ac,
                            attributes: attrs,
                        },
                        j7,
                    ),
                )
            },
            Err(e) => Err(e),
        }
    }
}

impl RecordComponentInfo {
    /// Read one record component; its attributes are promoted one depth
    /// level down.
    pub fn parse(
        s: &[u8],
        pos: usize,
        constant_pool: &Vec<ConstantPool>,
        pol: Policy,
        d: u32,
    ) -> (r: Result<(RecordComponentInfo, usize), ClassError>)
        requires
            pos <= s@.len(),
        ensures
            res_eq(
                r,
                sp_record_component(s@, pos as int, constant_pool.deep_view(), pol, d as int),
            ),
            advances(r, pos, s@.len() as int),
        decreases d, 0int, 0int,
    {
        let (name_index, j0) = match read_u16(s, pos) {
            Ok(v) => v,
            Err(e) => {
                return Err(e);
            },
        };
        let (descriptor_index, j1) = match read_u16(s, j0) {
            Ok(v) => v,
            Err(e) => {
                return Err(e);
            },
        };
        let (ac, j2) = match read_u16(s, j1) {
            Ok(v) => v,
            Err(e) => {
                return Err(e);
            },
        };
        let (infos, j3) = match parse_attribute_info_list(s, j2, ac as usize) {
            Ok(v) => v,
            Err(e) => {
                return Err(e);
            },
        };
        if d == 0 {
            return Err(ClassError::NestingTooDeep);
        }
        match promote_all(&infos, constant_pool, pol, d - 1) {
            Ok(attrs) => {
                proof {
                    lemma_attrs_view(attrs);
                }
                Ok((RecordComponentInfo { name_index, descriptor_index, attributes: attrs }, j3))
            },
            Err(e) => Err(e),
        }
    }
}

/// Read `n` consecutive record components.
pub fn parse_record_component_list(
    s: &[u8],
    pos: usize,
    n: usize,
    constant_pool: &Vec<ConstantPool>,
    pol: Policy,
    d: u32,
) -> (r: Result<(Vec<RecordComponentInfo>, usize), ClassError>)
    requires
        pos <= s@.len(),
    ensures
        res_eq(
            r,
            sp_record_component_list(
                s@,
                pos as int,
                n as int,
                constant_pool.deep_view(),
                pol,
                d as int,
            ),
        ),
        advances(r, pos, s@.len() as int),
    decreases d, 1int, n,
{
    let mut acc: Vec<RecordComponentInfo> = Vec::new();
    let mut k: usize = 0;
    let mut p: usize = pos;
    loop
        invariant
            k <= n,
            pos <= p <= s@.len(),
            sp_record_component_list(
                s@,
                pos as int,
                n as int,
                constant_pool.deep_view(),
                pol,
                d as int,
            ) == (match sp_record_component_list(
                s@,
                p as int,
                n - k,
                constant_pool.deep_view(),
                pol,
                d as int,
            ) {
                Result::Ok((vs, m)) => Result::<(Seq<SpecRecordComponentInfo>, int), SpecError>::Ok(
                    (acc.deep_view() + vs, m),
                ),
                Result::Err(e) => Result::Err(e),
            }),
        decreases n - k,
    {
        if k == n {
            assert(acc.deep_view() + Seq::<SpecRecordComponentInfo>::empty() =~= acc.deep_view());
            return Ok((acc, p));
        }
        let (v, j) = match RecordComponentInfo::parse(s, p, constant_pool, pol, d) {
            Ok(t) => t,
            Err(e) => {
                return Err(e);
            },
        };
        let ghost prev = acc.deep_view();
        let ghost vdv = v.deep_view();
        acc.push(v);
        assert(acc.deep_view() =~= prev.push(vdv));
        proof {
            match sp_record_component_list(
                s@,
                j as int,
                n - k - 1,
                constant_pool.deep_view(),
                pol,
                d as int,
            ) {
                Result::Ok((vs2, m2)) => {
                    assert(sp_record_component_list(
                        s@,
                        p as int,
                        n - k,
                        constant_pool.deep_view(),
                        pol,
                        d as int,
                    ) == Result::<(Seq<SpecRecordComponentInfo>, int), SpecError>::Ok(
                        (seq![vdv] + vs2, m2),
                    ));
                    assert(prev + (seq![vdv] + vs2) =~= prev.push(vdv) + vs2);
                },
                Result::Err(e2) => {
                    assert(sp_record_component_list(
                        s@,
                        p as int,
                        n - k,
                        constant_pool.deep_view(),
                        pol,
                        d as int,
                    ) == Result::<(Seq<SpecRecordComponentInfo>, int), SpecError>::Err(e2));
                },
            }
        }
        p = j;
        k = k + 1;
    }
}

/// The single-value and fixed-record attribute arms consume their body
/// exactly.
#[verifier::rlimit(100)]
proof fn lemma_body_consumed_scalar_and_record_arms(
    name: Seq<u8>,
    info: Seq<u8>,
    pool: Seq<SpecConstant>,
    pol: Policy,
    d: int,
)
    ensures
        sp_attribute_body(name, info, pool, pol, d) matches Result::Ok(a) ==> {
            &&& a matches SpecAttribute::ConstantValue(x) ==> sp_u16(info, 0) == Result::<(u16, int), SpecError>::Ok((x, info.len() as int))
            &&& a matches SpecAttribute::Code(x) ==> sp_code(info, 0, pool, pol, d) == Result::<(SpecCode, int), SpecError>::Ok((x, info.len() as int))
            &&& a matches SpecAttribute::StackMapTable(x) ==> sp_stack_map_table(info, 0) == Result::<(SpecStackMapTable, int), SpecError>::Ok((x, info.len() as int))
            &&& a matches SpecAttribute::Exceptions(x) ==> sp_exceptions(info, 0) == Result::<(SpecExceptions, int), SpecError>::Ok((x, info.len() as int))
            &&& a matches SpecAttribute::InnerClasses(x) ==> sp_inner_classes(info, 0) == Result::<(SpecInnerClasses, int), SpecError>::Ok((x, info.len() as int))
            &&& a matches SpecAttribute::EnclosingMethod(x) ==> sp_enclosing_method(info, 0) == Result::<(EnclosingMethod, int), SpecError>::Ok((x, info.len() as int))
            &&& a matches SpecAttribute::Signature(x) ==> sp_signature(info, 0) == Result::<(Signature, int), SpecError>::Ok((x, info.len() as int))
            &&& a matches SpecAttribute::SourceFile(x) ==> sp_source_file(info, 0) == Result::<(SourceFile, int), SpecError>::Ok((x, info.len() as int))
            &&& a matches SpecAttribute::Module(x) ==> sp_module(info, 0) == Result::<(SpecModule, int), SpecError>::Ok((x, info.len() as int))
            &&& a matches SpecAttribute::ModuleMainClass(x) ==> sp_u16(info, 0) == Result::<(u16, int), SpecError>::Ok((x, info.len() as int))
            &&& a matches SpecAttribute::NestHost(x) ==> sp_u16(info, 0) == Result::<(u16, int), SpecError>::Ok((x, info.len() as int))
            &&& a is Synthetic ==> info.len() == 0
            &&& a is Deprecated ==> info.len() == 0
        },
{
}

/// The count-prefixed list attribute arms consume their body exactly.
#[verifier::rlimit(100)]
proof fn lemma_body_consumed_list_arms(
    name: Seq<u8>,
    info: Seq<u8>,
    pool: Seq<SpecConstant>,
    pol: Policy,
    d: int,
)
    ensures
        sp_attribute_body(name, info, pool, pol, d) matches Result::Ok(a) ==> {
            &&& a matches SpecAttribute::LineNumberTable(xs) ==> (sp_u16(info, 0) matches Result::Ok((n, j)) && sp_line_number_list(info, j, n as int) == Result::<(Seq<LineNumber>, int), SpecError>::Ok((xs, info.len() as int)))
            &&& a matches SpecAttribute::LocalVariableTable(xs) ==> (sp_u16(info, 0) matches Result::Ok((n, j)) && sp_local_variable_list(info, j, n as int) == Result::<(Seq<LocalVariable>, int), SpecError>::Ok((xs, info.len() as int)))
            &&& a matches SpecAttribute::LocalVariableTypeTable(xs) ==> (sp_u16(info, 0) matches Result::Ok((n, j)) && sp_local_variable_type_list(info, j, n as int) == Result::<(Seq<LocalVariableType>, int), SpecError>::Ok((xs, info.len() as int)))
            &&& a matches SpecAttribute::BootstrapMethods(xs) ==> (sp_u16(info, 0) matches Result::Ok((n, j)) && sp_bootstrap_method_list(info, j, n as int) == Result::<(Seq<SpecBootstrapMethod>, int), SpecError>::Ok((xs, info.len() as int)))
            &&& a matches SpecAttribute::MethodParameters(xs) ==> (sp_u8(info, 0) matches Result::Ok((n, j)) && sp_parameter_list(info, j, n as int) == Result::<(Seq<Parameter>, int), SpecError>::Ok((xs, info.len() as int)))
            &&& a matches SpecAttribute::ModulePackages(xs) ==> (sp_u16(info, 0) matches Result::Ok((n, j)) && sp_u16_list(info, j, n as int) == Result::<(Seq<u16>, int), SpecError>::Ok((xs, info.len() as int)))
            &&& a matches SpecAttribute::NestMembers(xs) ==> (sp_u16(info, 0) matches Result::Ok((n, j)) && sp_u16_list(info, j, n as int) == Result::<(Seq<u16>, int), SpecError>::Ok((xs, info.len() as int)))
            &&& a matches SpecAttribute::PermittedSubclasses(xs) ==> (sp_u16(info, 0) matches Result::Ok((n, j)) && sp_u16_list(info, j, n as int) == Result::<(Seq<u16>, int), SpecError>::Ok((xs, info.len() as int)))
            &&& a matches SpecAttribute::Record(xs) ==> (sp_u16(info, 0) matches Result::Ok((n, j)) && sp_record_component_list(info, j, n as int, pool, pol, d) == Result::<(Seq<SpecRecordComponentInfo>, int), SpecError>::Ok((xs, info.len() as int)))
        },
{
}

/// The annotation-family attribute arms consume their body exactly.
#[verifier::rlimit(100)]
proof fn lemma_body_consumed_annotation_arms(
    name: Seq<u8>,
    info: Seq<u8>,
    pool: Seq<SpecConstant>,
    pol: Policy,
    d: int,
)
    ensures
        sp_attribute_body(name, info, pool, pol, d) matches Result::Ok(a) ==> {
            &&& a matches SpecAttribute::AnnotationDefault(x) ==> sp_element_value(info, 0, ELEMENT_VALUE_DEPTH_LIMIT as int) == Result::<(SpecElementValue, int), SpecError>::Ok((x, info.len() as int))
            &&& a matches SpecAttribute::RuntimeVisibleAnnotations(xs) ==> (sp_u16(info, 0) matches Result::Ok((n, j)) && sp_annotation_list(info, j, n as int, ELEMENT_VALUE_DEPTH_LIMIT as int) == Result::<(Seq<SpecAnnotation>, int), SpecError>::Ok((xs, info.len() as int)))
            &&& a matches SpecAttribute::RuntimeInvisibleAnnotations(xs) ==> (sp_u16(info, 0) matches Result::Ok((n, j)) && sp_annotation_list(info, j, n as int, ELEMENT_VALUE_DEPTH_LIMIT as int) == Result::<(Seq<SpecAnnotation>, int), SpecError>::Ok((xs, info.len() as int)))
            &&& a matches SpecAttribute::RuntimeVisibleParameterAnnotations(xs) ==> (sp_u8(info, 0) matches Result::Ok((n, j)) && sp_parameter_annotation_list(info, j, n as int, ELEMENT_VALUE_DEPTH_LIMIT as int) == Result::<(Seq<SpecParameterAnnotation>, int), SpecError>::Ok((xs, info.len() as int)))
            &&& a matches SpecAttribute::RuntimeInvisibleParameterAnnotations(xs) ==> (sp_u8(info, 0) matches Result::Ok((n, j)) && sp_parameter_annotation_list(info, j, n as int, ELEMENT_VALUE_DEPTH_LIMIT as int) == Result::<(Seq<SpecParameterAnnotation>, int), SpecError>::Ok((xs, info.len() as int)))
            &&& a matches SpecAttribute::RuntimeVisibleTypeAnnotations(xs) ==> (sp_u16(info, 0) matches Result::Ok((n, j)) && sp_type_annotation_list(info, j, n as int, ELEMENT_VALUE_DEPTH_LIMIT as int) == Result::<(Seq<SpecTypeAnnotation>, int), SpecError>::Ok((xs, info.len() as int)))
            &&& a matches SpecAttribute::RuntimeInvisibleTypeAnnotations(xs) ==> (sp_u16(info, 0) matches Result::Ok((n, j)) && sp_type_annotation_list(info, j, n as int, ELEMENT_VALUE_DEPTH_LIMIT as int) == Result::<(Seq<SpecTypeAnnotation>, int), SpecError>::Ok((xs, info.len() as int)))
        },
{
}

/// Law: every attribute body the dispatcher accepts was consumed exactly:
/// whichever typed attribute comes back, the sub-grammar that produced it
/// ends exactly at the body length. (`SourceDebugExtension` and the
/// lenient `Unknown` retention take the whole body by construction.)
/// Together with `lemma_attribute_envelope_exact` this says that a decoded
/// attribute's sub-grammar consumed exactly `attribute_length` bytes.
pub proof fn lemma_attribute_body_consumes_exactly(
    name: Seq<u8>,
    info: Seq<u8>,
    pool: Seq<SpecConstant>,
    pol: Policy,
    d: int,
)
    ensures
        sp_attribute_body(name, info, pool, pol, d) matches Result::Ok(a) ==> {
            &&& a matches SpecAttribute::ConstantValue(x) ==> sp_u16(info, 0) == Result::<(u16, int), SpecError>::Ok((x, info.len() as int))
            &&& a matches SpecAttribute::Code(x) ==> sp_code(info, 0, pool, pol, d) == Result::<(SpecCode, int), SpecError>::Ok((x, info.len() as int))
            &&& a matches SpecAttribute::StackMapTable(x) ==> sp_stack_map_table(info, 0) == Result::<(SpecStackMapTable, int), SpecError>::Ok((x, info.len() as int))
            &&& a matches SpecAttribute::Exceptions(x) ==> sp_exceptions(info, 0) == Result::<(SpecExceptions, int), SpecError>::Ok((x, info.len() as int))
            &&& a matches SpecAttribute::InnerClasses(x) ==> sp_inner_classes(info, 0) == Result::<(SpecInnerClasses, int), SpecError>::Ok((x, info.len() as int))
            &&& a matches SpecAttribute::EnclosingMethod(x) ==> sp_enclosing_method(info, 0) == Result::<(EnclosingMethod, int), SpecError>::Ok((x, info.len() as int))
            &&& a matches SpecAttribute::Signature(x) ==> sp_signature(info, 0) == Result::<(Signature, int), SpecError>::Ok((x, info.len() as int))
            &&& a matches SpecAttribute::SourceFile(x) ==> sp_source_file(info, 0) == Result::<(SourceFile, int), SpecError>::Ok((x, info.len() as int))
            &&& a matches SpecAttribute::Module(x) ==> sp_module(info, 0) == Result::<(SpecModule, int), SpecError>::Ok((x, info.len() as int))
            &&& a matches SpecAttribute::ModuleMainClass(x) ==> sp_u16(info, 0) == Result::<(u16, int), SpecError>::Ok((x, info.len() as int))
            &&& a matches SpecAttribute::NestHost(x) ==> sp_u16(info, 0) == Result::<(u16, int), SpecError>::Ok((x, info.len() as int))
            &&& a is Synthetic ==> info.len() == 0
            &&& a is Deprecated ==> info.len() == 0
            &&& a matches SpecAttribute::LineNumberTable(xs) ==> (sp_u16(info, 0) matches Result::Ok((n, j)) && sp_line_number_list(info, j, n as int) == Result::<(Seq<LineNumber>, int), SpecError>::Ok((xs, info.len() as int)))
            &&& a matches SpecAttribute::LocalVariableTable(xs) ==> (sp_u16(info, 0) matches Result::Ok((n, j)) && sp_local_variable_list(info, j, n as int) == Result::<(Seq<LocalVariable>, int), SpecError>::Ok((xs, info.len() as int)))
            &&& a matches SpecAttribute::LocalVariableTypeTable(xs) ==> (sp_u16(info, 0) matches Result::Ok((n, j)) && sp_local_variable_type_list(info, j, n as int) == Result::<(Seq<LocalVariableType>, int), SpecError>::Ok((xs, info.len() as int)))
            &&& a matches SpecAttribute::BootstrapMethods(xs) ==> (sp_u16(info, 0) matches Result::Ok((n, j)) && sp_bootstrap_method_list(info, j, n as int) == Result::<(Seq<SpecBootstrapMethod>, int), SpecError>::Ok((xs, info.len() as int)))
            &&& a matches SpecAttribute::MethodParameters(xs) ==> (sp_u8(info, 0) matches Result::Ok((n, j)) && sp_parameter_list(info, j, n as int) == Result::<(Seq<Parameter>, int), SpecError>::Ok((xs, info.len() as int)))
            &&& a matches SpecAttribute::ModulePackages(xs) ==> (sp_u16(info, 0) matches Result::Ok((n, j)) && sp_u16_list(info, j, n as int) == Result::<(Seq<u16>, int), SpecError>::Ok((xs, info.len() as int)))
            &&& a matches SpecAttribute::NestMembers(xs) ==> (sp_u16(info, 0) matches Result::Ok((n, j)) && sp_u16_list(info, j, n as int) == Result::<(Seq<u16>, int), SpecError>::Ok((xs, info.len() as int)))
            &&& a matches SpecAttribute::PermittedSubclasses(xs) ==> (sp_u16(info, 0) matches Result::Ok((n, j)) && sp_u16_list(info, j, n as int) == Result::<(Seq<u16>, int), SpecError>::Ok((xs, info.len() as int)))
            &&& a matches SpecAttribute::Record(xs) ==> (sp_u16(info, 0) matches Result::Ok((n, j)) && sp_record_component_list(info, j, n as int, pool, pol, d) == Result::<(Seq<SpecRecordComponentInfo>, int), SpecError>::Ok((xs, info.len() as int)))
            &&& a matches SpecAttribute::AnnotationDefault(x) ==> sp_element_value(info, 0, ELEMENT_VALUE_DEPTH_LIMIT as int) == Result::<(SpecElementValue, int), SpecError>::Ok((x, info.len() as int))
            &&& a matches SpecAttribute::RuntimeVisibleAnnotations(xs) ==> (sp_u16(info, 0) matches Result::Ok((n, j)) && sp_annotation_list(info, j, n as int, ELEMENT_VALUE_DEPTH_LIMIT as int) == Result::<(Seq<SpecAnnotation>, int), SpecError>::Ok((xs, info.len() as int)))
            &&& a matches SpecAttribute::RuntimeInvisibleAnnotations(xs) ==> (sp_u16(info, 0) matches Result::Ok((n, j)) && sp_annotation_list(info, j, n as int, ELEMENT_VALUE_DEPTH_LIMIT as int) == Result::<(Seq<SpecAnnotation>, int), SpecError>::Ok((xs, info.len() as int)))
            &&& a matches SpecAttribute::RuntimeVisibleParameterAnnotations(xs) ==> (sp_u8(info, 0) matches Result::Ok((n, j)) && sp_parameter_annotation_list(info, j, n as int, ELEMENT_VALUE_DEPTH_LIMIT as int) == Result::<(Seq<SpecParameterAnnotation>, int), SpecError>::Ok((xs, info.len() as int)))
            &&& a matches SpecAttribute::RuntimeInvisibleParameterAnnotations(xs) ==> (sp_u8(info, 0) matches Result::Ok((n, j)) && sp_parameter_annotation_list(info, j, n as int, ELEMENT_VALUE_DEPTH_LIMIT as int) == Result::<(Seq<SpecParameterAnnotation>, int), SpecError>::Ok((xs, info.len() as int)))
            &&& a matches SpecAttribute::RuntimeVisibleTypeAnnotations(xs) ==> (sp_u16(info, 0) matches Result::Ok((n, j)) && sp_type_annotation_list(info, j, n as int, ELEMENT_VALUE_DEPTH_LIMIT as int) == Result::<(Seq<SpecTypeAnnotation>, int), SpecError>::Ok((xs, info.len() as int)))
            &&& a matches SpecAttribute::RuntimeInvisibleTypeAnnotations(xs) ==> (sp_u16(info, 0) matches Result::Ok((n, j)) && sp_type_annotation_list(info, j, n as int, ELEMENT_VALUE_DEPTH_LIMIT as int) == Result::<(Seq<SpecTypeAnnotation>, int), SpecError>::Ok((xs, info.len() as int)))
        },
{
    lemma_body_consumed_scalar_and_record_arms(name, info, pool, pol, d);
    lemma_body_consumed_list_arms(name, info, pool, pol, d);
    lemma_body_consumed_annotation_arms(name, info, pool, pol, d);
}
/// Law: an accepted envelope frame is exactly six header bytes followed by
/// `attribute_length` body bytes, and the retained body has exactly the
/// declared length.
pub proof fn lemma_attribute_envelope_exact(s: Seq<u8>, i: int, a: SpecAttributeInfo, j: int)
    requires
        0 <= i,
        sp_attribute_info(s, i) == Result::<(SpecAttributeInfo, int), SpecError>::Ok((a, j)),
    ensures
        j == i + 6 + a.attribute_length,
        a.info.len() == a.attribute_length,
{
    match sp_u16(s, i) {
        Result::Ok((name_index, j1)) => {
            match sp_u32(s, j1) {
                Result::Ok((len, j2)) => {
                    assert(a.info =~= s.subrange(j2, j2 + len));
                    assert(a.info.len() == len as int);
                },
                Result::Err(_) => {
                    assert(false);
                },
            }
        },
        Result::Err(_) => {
            assert(false);
        },
    }
}

} // verus!
