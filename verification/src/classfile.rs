//! The class-file shell: magic, versions, constant pool, access flags,
//! class indices, interfaces, fields, methods, and top-level attributes;
//! and the laws of the decoder.

use vstd::prelude::*;

use crate::attribute::ATTRIBUTE_DEPTH_LIMIT;
use crate::attribute::Attribute;
use crate::attribute::SpecAttribute;
use crate::attribute::parse_attribute_info_list;
use crate::attribute::sp_attribute_info_list;
use crate::attribute::sp_attributes_from_infos;
use crate::constantpool::ConstantPool;
use crate::constantpool::SpecConstant;
use crate::constantpool::sp_constants;
use crate::cursor::advances;
use crate::cursor::read_u16;
use crate::cursor::read_u16_list;
use crate::cursor::read_u32;
use crate::cursor::res_eq;
use crate::cursor::res_eq_nopos;
use crate::cursor::sp_u16;
use crate::cursor::sp_u16_list;
use crate::cursor::sp_u32;
use crate::err::ClassError;
use crate::err::Policy;
use crate::err::SpecError;
use crate::member::FieldInfo;
use crate::member::MethodInfo;
use crate::member::SpecFieldInfo;
use crate::member::SpecMethodInfo;
use crate::member::sp_field_info_list;
use crate::member::sp_method_info_list;

verus! {

/// The four magic bytes `CA FE BA BE` as one big-endian 32-bit value.
pub const CLASS_MAGIC: u32 = 0xCAFE_BABE;

/// The decoded class file: a self-contained tree that owns its constant
/// pool and all member records, with no references into the input buffer.
#[derive(Debug, PartialEq, Eq)]
pub struct ClassFile {
    pub minor_version: u16,
    pub major_version: u16,
    pub constant_pool_count: u16,
    pub constant_pool: Vec<ConstantPool>,
    pub access_flags: u16,
    pub this_class: u16,
    pub super_class: u16,
    pub interfaces_count: u16,
    pub interfaces: Vec<u16>,
    pub fields_count: u16,
    pub fields: Vec<FieldInfo>,
    pub methods_count: u16,
    pub methods: Vec<MethodInfo>,
    pub attributes_count: u16,
    pub attributes: Vec<Attribute>,
}

/// The mathematical shape of a `ClassFile`.
#[verifier::ext_equal]
pub struct SpecClassFile {
    pub minor_version: u16,
    pub major_version: u16,
    pub constant_pool_count: u16,
    pub constant_pool: Seq<SpecConstant>,
    pub access_flags: u16,
    pub this_class: u16,
    pub super_class: u16,
    pub interfaces_count: u16,
    pub interfaces: Seq<u16>,
    pub fields_count: u16,
    pub fields: Seq<SpecFieldInfo>,
    pub methods_count: u16,
    pub methods: Seq<SpecMethodInfo>,
    pub attributes_count: u16,
    pub attributes: Seq<SpecAttribute>,
}

impl DeepView for ClassFile {
    type V = SpecClassFile;

    open spec fn deep_view(&self) -> SpecClassFile {
        SpecClassFile {
            minor_version: self.minor_version,
            major_version: self.major_version,
            constant_pool_count: self.constant_pool_count,
            constant_pool: self.constant_pool.deep_view(),
            access_flags: self.access_flags,
            this_class: self.this_class,
            super_class: self.super_class,
            interfaces_count: self.interfaces_count,
            interfaces: self.interfaces.deep_view(),
            fields_count: self.fields_count,
            fields: self.fields.deep_view(),
            methods_count: self.methods_count,
            methods: self.methods.deep_view(),
            attributes_count: self.attributes_count,
            attributes: self.attributes.deep_view(),
        }
    }
}

/// Mirror of `ClassFile::parse_class_file`: the top-level sequence of the
/// class-file grammar, beginning with the magic `CA FE BA BE`.
pub open spec fn sp_class_file(s: Seq<u8>, i: int, pol: Policy) -> Result<
    (SpecClassFile, int),
    SpecError,
> {
    match sp_u32(s, i) {
        Result::Err(e) => Result::Err(e),
        Result::Ok((magic, j0)) => {
            if magic != CLASS_MAGIC {
                Result::Err(SpecError::BadMagic { found: magic })
            } else {
                match sp_u16(s, j0) {
                    Result::Err(e) => Result::Err(e),
                    Result::Ok((minor, j1)) => match sp_u16(s, j1) {
                        Result::Err(e) => Result::Err(e),
                        Result::Ok((major, j2)) => match sp_u16(s, j2) {
                            Result::Err(e) => Result::Err(e),
                            Result::Ok((cpc, j3)) => match sp_constants(s, j3, cpc, 1) {
                                Result::Err(e) => Result::Err(e),
                                Result::Ok((pool, j4)) => match sp_u16(s, j4) {
                                    Result::Err(e) => Result::Err(e),
                                    Result::Ok((access, j5)) => match sp_u16(s, j5) {
                                        Result::Err(e) => Result::Err(e),
                                        Result::Ok((this_class, j6)) => match sp_u16(s, j6) {
                                            Result::Err(e) => Result::Err(e),
                                            Result::Ok((super_class, j7)) => sp_class_file_tail(
                                                s,
                                                j7,
                                                pol,
                                                minor,
                                                major,
                                                cpc,
                                                pool,
                                                access,
                                                this_class,
                                                super_class,
                                            ),
                                        },
                                    },
                                },
                            },
                        },
                    },
                }
            }
        },
    }
}

/// The tail of the class-file grammar: interfaces, fields, methods, and
/// top-level attributes.
pub open spec fn sp_class_file_tail(
    s: Seq<u8>,
    i: int,
    pol: Policy,
    minor: u16,
    major: u16,
    cpc: u16,
    pool: Seq<SpecConstant>,
    access: u16,
    this_class: u16,
    super_class: u16,
) -> Result<(SpecClassFile, int), SpecError> {
    match sp_u16(s, i) {
        Result::Err(e) => Result::Err(e),
        Result::Ok((ic, j0)) => match sp_u16_list(s, j0, ic as int) {
            Result::Err(e) => Result::Err(e),
            Result::Ok((interfaces, j1)) => match sp_u16(s, j1) {
                Result::Err(e) => Result::Err(e),
                Result::Ok((fc, j2)) => match sp_field_info_list(s, j2, fc as int, pool, pol) {
                    Result::Err(e) => Result::Err(e),
                    Result::Ok((fields, j3)) => match sp_u16(s, j3) {
                        Result::Err(e) => Result::Err(e),
                        Result::Ok((mc, j4)) => match sp_method_info_list(
                            s,
                            j4,
                            mc as int,
                            pool,
                            pol,
                        ) {
                            Result::Err(e) => Result::Err(e),
                            Result::Ok((methods, j5)) => match sp_u16(s, j5) {
                                Result::Err(e) => Result::Err(e),
                                Result::Ok((ac, j6)) => match sp_attribute_info_list(
                                    s,
                                    j6,
                                    ac as int,
                                ) {
                                    Result::Err(e) => Result::Err(e),
                                    Result::Ok((infos, j7)) => match sp_attributes_from_infos(
                                        infos,
                                        pool,
                                        pol,
                                        ATTRIBUTE_DEPTH_LIMIT as int,
                                    ) {
                                        Result::Err(e) => Result::Err(e),
                                        Result::Ok(attrs) => Result::Ok(
                                            (
                                                SpecClassFile {
                                                    minor_version: minor,
                                                    major_version: major,
                                                    constant_pool_count: cpc,
                                                    constant_pool: pool,
                                                    access_flags: access,
                                                    this_class: this_class,
                                                    super_class: super_class,
                                                    interfaces_count: ic,
                                                    interfaces: interfaces,
                                                    fields_count: fc,
                                                    fields: fields,
                                                    methods_count: mc,
                                                    methods: methods,
                                                    attributes_count: ac,
                                                    attributes: attrs,
                                                },
                                                j7,
                                            ),
                                        ),
                                    },
                                },
                            },
                        },
                    },
                },
            },
        },
    }
}

/// Mirror of `decode`: the whole buffer must be consumed exactly.
pub open spec fn sp_decode(s: Seq<u8>, pol: Policy) -> Result<SpecClassFile, SpecError> {
    match sp_class_file(s, 0, pol) {
        Result::Err(e) => Result::Err(e),
        Result::Ok((cf, j)) => {
            if j == s.len() {
                Result::Ok(cf)
            } else {
                Result::Err(SpecError::TrailingBytes { extra: s.len() - j })
            }
        },
    }
}

impl ClassFile {
    /// Read one class file starting at `pos`. Returns the decoded tree and
    /// the position just past the structure; `decode` additionally demands
    /// that this position be the end of the buffer.
    pub fn parse_class_file(s: &[u8], pos: usize, pol: Policy) -> (r: Result<
        (ClassFile, usize),
        ClassError,
    >)
        requires
            pos <= s@.len(),
        ensures
            res_eq(r, sp_class_file(s@, pos as int, pol)),
            advances(r, pos, s@.len() as int),
    {
        let (magic, j0) = match read_u32(s, pos) {
            Ok(v) => v,
            Err(e) => {
                return Err(e);
            },
        };
        if magic != CLASS_MAGIC {
            return Err(ClassError::BadMagic { found: magic });
        }
        let (minor, j1) = match read_u16(s, j0) {
            Ok(v) => v,
            Err(e) => {
                return Err(e);
            },
        };
        let (major, j2) = match read_u16(s, j1) {
            Ok(v) => v,
            Err(e) => {
                return Err(e);
            },
        };
        let (cpc, j3) = match read_u16(s, j2) {
            Ok(v) => v,
            Err(e) => {
                return Err(e);
            },
        };
        let (pool, j4) = match ConstantPool::parse(s, j3, cpc) {
            Ok(v) => v,
            Err(e) => {
                return Err(e);
            },
        };
        let (access, j5) = match read_u16(s, j4) {
            Ok(v) => v,
            Err(e) => {
                return Err(e);
            },
        };
        let (this_class, j6) = match read_u16(s, j5) {
            Ok(v) => v,
            Err(e) => {
                return Err(e);
            },
        };
        let (super_class, j7) = match read_u16(s, j6) {
            Ok(v) => v,
            Err(e) => {
                return Err(e);
            },
        };
        let (ic, j8) = match read_u16(s, j7) {
            Ok(v) => v,
            Err(e) => {
                return Err(e);
            },
        };
        let (interfaces, j9) = match read_u16_list(s, j8, ic as usize) {
            Ok(v) => v,
            Err(e) => {
                return Err(e);
            },
        };
        let (fc, j10) = match read_u16(s, j9) {
            Ok(v) => v,
            Err(e) => {
                return Err(e);
            },
        };
        let (fields, j11) = match FieldInfo::parse(s, j10, fc, &pool, pol) {
            Ok(v) => v,
            Err(e) => {
                return Err(e);
            },
        };
        let (mc, j12) = match read_u16(s, j11) {
            Ok(v) => v,
            Err(e) => {
                return Err(e);
            },
        };
        let (methods, j13) = match MethodInfo::parse(s, j12, mc, &pool, pol) {
            Ok(v) => v,
            Err(e) => {
                return Err(e);
            },
        };
        let (ac, j14) = match read_u16(s, j13) {
            Ok(v) => v,
            Err(e) => {
                return Err(e);
            },
        };
        let (infos, j15) = match parse_attribute_info_list(s, j14, ac as usize) {
            Ok(v) => v,
            Err(e) => {
                return Err(e);
            },
        };
        let attributes = match Attribute::from_attribute_info(infos, &pool, pol) {
            Ok(v) => v,
            Err(e) => {
                return Err(e);
            },
        };
        Ok(
            (
                ClassFile {
                    minor_version: minor,
                    major_version: major,
                    constant_pool_count: cpc,
                    constant_pool: pool,
                    access_flags: access,
                    this_class: this_class,
                    super_class: super_class,
                    interfaces_count: ic,
                    interfaces,
                    fields_count: fc,
                    fields,
                    methods_count: mc,
                    methods,
                    attributes_count: ac,
                    attributes,
                },
                j15,
            ),
        )
    }
}

/// Decode a whole class file. The tree is returned only if the structure
/// consumes the buffer exactly; trailing bytes are an error.
pub fn decode(s: &[u8], pol: Policy) -> (r: Result<ClassFile, ClassError>)
    ensures
        res_eq_nopos(r, sp_decode(s@, pol)),
{
    match ClassFile::parse_class_file(s, 0, pol) {
        Err(e) => Err(e),
        Ok((cf, j)) => {
            if j == s.len() {
                Ok(cf)
            } else {
                Err(ClassError::TrailingBytes { extra: s.len() - j })
            }
        },
    }
}

/// Law: a successful decode consumed the input buffer exactly: the shell
/// grammar ends at the buffer length, and nothing trails it.
pub proof fn lemma_decode_consumes_all(s: Seq<u8>, pol: Policy, cf: SpecClassFile)
    requires
        sp_decode(s, pol) == Result::<SpecClassFile, SpecError>::Ok(cf),
    ensures
        sp_class_file(s, 0, pol) == Result::<(SpecClassFile, int), SpecError>::Ok(
            (cf, s.len() as int),
        ),
{
}

/// Law: the decoded tree is a function of the input bytes and the policy
/// alone; decoding equal buffers yields structurally equal trees, so the
/// tree-shape equivalence oracle is stable across decodes.
pub proof fn lemma_decode_deterministic(s1: Seq<u8>, s2: Seq<u8>, pol: Policy)
    requires
        s1 == s2,
    ensures
        sp_decode(s1, pol) == sp_decode(s2, pol),
{
}

} // verus!
