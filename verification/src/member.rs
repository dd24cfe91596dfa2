//! Field and method records: a uniform shape of access flags, name and
//! descriptor indices, and nested attributes.

use vstd::prelude::*;

use crate::attribute::ATTRIBUTE_DEPTH_LIMIT;
use crate::attribute::Attribute;
use crate::attribute::SpecAttribute;
use crate::attribute::parse_attribute_info_list;
use crate::attribute::sp_attribute_info_list;
use crate::attribute::sp_attributes_from_infos;
use crate::constantpool::ConstantPool;
use crate::constantpool::SpecConstant;
use crate::cursor::advances;
use crate::cursor::read_u16;
use crate::cursor::res_eq;
use crate::cursor::sp_u16;
use crate::err::ClassError;
use crate::err::Policy;
use crate::err::SpecError;

verus! {

/// One field record.
#[derive(Debug, PartialEq, Eq)]
pub struct FieldInfo {
    pub access_flags: u16,
    pub name_index: u16,
    pub descriptor_index: u16,
    pub attributes_count: u16,
    pub attributes: Vec<Attribute>,
}

/// The mathematical shape of a `FieldInfo`.
#[verifier::ext_equal]
pub struct SpecFieldInfo {
    pub access_flags: u16,
    pub name_index: u16,
    pub descriptor_index: u16,
    pub attributes_count: u16,
    pub attributes: Seq<SpecAttribute>,
}

impl DeepView for FieldInfo {
    type V = SpecFieldInfo;

    open spec fn deep_view(&self) -> SpecFieldInfo {
        SpecFieldInfo {
            access_flags: self.access_flags,
            name_index: self.name_index,
            descriptor_index: self.descriptor_index,
            attributes_count: self.attributes_count,
            attributes: self.attributes.deep_view(),
        }
    }
}

/// One method record.
#[derive(Debug, PartialEq, Eq)]
pub struct MethodInfo {
    pub access_flags: u16,
    pub name_index: u16,
    pub descriptor_index: u16,
    pub attributes_count: u16,
    pub attributes: Vec<Attribute>,
}

/// The mathematical shape of a `MethodInfo`.
#[verifier::ext_equal]
pub struct SpecMethodInfo {
    pub access_flags: u16,
    pub name_index: u16,
    pub descriptor_index: u16,
    pub attributes_count: u16,
    pub attributes: Seq<SpecAttribute>,
}

impl DeepView for MethodInfo {
    type V = SpecMethodInfo;

    open spec fn deep_view(&self) -> SpecMethodInfo {
        SpecMethodInfo {
            access_flags: self.access_flags,
            name_index: self.name_index,
            descriptor_index: self.descriptor_index,
            attributes_count: self.attributes_count,
            attributes: self.attributes.deep_view(),
        }
    }
}

/// Mirror of `FieldInfo::parse_field_info`.
pub open spec fn sp_field_info(s: Seq<u8>, i: int, pool: Seq<SpecConstant>, pol: Policy) -> Result<
    (SpecFieldInfo, int),
    SpecError,
> {
    match sp_u16(s, i) {
        Result::Err(e) => Result::Err(e),
        Result::Ok((access_flags, j0)) => match sp_u16(s, j0) {
            Result::Err(e) => Result::Err(e),
            Result::Ok((name_index, j1)) => match sp_u16(s, j1) {
                Result::Err(e) => Result::Err(e),
                Result::Ok((descriptor_index, j2)) => match sp_u16(s, j2) {
                    Result::Err(e) => Result::Err(e),
                    Result::Ok((ac, j3)) => match sp_attribute_info_list(s, j3, ac as int) {
                        Result::Err(e) => Result::Err(e),
                        Result::Ok((infos, j4)) => match sp_attributes_from_infos(
                            infos,
                            pool,
                            pol,
                            ATTRIBUTE_DEPTH_LIMIT as int,
                        ) {
                            Result::Err(e) => Result::Err(e),
                            Result::Ok(attrs) => Result::Ok(
                                (
                                    SpecFieldInfo {
                                        access_flags: access_flags,
                                        name_index: name_index,
                                        descriptor_index: descriptor_index,
                                        attributes_count: ac,
                                        attributes: attrs,
                                    },
                                    j4,
                                ),
                            ),
                        },
                    },
                },
            },
        },
    }
}

/// Mirror of `MethodInfo::parse_method_info`.
pub open spec fn sp_method_info(s: Seq<u8>, i: int, pool: Seq<SpecConstant>, pol: Policy) -> Result<
    (SpecMethodInfo, int),
    SpecError,
> {
    match sp_field_info(s, i, pool, pol) {
        Result::Err(e) => Result::Err(e),
        Result::Ok((f, j)) => Result::Ok(
            (
                SpecMethodInfo {
                    access_flags: f.access_flags,
                    name_index: f.name_index,
                    descriptor_index: f.descriptor_index,
                    attributes_count: f.attributes_count,
                    attributes: f.attributes,
                },
                j,
            ),
        ),
    }
}

/// Mirror of `FieldInfo::parse`: `n` consecutive field records.
pub open spec fn sp_field_info_list(
    s: Seq<u8>,
    i: int,
    n: int,
    pool: Seq<SpecConstant>,
    pol: Policy,
) -> Result<(Seq<SpecFieldInfo>, int), SpecError>
    decreases n,
{
    if n <= 0 {
        Result::Ok((Seq::empty(), i))
    } else {
        match sp_field_info(s, i, pool, pol) {
            Result::Err(e) => Result::Err(e),
            Result::Ok((v, j)) => match sp_field_info_list(s, j, n - 1, pool, pol) {
                Result::Err(e) => Result::Err(e),
                Result::Ok((vs, k)) => Result::Ok((seq![v] + vs, k)),
            },
        }
    }
}

/// Mirror of `MethodInfo::parse`: `n` consecutive method records.
pub open spec fn sp_method_info_list(
    s: Seq<u8>,
    i: int,
    n: int,
    pool: Seq<SpecConstant>,
    pol: Policy,
) -> Result<(Seq<SpecMethodInfo>, int), SpecError>
    decreases n,
{
    if n <= 0 {
        Result::Ok((Seq::empty(), i))
    } else {
        match sp_method_info(s, i, pool, pol) {
            Result::Err(e) => Result::Err(e),
            Result::Ok((v, j)) => match sp_method_info_list(s, j, n - 1, pool, pol) {
                Result::Err(e) => Result::Err(e),
                Result::Ok((vs, k)) => Result::Ok((seq![v] + vs, k)),
            },
        }
    }
}

impl FieldInfo {
    /// Read one field record.
    pub fn parse_field_info(
        s: &[u8],
        pos: usize,
        constant_pool: &Vec<ConstantPool>,
        pol: Policy,
    ) -> (r: Result<(FieldInfo, usize), ClassError>)
        requires
            pos <= s@.len(),
        ensures
            res_eq(r, sp_field_info(s@, pos as int, constant_pool.deep_view(), pol)),
            advances(r, pos, s@.len() as int),
    {
        let (access_flags, j0) = match read_u16(s, pos) {
            Ok(v) => v,
            Err(e) => {
                return Err(e);
            },
        };
        let (name_index, j1) = match read_u16(s, j0) {
            Ok(v) => v,
            Err(e) => {
                return Err(e);
            },
        };
        let (descriptor_index, j2) = match read_u16(s, j1) {
            Ok(v) => v,
            Err(e) => {
                return Err(e);
            },
        };
        let (ac, j3) = match read_u16(s, j2) {
            Ok(v) => v,
            Err(e) => {
                return Err(e);
            },
        };
        let (infos, j4) = match parse_attribute_info_list(s, j3, ac as usize) {
            Ok(v) => v,
            Err(e) => {
                return Err(e);
            },
        };
        match Attribute::from_attribute_info(infos, constant_pool, pol) {
            Ok(attrs) => Ok(
                (
                    FieldInfo {
                        access_flags,
                        name_index,
                        descriptor_index,
                        attributes_count: ac,
                        attributes: attrs,
                    },
                    j4,
                ),
            ),
            Err(e) => Err(e),
        }
    }

    /// Read `fields_count` consecutive field records.
    pub fn parse(
        s: &[u8],
        pos: usize,
        fields_count: u16,
        constant_pool: &Vec<ConstantPool>,
        pol: Policy,
    ) -> (r: Result<(Vec<FieldInfo>, usize), ClassError>)
        requires
            pos <= s@.len(),
        ensures
            res_eq(
                r,
                sp_field_info_list(
                    s@,
                    pos as int,
                    fields_count as int,
                    constant_pool.deep_view(),
                    pol,
                ),
            ),
            advances(r, pos, s@.len() as int),
    {
        let n = fields_count as usize;
        let mut acc: Vec<FieldInfo> = Vec::new();
        let mut k: usize = 0;
        let mut p: usize = pos;
        loop
            invariant
                k <= n,
                pos <= p <= s@.len(),
                sp_field_info_list(
                    s@,
                    pos as int,
                    n as int,
                    constant_pool.deep_view(),
                    pol,
                ) == (match sp_field_info_list(
                    s@,
                    p as int,
                    n - k,
                    constant_pool.deep_view(),
                    pol,
                ) {
                    Result::Ok((vs, m)) => Result::<(Seq<SpecFieldInfo>, int), SpecError>::Ok(
                        (acc.deep_view() + vs, m),
                    ),
                    Result::Err(e) => Result::Err(e),
                }),
            decreases n - k,
        {
            if k == n {
                assert(acc.deep_view() + Seq::<SpecFieldInfo>::empty() =~= acc.deep_view());
                return Ok((acc, p));
            }
            let (v, j) = match FieldInfo::parse_field_info(s, p, constant_pool, pol) {
                Ok(t) => t,
                Err(e) => {
                    return Err(e);
                },
            };
            let ghost prev = acc.deep_view();
            let ghost vdv = v.deep_view();
            acc.push(v);
            assert(acc.deep_view() =~= prev.push(vdv));
            proof {
                match sp_field_info_list(s@, j as int, n - k - 1, constant_pool.deep_view(), pol) {
                    Result::Ok((vs2, m2)) => {
                        assert(sp_field_info_list(
                            s@,
                            p as int,
                            n - k,
                            constant_pool.deep_view(),
                            pol,
                        ) == Result::<(Seq<SpecFieldInfo>, int), SpecError>::Ok(
                            (seq![vdv] + vs2, m2),
                        ));
                        assert(prev + (seq![vdv] + vs2) =~= prev.push(vdv) + vs2);
                    },
                    Result::Err(e2) => {
                        assert(sp_field_info_list(
                            s@,
                            p as int,
                            n - k,
                            constant_pool.deep_view(),
                            pol,
                        ) == Result::<(Seq<SpecFieldInfo>, int), SpecError>::Err(e2));
                    },
                }
            }
            p = j;
            k = k + 1;
        }
    }
}

impl MethodInfo {
    /// Read one method record.
    pub fn parse_method_info(
        s: &[u8],
        pos: usize,
        constant_pool: &Vec<ConstantPool>,
        pol: Policy,
    ) -> (r: Result<(MethodInfo, usize), ClassError>)
        requires
            pos <= s@.len(),
        ensures
            res_eq(r, sp_method_info(s@, pos as int, constant_pool.deep_view(), pol)),
            advances(r, pos, s@.len() as int),
    {
        match FieldInfo::parse_field_info(s, pos, constant_pool, pol) {
            Ok((f, j)) => Ok(
                (
                    MethodInfo {
                        access_flags: f.access_flags,
                        name_index: f.name_index,
                        descriptor_index: f.descriptor_index,
                        attributes_count: f.attributes_count,
                        attributes: f.attributes,
                    },
                    j,
                ),
            ),
            Err(e) => Err(e),
        }
    }

    /// Read `methods_count` consecutive method records.
    pub fn parse(
        s: &[u8],
        pos: usize,
        methods_count: u16,
        constant_pool: &Vec<ConstantPool>,
        pol: Policy,
    ) -> (r: Result<(Vec<MethodInfo>, usize), ClassError>)
        requires
            pos <= s@.len(),
        ensures
            res_eq(
                r,
                sp_method_info_list(
                    s@,
                    pos as int,
                    methods_count as int,
                    constant_pool.deep_view(),
                    pol,
                ),
            ),
            advances(r, pos, s@.len() as int),
    {
        let n = methods_count as usize;
        let mut acc: Vec<MethodInfo> = Vec::new();
        let mut k: usize = 0;
        let mut p: usize = pos;
        loop
            invariant
                k <= n,
                pos <= p <= s@.len(),
                sp_method_info_list(
                    s@,
                    pos as int,
                    n as int,
                    constant_pool.deep_view(),
                    pol,
                ) == (match sp_method_info_list(
                    s@,
                    p as int,
                    n - k,
                    constant_pool.deep_view(),
                    pol,
                ) {
                    Result::Ok((vs, m)) => Result::<(Seq<SpecMethodInfo>, int), SpecError>::Ok(
                        (acc.deep_view() + vs, m),
                    ),
                    Result::Err(e) => Result::Err(e),
                }),
            decreases n - k,
        {
            if k == n {
                assert(acc.deep_view() + Seq::<SpecMethodInfo>::empty() =~= acc.deep_view());
                return Ok((acc, p));
            }
            let (v, j) = match MethodInfo::parse_method_info(s, p, constant_pool, pol) {
                Ok(t) => t,
                Err(e) => {
                    return Err(e);
                },
            };
            let ghost prev = acc.deep_view();
            let ghost vdv = v.deep_view();
            acc.push(v);
            assert(acc.deep_view() =~= prev.push(vdv));
            proof {
                match sp_method_info_list(s@, j as int, n - k - 1, constant_pool.deep_view(), pol) {
                    Result::Ok((vs2, m2)) => {
                        assert(sp_method_info_list(
                            s@,
                            p as int,
                            n - k,
                            constant_pool.deep_view(),
                            pol,
                        ) == Result::<(Seq<SpecMethodInfo>, int), SpecError>::Ok(
                            (seq![vdv] + vs2, m2),
                        ));
                        assert(prev + (seq![vdv] + vs2) =~= prev.push(vdv) + vs2);
                    },
                    Result::Err(e2) => {
                        assert(sp_method_info_list(
                            s@,
                            p as int,
                            n - k,
                            constant_pool.deep_view(),
                            pol,
                        ) == Result::<(Seq<SpecMethodInfo>, int), SpecError>::Err(e2));
                    },
                }
            }
            p = j;
            k = k + 1;
        }
    }
}

} // verus!
