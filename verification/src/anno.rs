//! Annotations and element values: the mutually recursive annotation
//! grammar, parameter annotations, and type annotations with their
//! target-info variants and type paths.
//!
//! An element value dispatches on a one-byte ASCII tag: `B C D F I J S Z s`
//! select a constant, `e` an enum constant, `c` a class, `@` a nested
//! annotation, and `[` an array of element values. The recursion is guarded
//! by an explicit depth bound: descending into a nested annotation or an
//! array element costs one level, and a descent past the bound fails with
//! `NestingTooDeep`.

use vstd::prelude::*;

use crate::cursor::advances;
use crate::cursor::read_u16;
use crate::cursor::read_u8;
use crate::cursor::res_eq;
use crate::cursor::sp_u16;
use crate::cursor::sp_u8;
use crate::err::ClassError;
use crate::err::SpecError;
use crate::records::LocalVar;
use crate::records::TypePath;
use crate::records::SpecTypePath;
use crate::records::parse_local_var_list;
use crate::records::sp_local_var_list;

verus! {

broadcast use vstd::std_specs::vec::group_vec_axioms;

/// How many levels of element-value nesting the decoder accepts before it
/// fails with `NestingTooDeep`.
pub const ELEMENT_VALUE_DEPTH_LIMIT: u32 = 64;

/// An annotation: a type index and named element values.
#[derive(Debug, PartialEq, Eq)]
pub struct Annotation {
    pub type_index: u16,
    pub element_value_pairs: Vec<(u16, ElementValue)>,
}

/// The value of one annotation element. `ConstValue` keeps its ASCII tag
/// byte so that the nine constant kinds stay distinguishable.
#[derive(Debug, PartialEq, Eq)]
pub enum ElementValue {
    ConstValue(u8, u16),
    EnumConstValue(u16, u16),
    ClassInfoIndex(u16),
    AnnotationValue(Annotation),
    ArrayValue(Vec<ElementValue>),
}

/// The mathematical shape of an `Annotation`.
#[verifier::ext_equal]
pub struct SpecAnnotation {
    pub type_index: u16,
    pub element_value_pairs: Seq<(u16, SpecElementValue)>,
}

/// The mathematical shape of an `ElementValue`.
#[verifier::ext_equal]
pub enum SpecElementValue {
    ConstValue(u8, u16),
    EnumConstValue(u16, u16),
    ClassInfoIndex(u16),
    AnnotationValue(SpecAnnotation),
    ArrayValue(Seq<SpecElementValue>),
}

/// The shape of a run of element values.
pub open spec fn sp_evs_view(v: Vec<ElementValue>) -> Seq<SpecElementValue>
    decreases v,
{
    Seq::new(
        v@.len(),
        |i: int|
            if 0 <= i < v@.len() {
                sp_ev_view(v[i])
            } else {
                vstd::pervasive::arbitrary()
            },
    )
}

/// The shape of a run of named element values.
pub open spec fn sp_pairs_view(v: Vec<(u16, ElementValue)>) -> Seq<(u16, SpecElementValue)>
    decreases v,
{
    Seq::new(
        v@.len(),
        |i: int|
            if 0 <= i < v@.len() {
                (v[i].0, sp_ev_view(v[i].1))
            } else {
                vstd::pervasive::arbitrary()
            },
    )
}

/// The shape of an `Annotation`.
pub open spec fn sp_ann_view(a: Annotation) -> SpecAnnotation
    decreases a,
{
    SpecAnnotation {
        type_index: a.type_index,
        element_value_pairs: sp_pairs_view(a.element_value_pairs),
    }
}

/// The shape of an `ElementValue`.
pub open spec fn sp_ev_view(e: ElementValue) -> SpecElementValue
    decreases e,
{
    match e {
        ElementValue::ConstValue(t, x) => SpecElementValue::ConstValue(t, x),
        ElementValue::EnumConstValue(a, b) => SpecElementValue::EnumConstValue(a, b),
        ElementValue::ClassInfoIndex(x) => SpecElementValue::ClassInfoIndex(x),
        ElementValue::AnnotationValue(a) => SpecElementValue::AnnotationValue(sp_ann_view(a)),
        ElementValue::ArrayValue(v) => SpecElementValue::ArrayValue(sp_evs_view(v)),
    }
}

impl DeepView for ElementValue {
    type V = SpecElementValue;

    open spec fn deep_view(&self) -> SpecElementValue {
        sp_ev_view(*self)
    }
}

impl DeepView for Annotation {
    type V = SpecAnnotation;

    open spec fn deep_view(&self) -> SpecAnnotation {
        sp_ann_view(*self)
    }
}

/// The two shapes of a run of element values agree.
pub proof fn lemma_evs_view(v: Vec<ElementValue>)
    ensures
        sp_evs_view(v) =~= v.deep_view(),
{
}

/// The two shapes of a run of named element values agree.
pub proof fn lemma_pairs_view(v: Vec<(u16, ElementValue)>)
    ensures
        sp_pairs_view(v) =~= v.deep_view(),
{
}

/// Mirror of `parse_element_value`. Descending into a nested annotation or
/// an array element costs one level of `d`.
pub open spec fn sp_element_value(s: Seq<u8>, i: int, d: int) -> Result<
    (SpecElementValue, int),
    SpecError,
>
    decreases d, 1int, 0int,
{
    if d <= 0 {
        Result::Err(SpecError::NestingTooDeep)
    } else {
        match sp_u8(s, i) {
            Result::Err(e) => Result::Err(e),
            Result::Ok((tag, j)) => {
                if tag == 0x42 || tag == 0x43 || tag == 0x44 || tag == 0x46 || tag == 0x49 || tag
                    == 0x4A || tag == 0x53 || tag == 0x5A || tag == 0x73 {
                    match sp_u16(s, j) {
                        Result::Err(e) => Result::Err(e),
                        Result::Ok((x, k)) => Result::Ok((SpecElementValue::ConstValue(tag, x), k)),
                    }
                } else if tag == 0x65 {
                    match sp_u16(s, j) {
                        Result::Err(e) => Result::Err(e),
                        Result::Ok((a, k)) => match sp_u16(s, k) {
                            Result::Err(e) => Result::Err(e),
                            Result::Ok((b, m)) => Result::Ok(
                                (SpecElementValue::EnumConstValue(a, b), m),
                            ),
                        },
                    }
                } else if tag == 0x63 {
                    match sp_u16(s, j) {
                        Result::Err(e) => Result::Err(e),
                        Result::Ok((x, k)) => Result::Ok(
                            (SpecElementValue::ClassInfoIndex(x), k),
                        ),
                    }
                } else if tag == 0x40 {
                    match sp_annotation(s, j, d - 1) {
                        Result::Err(e) => Result::Err(e),
                        Result::Ok((a, k)) => Result::Ok(
                            (SpecElementValue::AnnotationValue(a), k),
                        ),
                    }
                } else if tag == 0x5B {
                    match sp_u16(s, j) {
                        Result::Err(e) => Result::Err(e),
                        Result::Ok((n, k)) => match sp_element_values(s, k, n as int, d - 1) {
                            Result::Err(e) => Result::Err(e),
                            Result::Ok((vs, m)) => Result::Ok(
                                (SpecElementValue::ArrayValue(vs), m),
                            ),
                        },
                    }
                } else {
                    Result::Err(SpecError::UnknownElementValueTag { tag: tag, at: i })
                }
            },
        }
    }
}

/// Mirror of `parse_annotation`.
pub open spec fn sp_annotation(s: Seq<u8>, i: int, d: int) -> Result<(SpecAnnotation, int), SpecError>
    decreases d, 1int, 1int,
{
    match sp_u16(s, i) {
        Result::Err(e) => Result::Err(e),
        Result::Ok((type_index, j)) => match sp_u16(s, j) {
            Result::Err(e) => Result::Err(e),
            Result::Ok((n, k)) => match sp_ev_pairs(s, k, n as int, d) {
                Result::Err(e) => Result::Err(e),
                Result::Ok((ps, m)) => Result::Ok(
                    (SpecAnnotation { type_index, element_value_pairs: ps }, m),
                ),
            },
        },
    }
}

/// Mirror of `parse_ev_pairs`: `n` pairs of element name index and value.
pub open spec fn sp_ev_pairs(s: Seq<u8>, i: int, n: int, d: int) -> Result<
    (Seq<(u16, SpecElementValue)>, int),
    SpecError,
>
    decreases d, 0int, n,
{
    if n <= 0 {
        Result::Ok((Seq::empty(), i))
    } else if d <= 0 {
        Result::Err(SpecError::NestingTooDeep)
    } else {
        match sp_u16(s, i) {
            Result::Err(e) => Result::Err(e),
            Result::Ok((name, j)) => match sp_element_value(s, j, d - 1) {
                Result::Err(e) => Result::Err(e),
                Result::Ok((ev, k)) => match sp_ev_pairs(s, k, n - 1, d) {
                    Result::Err(e) => Result::Err(e),
                    Result::Ok((ps, m)) => Result::Ok((seq![(name, ev)] + ps, m)),
                },
            },
        }
    }
}

/// Mirror of `parse_element_values`: `n` consecutive element values.
pub open spec fn sp_element_values(s: Seq<u8>, i: int, n: int, d: int) -> Result<
    (Seq<SpecElementValue>, int),
    SpecError,
>
    decreases d, 0int, n,
{
    if n <= 0 {
        Result::Ok((Seq::empty(), i))
    } else if d <= 0 {
        Result::Err(SpecError::NestingTooDeep)
    } else {
        match sp_element_value(s, i, d - 1) {
            Result::Err(e) => Result::Err(e),
            Result::Ok((ev, k)) => match sp_element_values(s, k, n - 1, d) {
                Result::Err(e) => Result::Err(e),
                Result::Ok((vs, m)) => Result::Ok((seq![ev] + vs, m)),
            },
        }
    }
}

/// Read one element value; `d` bounds the remaining nesting depth.
pub fn parse_element_value(s: &[u8], pos: usize, d: u32) -> (r: Result<
    (ElementValue, usize),
    ClassError,
>)
    requires
        pos <= s@.len(),
    ensures
        res_eq(r, sp_element_value(s@, pos as int, d as int)),
        advances(r, pos, s@.len() as int),
    decreases d, 1int, 0int,
{
    if d == 0 {
        return Err(ClassError::NestingTooDeep);
    }
    let (tag, j) = match read_u8(s, pos) {
        Ok(v) => v,
        Err(e) => {
            return Err(e);
        },
    };
    if tag == 0x42 || tag == 0x43 || tag == 0x44 || tag == 0x46 || tag == 0x49 || tag == 0x4A || tag
        == 0x53 || tag == 0x5A || tag == 0x73 {
        match read_u16(s, j) {
            Ok((x, k)) => Ok((ElementValue::ConstValue(tag, x), k)),
            Err(e) => Err(e),
        }
    } else if tag == 0x65 {
        let (a, k) = match read_u16(s, j) {
            Ok(v) => v,
            Err(e) => {
                return Err(e);
            },
        };
        match read_u16(s, k) {
            Ok((b, m)) => Ok((ElementValue::EnumConstValue(a, b), m)),
            Err(e) => Err(e),
        }
    } else if tag == 0x63 {
        match read_u16(s, j) {
            Ok((x, k)) => Ok((ElementValue::ClassInfoIndex(x), k)),
            Err(e) => Err(e),
        }
    } else if tag == 0x40 {
        match parse_annotation(s, j, d - 1) {
            Ok((a, k)) => Ok((ElementValue::AnnotationValue(a), k)),
            Err(e) => Err(e),
        }
    } else if tag == 0x5B {
        let (n, k) = match read_u16(s, j) {
            Ok(v) => v,
            Err(e) => {
                return Err(e);
            },
        };
        match parse_element_values(s, k, n as usize, d - 1) {
            Ok((vs, m)) => {
                proof {
                    lemma_evs_view(vs);
                }
                Ok((ElementValue::ArrayValue(vs), m))
            },
            Err(e) => Err(e),
        }
    } else {
        Err(ClassError::UnknownElementValueTag { tag: tag, at: pos })
    }
}

/// Read one annotation; `d` bounds the remaining nesting depth.
pub fn parse_annotation(s: &[u8], pos: usize, d: u32) -> (r: Result<(Annotation, usize), ClassError>)
    requires
        pos <= s@.len(),
    ensures
        res_eq(r, sp_annotation(s@, pos as int, d as int)),
        advances(r, pos, s@.len() as int),
    decreases d, 1int, 1int,
{
    let (type_index, j) = match read_u16(s, pos) {
        Ok(v) => v,
        Err(e) => {
            return Err(e);
        },
    };
    let (n, k) = match read_u16(s, j) {
        Ok(v) => v,
        Err(e) => {
            return Err(e);
        },
    };
    match parse_ev_pairs(s, k, n as usize, d) {
        Ok((ps, m)) => {
            proof {
                lemma_pairs_view(ps);
            }
            Ok((Annotation { type_index, element_value_pairs: ps }, m))
        },
        Err(e) => Err(e),
    }
}

/// Read `n` pairs of element name index and element value.
pub fn parse_ev_pairs(s: &[u8], pos: usize, n: usize, d: u32) -> (r: Result<
    (Vec<(u16, ElementValue)>, usize),
    ClassError,
>)
    requires
        pos <= s@.len(),
    ensures
        res_eq(r, sp_ev_pairs(s@, pos as int, n as int, d as int)),
        advances(r, pos, s@.len() as int),
    decreases d, 0int, n,
{
    let mut acc: Vec<(u16, ElementValue)> = Vec::new();
    let mut k: usize = 0;
    let mut p: usize = pos;
    loop
        invariant
            k <= n,
            pos <= p <= s@.len(),
            sp_ev_pairs(s@, pos as int, n as int, d as int) == (match sp_ev_pairs(
                s@,
                p as int,
                n - k,
                d as int,
            ) {
                Result::Ok((vs, m)) => Result::<(Seq<(u16, SpecElementValue)>, int), SpecError>::Ok(
                    (acc.deep_view() + vs, m),
                ),
                Result::Err(e) => Result::Err(e),
            }),
        decreases n - k,
    {
        if k == n {
            assert(acc.deep_view() + Seq::<(u16, SpecElementValue)>::empty() =~= acc.deep_view());
            return Ok((acc, p));
        }
        if d == 0 {
            return Err(ClassError::NestingTooDeep);
        }
        let (name, j1) = match read_u16(s, p) {
            Ok(v) => v,
            Err(e) => {
                return Err(e);
            },
        };
        let (ev, j) = match parse_element_value(s, j1, d - 1) {
            Ok(t) => t,
            Err(e) => {
                return Err(e);
            },
        };
        let ghost prev = acc.deep_view();
        let ghost vdv = (name, ev).deep_view();
        acc.push((name, ev));
        assert(acc.deep_view() =~= prev.push(vdv));
        proof {
            match sp_ev_pairs(s@, j as int, n - k - 1, d as int) {
                Result::Ok((vs2, m2)) => {
                    assert(sp_ev_pairs(s@, p as int, n - k, d as int) == Result::<
                        (Seq<(u16, SpecElementValue)>, int),
                        SpecError,
                    >::Ok((seq![vdv] + vs2, m2)));
                    assert(prev + (seq![vdv] + vs2) =~= prev.push(vdv) + vs2);
                },
                Result::Err(e2) => {
                    assert(sp_ev_pairs(s@, p as int, n - k, d as int) == Result::<
                        (Seq<(u16, SpecElementValue)>, int),
                        SpecError,
                    >::Err(e2));
                },
            }
        }
        p = j;
        k = k + 1;
    }
}

/// Read `n` consecutive element values.
pub fn parse_element_values(s: &[u8], pos: usize, n: usize, d: u32) -> (r: Result<
    (Vec<ElementValue>, usize),
    ClassError,
>)
    requires
        pos <= s@.len(),
    ensures
        res_eq(r, sp_element_values(s@, pos as int, n as int, d as int)),
        advances(r, pos, s@.len() as int),
    decreases d, 0int, n,
{
    let mut acc: Vec<ElementValue> = Vec::new();
    let mut k: usize = 0;
    let mut p: usize = pos;
    loop
        invariant
            k <= n,
            pos <= p <= s@.len(),
            sp_element_values(s@, pos as int, n as int, d as int) == (match sp_element_values(
                s@,
                p as int,
                n - k,
                d as int,
            ) {
                Result::Ok((vs, m)) => Result::<(Seq<SpecElementValue>, int), SpecError>::Ok(
                    (acc.deep_view() + vs, m),
                ),
                Result::Err(e) => Result::Err(e),
            }),
        decreases n - k,
    {
        if k == n {
            assert(acc.deep_view() + Seq::<SpecElementValue>::empty() =~= acc.deep_view());
            return Ok((acc, p));
        }
        if d == 0 {
            return Err(ClassError::NestingTooDeep);
        }
        let (ev, j) = match parse_element_value(s, p, d - 1) {
            Ok(t) => t,
            Err(e) => {
                return Err(e);
            },
        };
        let ghost prev = acc.deep_view();
        let ghost vdv = ev.deep_view();
        acc.push(ev);
        assert(acc.deep_view() =~= prev.push(vdv));
        proof {
            match sp_element_values(s@, j as int, n - k - 1, d as int) {
                Result::Ok((vs2, m2)) => {
                    assert(sp_element_values(s@, p as int, n - k, d as int) == Result::<
                        (Seq<SpecElementValue>, int),
                        SpecError,
                    >::Ok((seq![vdv] + vs2, m2)));
                    assert(prev + (seq![vdv] + vs2) =~= prev.push(vdv) + vs2);
                },
                Result::Err(e2) => {
                    assert(sp_element_values(s@, p as int, n - k, d as int) == Result::<
                        (Seq<SpecElementValue>, int),
                        SpecError,
                    >::Err(e2));
                },
            }
        }
        p = j;
        k = k + 1;
    }
}

/// The annotations of one formal parameter.
#[derive(Debug, PartialEq, Eq)]
pub struct ParameterAnnotation {
    pub annotations: Vec<Annotation>,
}

/// The mathematical shape of a `ParameterAnnotation`.
#[verifier::ext_equal]
pub struct SpecParameterAnnotation {
    pub annotations: Seq<SpecAnnotation>,
}

impl DeepView for ParameterAnnotation {
    type V = SpecParameterAnnotation;

    open spec fn deep_view(&self) -> SpecParameterAnnotation {
        SpecParameterAnnotation { annotations: self.annotations.deep_view() }
    }
}

/// What a type annotation is attached to, selected by the target-type byte.
#[derive(Debug, Clone, PartialEq, Eq)]
pub enum TargetInfo {
    TypeParameter(u8),
    SuperType(u16),
    TypeParameterBound(u8, u8),
    Empty,
    FormalParameter(u8),
    Throws(u16),
    LocalVar(Vec<LocalVar>),
    Catch(u16),
    Offset(u16),
    TypeArgument(u16, u8),
}

/// The mathematical shape of a `TargetInfo`.
#[verifier::ext_equal]
pub enum SpecTargetInfo {
    TypeParameter(u8),
    SuperType(u16),
    TypeParameterBound(u8, u8),
    Empty,
    FormalParameter(u8),
    Throws(u16),
    LocalVar(Seq<LocalVar>),
    Catch(u16),
    Offset(u16),
    TypeArgument(u16, u8),
}

impl DeepView for TargetInfo {
    type V = SpecTargetInfo;

    open spec fn deep_view(&self) -> SpecTargetInfo {
        match self {
            TargetInfo::TypeParameter(a) => SpecTargetInfo::TypeParameter(*a),
            TargetInfo::SuperType(a) => SpecTargetInfo::SuperType(*a),
            TargetInfo::TypeParameterBound(a, b) => SpecTargetInfo::TypeParameterBound(*a, *b),
            TargetInfo::Empty => SpecTargetInfo::Empty,
            TargetInfo::FormalParameter(a) => SpecTargetInfo::FormalParameter(*a),
            TargetInfo::Throws(a) => SpecTargetInfo::Throws(*a),
            TargetInfo::LocalVar(v) => SpecTargetInfo::LocalVar(v.deep_view()),
            TargetInfo::Catch(a) => SpecTargetInfo::Catch(*a),
            TargetInfo::Offset(a) => SpecTargetInfo::Offset(*a),
            TargetInfo::TypeArgument(a, b) => SpecTargetInfo::TypeArgument(*a, *b),
        }
    }
}

/// A type annotation: a target, a path to the annotated part of the type,
/// and the annotation proper.
#[derive(Debug, PartialEq, Eq)]
pub struct TypeAnnotation {
    pub target_type: u8,
    pub target_info: TargetInfo,
    pub target_path: TypePath,
    pub type_index: u16,
    pub element_value_pairs: Vec<(u16, ElementValue)>,
}

/// The mathematical shape of a `TypeAnnotation`.
#[verifier::ext_equal]
pub struct SpecTypeAnnotation {
    pub target_type: u8,
    pub target_info: SpecTargetInfo,
    pub target_path: SpecTypePath,
    pub type_index: u16,
    pub element_value_pairs: Seq<(u16, SpecElementValue)>,
}

impl DeepView for TypeAnnotation {
    type V = SpecTypeAnnotation;

    open spec fn deep_view(&self) -> SpecTypeAnnotation {
        SpecTypeAnnotation {
            target_type: self.target_type,
            target_info: self.target_info.deep_view(),
            target_path: self.target_path.deep_view(),
            type_index: self.type_index,
            element_value_pairs: self.element_value_pairs.deep_view(),
        }
    }
}

/// Mirror of `TargetInfo::parse`: the target-info variant selected by the
/// target-type byte `tt`, read at position `i`.
pub open spec fn sp_target_info(s: Seq<u8>, i: int, tt: u8) -> Result<
    (SpecTargetInfo, int),
    SpecError,
> {
    if tt == 0x00 || tt == 0x01 {
        match sp_u8(s, i) {
            Result::Err(e) => Result::Err(e),
            Result::Ok((a, j)) => Result::Ok((SpecTargetInfo::TypeParameter(a), j)),
        }
    } else if tt == 0x10 {
        match sp_u16(s, i) {
            Result::Err(e) => Result::Err(e),
            Result::Ok((a, j)) => Result::Ok((SpecTargetInfo::SuperType(a), j)),
        }
    } else if tt == 0x11 || tt == 0x12 {
        match sp_u8(s, i) {
            Result::Err(e) => Result::Err(e),
            Result::Ok((a, j)) => match sp_u8(s, j) {
                Result::Err(e) => Result::Err(e),
                Result::Ok((b, k)) => Result::Ok((SpecTargetInfo::TypeParameterBound(a, b), k)),
            },
        }
    } else if tt == 0x13 || tt == 0x14 || tt == 0x15 {
        Result::Ok((SpecTargetInfo::Empty, i))
    } else if tt == 0x16 {
        match sp_u8(s, i) {
            Result::Err(e) => Result::Err(e),
            Result::Ok((a, j)) => Result::Ok((SpecTargetInfo::FormalParameter(a), j)),
        }
    } else if tt == 0x17 {
        match sp_u16(s, i) {
            Result::Err(e) => Result::Err(e),
            Result::Ok((a, j)) => Result::Ok((SpecTargetInfo::Throws(a), j)),
        }
    } else if tt == 0x40 || tt == 0x41 {
        match sp_u16(s, i) {
            Result::Err(e) => Result::Err(e),
            Result::Ok((n, j)) => match sp_local_var_list(s, j, n as int) {
                Result::Err(e) => Result::Err(e),
                Result::Ok((vs, k)) => Result::Ok((SpecTargetInfo::LocalVar(vs), k)),
            },
        }
    } else if tt == 0x42 {
        match sp_u16(s, i) {
            Result::Err(e) => Result::Err(e),
            Result::Ok((a, j)) => Result::Ok((SpecTargetInfo::Catch(a), j)),
        }
    } else if 0x43 <= tt && tt <= 0x46 {
        match sp_u16(s, i) {
            Result::Err(e) => Result::Err(e),
            Result::Ok((a, j)) => Result::Ok((SpecTargetInfo::Offset(a), j)),
        }
    } else if 0x47 <= tt && tt <= 0x4B {
        match sp_u16(s, i) {
            Result::Err(e) => Result::Err(e),
            Result::Ok((a, j)) => match sp_u8(s, j) {
                Result::Err(e) => Result::Err(e),
                Result::Ok((b, k)) => Result::Ok((SpecTargetInfo::TypeArgument(a, b), k)),
            },
        }
    } else {
        Result::Err(SpecError::UnknownTargetType { tag: tt, at: i })
    }
}

/// Mirror of `TypeAnnotation::parse`.
pub open spec fn sp_type_annotation(s: Seq<u8>, i: int, d: int) -> Result<
    (SpecTypeAnnotation, int),
    SpecError,
> {
    match sp_u8(s, i) {
        Result::Err(e) => Result::Err(e),
        Result::Ok((tt, j0)) => match sp_target_info(s, j0, tt) {
            Result::Err(e) => Result::Err(e),
            Result::Ok((ti, j1)) => match crate::records::sp_type_path(s, j1) {
                Result::Err(e) => Result::Err(e),
                Result::Ok((tp, j2)) => match sp_u16(s, j2) {
                    Result::Err(e) => Result::Err(e),
                    Result::Ok((type_index, j3)) => match sp_u16(s, j3) {
                        Result::Err(e) => Result::Err(e),
                        Result::Ok((n, j4)) => match sp_ev_pairs(s, j4, n as int, d) {
                            Result::Err(e) => Result::Err(e),
                            Result::Ok((ps, j5)) => Result::Ok(
                                (
                                    SpecTypeAnnotation {
                                        target_type: tt,
                                        target_info: ti,
                                        target_path: tp,
                                        type_index: type_index,
                                        element_value_pairs: ps,
                                    },
                                    j5,
                                ),
                            ),
                        },
                    },
                },
            },
        },
    }
}

/// Mirror of `ParameterAnnotation::parse`.
pub open spec fn sp_parameter_annotation(s: Seq<u8>, i: int, d: int) -> Result<
    (SpecParameterAnnotation, int),
    SpecError,
> {
    match sp_u16(s, i) {
        Result::Err(e) => Result::Err(e),
        Result::Ok((n, j)) => match sp_annotation_list(s, j, n as int, d) {
            Result::Err(e) => Result::Err(e),
            Result::Ok((vs, k)) => Result::Ok((SpecParameterAnnotation { annotations: vs }, k)),
        },
    }
}

/// Mirror of `parse_annotation_list`: `n` consecutive annotations.
pub open spec fn sp_annotation_list(s: Seq<u8>, i: int, n: int, d: int) -> Result<
    (Seq<SpecAnnotation>, int),
    SpecError,
>
    decreases n,
{
    if n <= 0 {
        Result::Ok((Seq::empty(), i))
    } else {
        match sp_annotation(s, i, d) {
            Result::Err(e) => Result::Err(e),
            Result::Ok((v, j)) => match sp_annotation_list(s, j, n - 1, d) {
                Result::Err(e) => Result::Err(e),
                Result::Ok((vs, k)) => Result::Ok((seq![v] + vs, k)),
            },
        }
    }
}

/// Mirror of `parse_parameter_annotation_list`.
pub open spec fn sp_parameter_annotation_list(s: Seq<u8>, i: int, n: int, d: int) -> Result<
    (Seq<SpecParameterAnnotation>, int),
    SpecError,
>
    decreases n,
{
    if n <= 0 {
        Result::Ok((Seq::empty(), i))
    } else {
        match sp_parameter_annotation(s, i, d) {
            Result::Err(e) => Result::Err(e),
            Result::Ok((v, j)) => match sp_parameter_annotation_list(s, j, n - 1, d) {
                Result::Err(e) => Result::Err(e),
                Result::Ok((vs, k)) => Result::Ok((seq![v] + vs, k)),
            },
        }
    }
}

/// Mirror of `parse_type_annotation_list`.
pub open spec fn sp_type_annotation_list(s: Seq<u8>, i: int, n: int, d: int) -> Result<
    (Seq<SpecTypeAnnotation>, int),
    SpecError,
>
    decreases n,
{
    if n <= 0 {
        Result::Ok((Seq::empty(), i))
    } else {
        match sp_type_annotation(s, i, d) {
            Result::Err(e) => Result::Err(e),
            Result::Ok((v, j)) => match sp_type_annotation_list(s, j, n - 1, d) {
                Result::Err(e) => Result::Err(e),
                Result::Ok((vs, k)) => Result::Ok((seq![v] + vs, k)),
            },
        }
    }
}

impl TargetInfo {
    /// Read the target-info variant selected by the target-type byte `tt`.
    pub fn parse(s: &[u8], pos: usize, tt: u8) -> (r: Result<(TargetInfo, usize), ClassError>)
        requires
            pos <= s@.len(),
        ensures
            res_eq(r, sp_target_info(s@, pos as int, tt)),
            advances(r, pos, s@.len() as int),
    {
        if tt == 0x00 || tt == 0x01 {
            match read_u8(s, pos) {
                Ok((a, j)) => Ok((TargetInfo::TypeParameter(a), j)),
                Err(e) => Err(e),
            }
        } else if tt == 0x10 {
            match read_u16(s, pos) {
                Ok((a, j)) => Ok((TargetInfo::SuperType(a), j)),
                Err(e) => Err(e),
            }
        } else if tt == 0x11 || tt == 0x12 {
            let (a, j) = match read_u8(s, pos) {
                Ok(v) => v,
                Err(e) => {
                    return Err(e);
                },
            };
            match read_u8(s, j) {
                Ok((b, k)) => Ok((TargetInfo::TypeParameterBound(a, b), k)),
                Err(e) => Err(e),
            }
        } else if tt == 0x13 || tt == 0x14 || tt == 0x15 {
            Ok((TargetInfo::Empty, pos))
        } else if tt == 0x16 {
            match read_u8(s, pos) {
                Ok((a, j)) => Ok((TargetInfo::FormalParameter(a), j)),
                Err(e) => Err(e),
            }
        } else if tt == 0x17 {
            match read_u16(s, pos) {
                Ok((a, j)) => Ok((TargetInfo::Throws(a), j)),
                Err(e) => Err(e),
            }
        } else if tt == 0x40 || tt == 0x41 {
            let (n, j) = match read_u16(s, pos) {
                Ok(v) => v,
                Err(e) => {
                    return Err(e);
                },
            };
            match parse_local_var_list(s, j, n as usize) {
                Ok((vs, k)) => Ok((TargetInfo::LocalVar(vs), k)),
                Err(e) => Err(e),
            }
        } else if tt == 0x42 {
            match read_u16(s, pos) {
                Ok((a, j)) => Ok((TargetInfo::Catch(a), j)),
                Err(e) => Err(e),
            }
        } else if 0x43 <= tt && tt <= 0x46 {
            match read_u16(s, pos) {
                Ok((a, j)) => Ok((TargetInfo::Offset(a), j)),
                Err(e) => Err(e),
            }
        } else if 0x47 <= tt && tt <= 0x4B {
            let (a, j) = match read_u16(s, pos) {
                Ok(v) => v,
                Err(e) => {
                    return Err(e);
                },
            };
            match read_u8(s, j) {
                Ok((b, k)) => Ok((TargetInfo::TypeArgument(a, b), k)),
                Err(e) => Err(e),
            }
        } else {
            Err(ClassError::UnknownTargetType { tag: tt, at: pos })
        }
    }
}

impl TypeAnnotation {
    /// Read one type annotation; `d` bounds the element-value nesting depth.
    pub fn parse(s: &[u8], pos: usize, d: u32) -> (r: Result<(TypeAnnotation, usize), ClassError>)
        requires
            pos <= s@.len(),
        ensures
            res_eq(r, sp_type_annotation(s@, pos as int, d as int)),
            advances(r, pos, s@.len() as int),
    {
        let (tt, j0) = match read_u8(s, pos) {
            Ok(v) => v,
            Err(e) => {
                return Err(e);
            },
        };
        let (ti, j1) = match TargetInfo::parse(s, j0, tt) {
            Ok(v) => v,
            Err(e) => {
                return Err(e);
            },
        };
        let (tp, j2) = match TypePath::parse(s, j1) {
            Ok(v) => v,
            Err(e) => {
                return Err(e);
            },
        };
        let (type_index, j3) = match read_u16(s, j2) {
            Ok(v) => v,
            Err(e) => {
                return Err(e);
            },
        };
        let (n, j4) = match read_u16(s, j3) {
            Ok(v) => v,
            Err(e) => {
                return Err(e);
            },
        };
        match parse_ev_pairs(s, j4, n as usize, d) {
            Ok((ps, j5)) => Ok(
                (
                    TypeAnnotation {
                        target_type: tt,
                        target_info: ti,
                        target_path: tp,
                        type_index,
                        element_value_pairs: ps,
                    },
                    j5,
                ),
            ),
            Err(e) => Err(e),
        }
    }
}

impl ParameterAnnotation {
    /// Read the annotations of one formal parameter.
    pub fn parse(s: &[u8], pos: usize, d: u32) -> (r: Result<
        (ParameterAnnotation, usize),
        ClassError,
    >)
        requires
            pos <= s@.len(),
        ensures
            res_eq(r, sp_parameter_annotation(s@, pos as int, d as int)),
            advances(r, pos, s@.len() as int),
    {
        let (n, j) = match read_u16(s, pos) {
            Ok(v) => v,
            Err(e) => {
                return Err(e);
            },
        };
        match parse_annotation_list(s, j, n as usize, d) {
            Ok((vs, k)) => Ok((ParameterAnnotation { annotations: vs }, k)),
            Err(e) => Err(e),
        }
    }
}

/// Read `n` consecutive annotations.
pub fn parse_annotation_list(s: &[u8], pos: usize, n: usize, d: u32) -> (r: Result<
    (Vec<Annotation>, usize),
    ClassError,
>)
    requires
        pos <= s@.len(),
    ensures
        res_eq(r, sp_annotation_list(s@, pos as int, n as int, d as int)),
        advances(r, pos, s@.len() as int),
{
    let mut acc: Vec<Annotation> = Vec::new();
    let mut k: usize = 0;
    let mut p: usize = pos;
    loop
        invariant
            k <= n,
            pos <= p <= s@.len(),
            sp_annotation_list(s@, pos as int, n as int, d as int) == (match sp_annotation_list(
                s@,
                p as int,
                n - k,
                d as int,
            ) {
                Result::Ok((vs, m)) => Result::<(Seq<SpecAnnotation>, int), SpecError>::Ok(
                    (acc.deep_view() + vs, m),
                ),
                Result::Err(e) => Result::Err(e),
            }),
        decreases n - k,
    {
        if k == n {
            assert(acc.deep_view() + Seq::<SpecAnnotation>::empty() =~= acc.deep_view());
            return Ok((acc, p));
        }
        let (v, j) = match parse_annotation(s, p, d) {
            Ok(t) => t,
            Err(e) => {
                return Err(e);
            },
        };
        let ghost prev = acc.deep_view();
        let ghost vdv = v.deep_view();
        acc.push(v);
        assert(acc.deep_view() =~= prev.push(vdv));
        proof {
            match sp_annotation_list(s@, j as int, n - k - 1, d as int) {
                Result::Ok((vs2, m2)) => {
                    assert(sp_annotation_list(s@, p as int, n - k, d as int) == Result::<
                        (Seq<SpecAnnotation>, int),
                        SpecError,
                    >::Ok((seq![vdv] + vs2, m2)));
                    assert(prev + (seq![vdv] + vs2) =~= prev.push(vdv) + vs2);
                },
                Result::Err(e2) => {
                    assert(sp_annotation_list(s@, p as int, n - k, d as int) == Result::<
                        (Seq<SpecAnnotation>, int),
                        SpecError,
                    >::Err(e2));
                },
            }
        }
        p = j;
        k = k + 1;
    }
}

/// Read `n` consecutive parameter annotations.
pub fn parse_parameter_annotation_list(s: &[u8], pos: usize, n: usize, d: u32) -> (r: Result<
    (Vec<ParameterAnnotation>, usize),
    ClassError,
>)
    requires
        pos <= s@.len(),
    ensures
        res_eq(r, sp_parameter_annotation_list(s@, pos as int, n as int, d as int)),
        advances(r, pos, s@.len() as int),
{
    let mut acc: Vec<ParameterAnnotation> = Vec::new();
    let mut k: usize = 0;
    let mut p: usize = pos;
    loop
        invariant
            k <= n,
            pos <= p <= s@.len(),
            sp_parameter_annotation_list(s@, pos as int, n as int, d as int) == (match
                sp_parameter_annotation_list(s@, p as int, n - k, d as int) {
                Result::Ok((vs, m)) => Result::<(Seq<SpecParameterAnnotation>, int), SpecError>::Ok(
                    (acc.deep_view() + vs, m),
                ),
                Result::Err(e) => Result::Err(e),
            }),
        decreases n - k,
    {
        if k == n {
            assert(acc.deep_view() + Seq::<SpecParameterAnnotation>::empty() =~= acc.deep_view());
            return Ok((acc, p));
        }
        let (v, j) = match ParameterAnnotation::parse(s, p, d) {
            Ok(t) => t,
            Err(e) => {
                return Err(e);
            },
        };
        let ghost prev = acc.deep_view();
        let ghost vdv = v.deep_view();
        acc.push(v);
        assert(acc.deep_view() =~= prev.push(vdv));
        proof {
            match sp_parameter_annotation_list(s@, j as int, n - k - 1, d as int) {
                Result::Ok((vs2, m2)) => {
                    assert(sp_parameter_annotation_list(s@, p as int, n - k, d as int) == Result::<
                        (Seq<SpecParameterAnnotation>, int),
                        SpecError,
                    >::Ok((seq![vdv] + vs2, m2)));
                    assert(prev + (seq![vdv] + vs2) =~= prev.push(vdv) + vs2);
                },
                Result::Err(e2) => {
                    assert(sp_parameter_annotation_list(s@, p as int, n - k, d as int) == Result::<
                        (Seq<SpecParameterAnnotation>, int),
                        SpecError,
                    >::Err(e2));
                },
            }
        }
        p = j;
        k = k + 1;
    }
}

/// Read `n` consecutive type annotations.
pub fn parse_type_annotation_list(s: &[u8], pos: usize, n: usize, d: u32) -> (r: Result<
    (Vec<TypeAnnotation>, usize),
    ClassError,
>)
    requires
        pos <= s@.len(),
    ensures
        res_eq(r, sp_type_annotation_list(s@, pos as int, n as int, d as int)),
        advances(r, pos, s@.len() as int),
{
    let mut acc: Vec<TypeAnnotation> = Vec::new();
    let mut k: usize = 0;
    let mut p: usize = pos;
    loop
        invariant
            k <= n,
            pos <= p <= s@.len(),
            sp_type_annotation_list(s@, pos as int, n as int, d as int) == (match
                sp_type_annotation_list(s@, p as int, n - k, d as int) {
                Result::Ok((vs, m)) => Result::<(Seq<SpecTypeAnnotation>, int), SpecError>::Ok(
                    (acc.deep_view() + vs, m),
                ),
                Result::Err(e) => Result::Err(e),
            }),
        decreases n - k,
    {
        if k == n {
            assert(acc.deep_view() + Seq::<SpecTypeAnnotation>::empty() =~= acc.deep_view());
            return Ok((acc, p));
        }
        let (v, j) = match TypeAnnotation::parse(s, p, d) {
            Ok(t) => t,
            Err(e) => {
                return Err(e);
            },
        };
        let ghost prev = acc.deep_view();
        let ghost vdv = v.deep_view();
        acc.push(v);
        assert(acc.deep_view() =~= prev.push(vdv));
        proof {
            match sp_type_annotation_list(s@, j as int, n - k - 1, d as int) {
                Result::Ok((vs2, m2)) => {
                    assert(sp_type_annotation_list(s@, p as int, n - k, d as int) == Result::<
                        (Seq<SpecTypeAnnotation>, int),
                        SpecError,
                    >::Ok((seq![vdv] + vs2, m2)));
                    assert(prev + (seq![vdv] + vs2) =~= prev.push(vdv) + vs2);
                },
                Result::Err(e2) => {
                    assert(sp_type_annotation_list(s@, p as int, n - k, d as int) == Result::<
                        (Seq<SpecTypeAnnotation>, int),
                        SpecError,
                    >::Err(e2));
                },
            }
        }
        p = j;
        k = k + 1;
    }
}

} // verus!
