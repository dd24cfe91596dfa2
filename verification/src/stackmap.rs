//! Stack-map frames: range-coded frame variants and their verification-type
//! entries.
//!
//! A frame is selected by one tag byte: `0..=63` is a same frame whose
//! offset delta is the tag itself, `64..=127` a same-locals-one-stack-item
//! frame with delta `tag - 64`, `247` its extended form, `248..=250` a chop
//! frame removing `251 - tag` locals, `251` an extended same frame,
//! `252..=254` an append frame adding `tag - 251` locals, and `255` a full
//! frame. Every other tag is rejected.

use vstd::prelude::*;

use crate::cursor::advances;
use crate::cursor::read_u16;
use crate::cursor::read_u8;
use crate::cursor::res_eq;
use crate::cursor::sp_u16;
use crate::cursor::sp_u8;
use crate::err::ClassError;
use crate::err::SpecError;

verus! {

/// The abstract type of one local or stack slot in a stack-map frame.
#[derive(Debug, Clone, Copy, PartialEq, Eq)]
pub enum VerificationTypeInfo {
    TopVariableInfo,
    IntegerVariableInfo,
    FloatVariableInfo,
    NullVariableInfo,
    UninitializedThisVariableInfo,
    ObjectVariableInfo(u16),
    UninitializedVariableInfo(u16),
    LongVariableInfo,
    DoubleVariableInfo,
}

impl DeepView for VerificationTypeInfo {
    type V = VerificationTypeInfo;

    open spec fn deep_view(&self) -> VerificationTypeInfo {
        *self
    }
}

/// One stack-map frame. The chop frame keeps the number of locals removed
/// and the same frames keep their tag-coded offset delta, so that every
/// field of the original tag byte stays recoverable from the decoded tree.
#[derive(Debug, Clone, PartialEq, Eq)]
pub enum StackMapFrame {
    SameFrame(u8),
    SameLocals1StackItemFrame(u8, VerificationTypeInfo),
    SameLocals1StackItemFrameExtended(u16, VerificationTypeInfo),
    ChopFrame(u8, u16),
    SameFrameExtended(u16),
    AppendFrame(u16, Vec<VerificationTypeInfo>),
    FullFrame(u16, u16, Vec<VerificationTypeInfo>, u16, Vec<VerificationTypeInfo>),
}

/// The mathematical shape of a `StackMapFrame`.
#[verifier::ext_equal]
pub enum SpecStackMapFrame {
    SameFrame(u8),
    SameLocals1StackItemFrame(u8, VerificationTypeInfo),
    SameLocals1StackItemFrameExtended(u16, VerificationTypeInfo),
    ChopFrame(u8, u16),
    SameFrameExtended(u16),
    AppendFrame(u16, Seq<VerificationTypeInfo>),
    FullFrame(u16, u16, Seq<VerificationTypeInfo>, u16, Seq<VerificationTypeInfo>),
}

impl DeepView for StackMapFrame {
    type V = SpecStackMapFrame;

    open spec fn deep_view(&self) -> SpecStackMapFrame {
        match self {
            StackMapFrame::SameFrame(a) => SpecStackMapFrame::SameFrame(*a),
            StackMapFrame::SameLocals1StackItemFrame(a, v) => {
                SpecStackMapFrame::SameLocals1StackItemFrame(*a, *v)
            },
            StackMapFrame::SameLocals1StackItemFrameExtended(a, v) => {
                SpecStackMapFrame::SameLocals1StackItemFrameExtended(*a, *v)
            },
            StackMapFrame::ChopFrame(k, a) => SpecStackMapFrame::ChopFrame(*k, *a),
            StackMapFrame::SameFrameExtended(a) => SpecStackMapFrame::SameFrameExtended(*a),
            StackMapFrame::AppendFrame(a, vs) => SpecStackMapFrame::AppendFrame(*a, vs.deep_view()),
            StackMapFrame::FullFrame(a, nl, ls, ns, st) => SpecStackMapFrame::FullFrame(
                *a,
                *nl,
                ls.deep_view(),
                *ns,
                st.deep_view(),
            ),
        }
    }
}

/// A `StackMapTable` attribute body: the decoded frames.
#[derive(Debug, Clone, PartialEq, Eq)]
pub struct StackMapTable {
    pub entries: Vec<StackMapFrame>,
}

/// The mathematical shape of a `StackMapTable`.
#[verifier::ext_equal]
pub struct SpecStackMapTable {
    pub entries: Seq<SpecStackMapFrame>,
}

impl DeepView for StackMapTable {
    type V = SpecStackMapTable;

    open spec fn deep_view(&self) -> SpecStackMapTable {
        SpecStackMapTable { entries: self.entries.deep_view() }
    }
}

/// Mirror of `VerificationTypeInfo::parse`: a one-byte tag, where tags 7
/// and 8 carry a 16-bit payload.
pub open spec fn sp_verification_type_info(s: Seq<u8>, i: int) -> Result<
    (VerificationTypeInfo, int),
    SpecError,
> {
    match sp_u8(s, i) {
        Result::Err(e) => Result::Err(e),
        Result::Ok((tag, j)) => {
            if tag == 0 {
                Result::Ok((VerificationTypeInfo::TopVariableInfo, j))
            } else if tag == 1 {
                Result::Ok((VerificationTypeInfo::IntegerVariableInfo, j))
            } else if tag == 2 {
                Result::Ok((VerificationTypeInfo::FloatVariableInfo, j))
            } else if tag == 3 {
                Result::Ok((VerificationTypeInfo::DoubleVariableInfo, j))
            } else if tag == 4 {
                Result::Ok((VerificationTypeInfo::LongVariableInfo, j))
            } else if tag == 5 {
                Result::Ok((VerificationTypeInfo::NullVariableInfo, j))
            } else if tag == 6 {
                Result::Ok((VerificationTypeInfo::UninitializedThisVariableInfo, j))
            } else if tag == 7 {
                match sp_u16(s, j) {
                    Result::Err(e) => Result::Err(e),
                    Result::Ok((x, k)) => Result::Ok((VerificationTypeInfo::ObjectVariableInfo(x), k)),
                }
            } else if tag == 8 {
                match sp_u16(s, j) {
                    Result::Err(e) => Result::Err(e),
                    Result::Ok((x, k)) => Result::Ok(
                        (VerificationTypeInfo::UninitializedVariableInfo(x), k),
                    ),
                }
            } else {
                Result::Err(SpecError::UnknownVerificationTag { tag: tag, at: i })
            }
        },
    }
}

/// Mirror of `parse_verification_type_info_list`.
pub open spec fn sp_verification_type_info_list(s: Seq<u8>, i: int, n: int) -> Result<
    (Seq<VerificationTypeInfo>, int),
    SpecError,
>
    decreases n,
{
    if n <= 0 {
        Result::Ok((Seq::empty(), i))
    } else {
        match sp_verification_type_info(s, i) {
            Result::Err(e) => Result::Err(e),
            Result::Ok((v, j)) => match sp_verification_type_info_list(s, j, n - 1) {
                Result::Err(e) => Result::Err(e),
                Result::Ok((vs, k)) => Result::Ok((seq![v] + vs, k)),
            },
        }
    }
}

/// Mirror of `StackMapFrame::parse`: the tag ranges of the frame table.
pub open spec fn sp_stack_map_frame(s: Seq<u8>, i: int) -> Result<
    (SpecStackMapFrame, int),
    SpecError,
> {
    match sp_u8(s, i) {
        Result::Err(e) => Result::Err(e),
        Result::Ok((tag, j)) => {
            if tag <= 63 {
                Result::Ok((SpecStackMapFrame::SameFrame(tag), j))
            } else if tag <= 127 {
                match sp_verification_type_info(s, j) {
                    Result::Err(e) => Result::Err(e),
                    Result::Ok((v, k)) => Result::Ok(
                        (SpecStackMapFrame::SameLocals1StackItemFrame((tag - 64) as u8, v), k),
                    ),
                }
            } else if tag == 247 {
                match sp_u16(s, j) {
                    Result::Err(e) => Result::Err(e),
                    Result::Ok((delta, k)) => match sp_verification_type_info(s, k) {
                        Result::Err(e) => Result::Err(e),
                        Result::Ok((v, m)) => Result::Ok(
                            (SpecStackMapFrame::SameLocals1StackItemFrameExtended(delta, v), m),
                        ),
                    },
                }
            } else if 248 <= tag && tag <= 250 {
                match sp_u16(s, j) {
                    Result::Err(e) => Result::Err(e),
                    Result::Ok((delta, k)) => Result::Ok(
                        (SpecStackMapFrame::ChopFrame((251 - tag) as u8, delta), k),
                    ),
                }
            } else if tag == 251 {
                match sp_u16(s, j) {
                    Result::Err(e) => Result::Err(e),
                    Result::Ok((delta, k)) => Result::Ok(
                        (SpecStackMapFrame::SameFrameExtended(delta), k),
                    ),
                }
            } else if 252 <= tag && tag <= 254 {
                match sp_u16(s, j) {
                    Result::Err(e) => Result::Err(e),
                    Result::Ok((delta, k)) => match sp_verification_type_info_list(
                        s,
                        k,
                        tag - 251,
                    ) {
                        Result::Err(e) => Result::Err(e),
                        Result::Ok((ls, m)) => Result::Ok(
                            (SpecStackMapFrame::AppendFrame(delta, ls), m),
                        ),
                    },
                }
            } else if tag == 255 {
                match sp_u16(s, j) {
                    Result::Err(e) => Result::Err(e),
                    Result::Ok((delta, k)) => match sp_u16(s, k) {
                        Result::Err(e) => Result::Err(e),
                        Result::Ok((nl, m)) => match sp_verification_type_info_list(
                            s,
                            m,
                            nl as int,
                        ) {
                            Result::Err(e) => Result::Err(e),
                            Result::Ok((ls, m2)) => match sp_u16(s, m2) {
                                Result::Err(e) => Result::Err(e),
                                Result::Ok((ns, m3)) => match sp_verification_type_info_list(
                                    s,
                                    m3,
                                    ns as int,
                                ) {
                                    Result::Err(e) => Result::Err(e),
                                    Result::Ok((st, m4)) => Result::Ok(
                                        (SpecStackMapFrame::FullFrame(delta, nl, ls, ns, st), m4),
                                    ),
                                },
                            },
                        },
                    },
                }
            } else {
                Result::Err(SpecError::UnknownStackMapFrame { tag: tag, at: i })
            }
        },
    }
}

/// Mirror of `parse_stack_map_frame_list`.
pub open spec fn sp_stack_map_frame_list(s: Seq<u8>, i: int, n: int) -> Result<
    (Seq<SpecStackMapFrame>, int),
    SpecError,
>
    decreases n,
{
    if n <= 0 {
        Result::Ok((Seq::empty(), i))
    } else {
        match sp_stack_map_frame(s, i) {
            Result::Err(e) => Result::Err(e),
            Result::Ok((v, j)) => match sp_stack_map_frame_list(s, j, n - 1) {
                Result::Err(e) => Result::Err(e),
                Result::Ok((vs, k)) => Result::Ok((seq![v] + vs, k)),
            },
        }
    }
}

/// Mirror of `StackMapTable::parse`: a 16-bit frame count and the frames.
pub open spec fn sp_stack_map_table(s: Seq<u8>, i: int) -> Result<(SpecStackMapTable, int), SpecError> {
    match sp_u16(s, i) {
        Result::Err(e) => Result::Err(e),
        Result::Ok((n, j)) => match sp_stack_map_frame_list(s, j, n as int) {
            Result::Err(e) => Result::Err(e),
            Result::Ok((vs, k)) => Result::Ok((SpecStackMapTable { entries: vs }, k)),
        },
    }
}

impl VerificationTypeInfo {
    /// Read one verification-type entry.
    pub fn parse(s: &[u8], pos: usize) -> (r: Result<(VerificationTypeInfo, usize), ClassError>)
        requires
            pos <= s@.len(),
        ensures
            res_eq(r, sp_verification_type_info(s@, pos as int)),
            advances(r, pos, s@.len() as int),
    {
        let (tag, j) = match read_u8(s, pos) {
            Ok(v) => v,
            Err(e) => {
                return Err(e);
            },
        };
        if tag == 0 {
            Ok((VerificationTypeInfo::TopVariableInfo, j))
        } else if tag == 1 {
            Ok((VerificationTypeInfo::IntegerVariableInfo, j))
        } else if tag == 2 {
            Ok((VerificationTypeInfo::FloatVariableInfo, j))
        } else if tag == 3 {
            Ok((VerificationTypeInfo::DoubleVariableInfo, j))
        } else if tag == 4 {
            Ok((VerificationTypeInfo::LongVariableInfo, j))
        } else if tag == 5 {
            Ok((VerificationTypeInfo::NullVariableInfo, j))
        } else if tag == 6 {
            Ok((VerificationTypeInfo::UninitializedThisVariableInfo, j))
        } else if tag == 7 {
            match read_u16(s, j) {
                Ok((x, k)) => Ok((VerificationTypeInfo::ObjectVariableInfo(x), k)),
                Err(e) => Err(e),
            }
        } else if tag == 8 {
            match read_u16(s, j) {
                Ok((x, k)) => Ok((VerificationTypeInfo::UninitializedVariableInfo(x), k)),
                Err(e) => Err(e),
            }
        } else {
            Err(ClassError::UnknownVerificationTag { tag: tag, at: pos })
        }
    }
}

/// Read `n` consecutive verification-type entries.
pub fn parse_verification_type_info_list(s: &[u8], pos: usize, n: usize) -> (r: Result<
    (Vec<VerificationTypeInfo>, usize),
    ClassError,
>)
    requires
        pos <= s@.len(),
    ensures
        res_eq(r, sp_verification_type_info_list(s@, pos as int, n as int)),
        advances(r, pos, s@.len() as int),
{
    let mut acc: Vec<VerificationTypeInfo> = Vec::new();
    let mut k: usize = 0;
    let mut p: usize = pos;
    loop
        invariant
            k <= n,
            pos <= p <= s@.len(),
            sp_verification_type_info_list(s@, pos as int, n as int) == (match
                sp_verification_type_info_list(s@, p as int, n - k) {
                Result::Ok((vs, m)) => Result::<(Seq<VerificationTypeInfo>, int), SpecError>::Ok(
                    (acc.deep_view() + vs, m),
                ),
                Result::Err(e) => Result::Err(e),
            }),
        decreases n - k,
    {
        if k == n {
            assert(acc.deep_view() + Seq::<VerificationTypeInfo>::empty() =~= acc.deep_view());
            return Ok((acc, p));
        }
        let (v, j) = match VerificationTypeInfo::parse(s, p) {
            Ok(t) => t,
            Err(e) => {
                return Err(e);
            },
        };
        let ghost prev = acc.deep_view();
        let ghost vdv = v.deep_view();
        acc.push(v);
        assert(acc.deep_view() =~= prev.push(vdv));
        proof {
            match sp_verification_type_info_list(s@, j as int, n - k - 1) {
                Result::Ok((vs2, m2)) => {
                    assert(sp_verification_type_info_list(s@, p as int, n - k) == Result::<
                        (Seq<VerificationTypeInfo>, int),
                        SpecError,
                    >::Ok((seq![vdv] + vs2, m2)));
                    assert(prev + (seq![vdv] + vs2) =~= prev.push(vdv) + vs2);
                },
                Result::Err(e2) => {
                    assert(sp_verification_type_info_list(s@, p as int, n - k) == Result::<
                        (Seq<VerificationTypeInfo>, int),
                        SpecError,
                    >::Err(e2));
                },
            }
        }
        p = j;
        k = k + 1;
    }
}

impl StackMapFrame {
    /// Read one stack-map frame.
    pub fn parse(s: &[u8], pos: usize) -> (r: Result<(StackMapFrame, usize), ClassError>)
        requires
            pos <= s@.len(),
        ensures
            res_eq(r, sp_stack_map_frame(s@, pos as int)),
            advances(r, pos, s@.len() as int),
    {
        let (tag, j) = match read_u8(s, pos) {
            Ok(v) => v,
            Err(e) => {
                return Err(e);
            },
        };
        if tag <= 63 {
            Ok((StackMapFrame::SameFrame(tag), j))
        } else if tag <= 127 {
            match VerificationTypeInfo::parse(s, j) {
                Ok((v, k)) => Ok((StackMapFrame::SameLocals1StackItemFrame(tag - 64, v), k)),
                Err(e) => Err(e),
            }
        } else if tag == 247 {
            let (delta, k) = match read_u16(s, j) {
                Ok(v) => v,
                Err(e) => {
                    return Err(e);
                },
            };
            match VerificationTypeInfo::parse(s, k) {
                Ok((v, m)) => Ok((StackMapFrame::SameLocals1StackItemFrameExtended(delta, v), m)),
                Err(e) => Err(e),
            }
        } else if 248 <= tag && tag <= 250 {
            match read_u16(s, j) {
                Ok((delta, k)) => Ok((StackMapFrame::ChopFrame(251 - tag, delta), k)),
                Err(e) => Err(e),
            }
        } else if tag == 251 {
            match read_u16(s, j) {
                Ok((delta, k)) => Ok((StackMapFrame::SameFrameExtended(delta), k)),
                Err(e) => Err(e),
            }
        } else if 252 <= tag && tag <= 254 {
            let (delta, k) = match read_u16(s, j) {
                Ok(v) => v,
                Err(e) => {
                    return Err(e);
                },
            };
            match parse_verification_type_info_list(s, k, (tag - 251) as usize) {
                Ok((ls, m)) => Ok((StackMapFrame::AppendFrame(delta, ls), m)),
                Err(e) => Err(e),
            }
        } else if tag == 255 {
            let (delta, k) = match read_u16(s, j) {
                Ok(v) => v,
                Err(e) => {
                    return Err(e);
                },
            };
            let (nl, m) = match read_u16(s, k) {
                Ok(v) => v,
                Err(e) => {
                    return Err(e);
                },
            };
            let (ls, m2) = match parse_verification_type_info_list(s, m, nl as usize) {
                Ok(v) => v,
                Err(e) => {
                    return Err(e);
                },
            };
            let (ns, m3) = match read_u16(s, m2) {
                Ok(v) => v,
                Err(e) => {
                    return Err(e);
                },
            };
            match parse_verification_type_info_list(s, m3, ns as usize) {
                Ok((st, m4)) => Ok((StackMapFrame::FullFrame(delta, nl, ls, ns, st), m4)),
                Err(e) => Err(e),
            }
        } else {
            Err(ClassError::UnknownStackMapFrame { tag: tag, at: pos })
        }
    }
}

/// Read `n` consecutive stack-map frames.
pub fn parse_stack_map_frame_list(s: &[u8], pos: usize, n: usize) -> (r: Result<
    (Vec<StackMapFrame>, usize),
    ClassError,
>)
    requires
        pos <= s@.len(),
    ensures
        res_eq(r, sp_stack_map_frame_list(s@, pos as int, n as int)),
        advances(r, pos, s@.len() as int),
{
    let mut acc: Vec<StackMapFrame> = Vec::new();
    let mut k: usize = 0;
    let mut p: usize = pos;
    loop
        invariant
            k <= n,
            pos <= p <= s@.len(),
            sp_stack_map_frame_list(s@, pos as int, n as int) == (match sp_stack_map_frame_list(
                s@,
                p as int,
                n - k,
            ) {
                Result::Ok((vs, m)) => Result::<(Seq<SpecStackMapFrame>, int), SpecError>::Ok(
                    (acc.deep_view() + vs, m),
                ),
                Result::Err(e) => Result::Err(e),
            }),
        decreases n - k,
    {
        if k == n {
            assert(acc.deep_view() + Seq::<SpecStackMapFrame>::empty() =~= acc.deep_view());
            return Ok((acc, p));
        }
        let (v, j) = match StackMapFrame::parse(s, p) {
            Ok(t) => t,
            Err(e) => {
                return Err(e);
            },
        };
        let ghost prev = acc.deep_view();
        let ghost vdv = v.deep_view();
        acc.push(v);
        assert(acc.deep_view() =~= prev.push(vdv));
        proof {
            match sp_stack_map_frame_list(s@, j as int, n - k - 1) {
                Result::Ok((vs2, m2)) => {
                    assert(sp_stack_map_frame_list(s@, p as int, n - k) == Result::<
                        (Seq<SpecStackMapFrame>, int),
                        SpecError,
                    >::Ok((seq![vdv] + vs2, m2)));
                    assert(prev + (seq![vdv] + vs2) =~= prev.push(vdv) + vs2);
                },
                Result::Err(e2) => {
                    assert(sp_stack_map_frame_list(s@, p as int, n - k) == Result::<
                        (Seq<SpecStackMapFrame>, int),
                        SpecError,
                    >::Err(e2));
                },
            }
        }
        p = j;
        k = k + 1;
    }
}

impl StackMapTable {
    /// Read a stack-map table: a 16-bit count and that many frames.
    pub fn parse(s: &[u8], pos: usize) -> (r: Result<(StackMapTable, usize), ClassError>)
        requires
            pos <= s@.len(),
        ensures
            res_eq(r, sp_stack_map_table(s@, pos as int)),
            advances(r, pos, s@.len() as int),
    {
        let (n, j) = match read_u16(s, pos) {
            Ok(v) => v,
            Err(e) => {
                return Err(e);
            },
        };
        match parse_stack_map_frame_list(s, j, n as usize) {
            Ok((vs, k)) => Ok((StackMapTable { entries: vs }, k)),
            Err(e) => Err(e),
        }
    }
}

} // verus!
