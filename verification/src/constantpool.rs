//! The constant pool: a 1-based table of tagged literals and symbolic
//! references, where `Long` and `Double` entries cover two logical slots.
//!
//! The stored sequence is dense: a wide entry is stored once and the
//! reserved successor slot is never populated, so external 1-based indices
//! are translated through the widths when a slot is dereferenced.

use vstd::prelude::*;

use crate::cursor::read_bytes;
use crate::cursor::read_i32;
use crate::cursor::read_i64;
use crate::cursor::read_u16;
use crate::cursor::read_u32;
use crate::cursor::read_u64;
use crate::cursor::read_u8;
use crate::cursor::res_eq;
use crate::cursor::sp_bytes;
use crate::cursor::sp_i32;
use crate::cursor::sp_i64;
use crate::cursor::sp_u16;
use crate::cursor::sp_u32;
use crate::cursor::sp_u64;
use crate::cursor::sp_u8;
use crate::err::ClassError;
use crate::err::SpecError;
use crate::mutf8::check_mutf8;
use crate::mutf8::is_mutf8;

verus! {

pub const CONSTANT_UTF8: u8 = 1;

pub const CONSTANT_INTEGER: u8 = 3;

pub const CONSTANT_FLOAT: u8 = 4;

pub const CONSTANT_LONG: u8 = 5;

pub const CONSTANT_DOUBLE: u8 = 6;

pub const CONSTANT_CLASS: u8 = 7;

pub const CONSTANT_STRING: u8 = 8;

pub const CONSTANT_FIELD_REF: u8 = 9;

pub const CONSTANT_METHOD_REF: u8 = 10;

pub const CONSTANT_INTERFACE_METHOD_REF: u8 = 11;

pub const CONSTANT_NAME_AND_TYPE: u8 = 12;

pub const CONSTANT_METHOD_HANDLE: u8 = 15;

pub const CONSTANT_METHOD_TYPE: u8 = 16;

pub const CONSTANT_DYNAMIC: u8 = 17;

pub const CONSTANT_INVOKE_DYNAMIC: u8 = 18;

pub const CONSTANT_MODULE: u8 = 19;

pub const CONSTANT_PACKAGE: u8 = 20;

/// One stored constant-pool entry.
///
/// `Float` and `Double` hold the raw big-endian IEEE-754 bit pattern read
/// from the file; the decoder performs no floating-point arithmetic, so
/// the pattern is kept as an unsigned integer of the same width.
/// `UTF8` holds the Modified-UTF-8 body bytes, validated on decode.
#[derive(Debug, Clone, PartialEq, Eq)]
pub enum ConstantPool {
    Class(u16),
    FieldRef(u16, u16),
    MethodRef(u16, u16),
    InterfaceMethodRef(u16, u16),
    String(u16),
    Integer(i32),
    Float(u32),
    Long(i64),
    Double(u64),
    NameAndType(u16, u16),
    UTF8(Vec<u8>),
    MethodHandle(u8, u16),
    MethodType(u16),
    Dynamic(u16, u16),
    InvokeDynamic(u16, u16),
    Module(u16),
    Package(u16),
}

/// The mathematical shape of a stored entry: the `UTF8` body is a sequence.
#[verifier::ext_equal]
pub enum SpecConstant {
    Class(u16),
    FieldRef(u16, u16),
    MethodRef(u16, u16),
    InterfaceMethodRef(u16, u16),
    String(u16),
    Integer(i32),
    Float(u32),
    Long(i64),
    Double(u64),
    NameAndType(u16, u16),
    UTF8(Seq<u8>),
    MethodHandle(u8, u16),
    MethodType(u16),
    Dynamic(u16, u16),
    InvokeDynamic(u16, u16),
    Module(u16),
    Package(u16),
}

impl DeepView for ConstantPool {
    type V = SpecConstant;

    open spec fn deep_view(&self) -> SpecConstant {
        match self {
            ConstantPool::Class(a) => SpecConstant::Class(*a),
            ConstantPool::FieldRef(a, b) => SpecConstant::FieldRef(*a, *b),
            ConstantPool::MethodRef(a, b) => SpecConstant::MethodRef(*a, *b),
            ConstantPool::InterfaceMethodRef(a, b) => SpecConstant::InterfaceMethodRef(*a, *b),
            ConstantPool::String(a) => SpecConstant::String(*a),
            ConstantPool::Integer(a) => SpecConstant::Integer(*a),
            ConstantPool::Float(a) => SpecConstant::Float(*a),
            ConstantPool::Long(a) => SpecConstant::Long(*a),
            ConstantPool::Double(a) => SpecConstant::Double(*a),
            ConstantPool::NameAndType(a, b) => SpecConstant::NameAndType(*a, *b),
            ConstantPool::UTF8(v) => SpecConstant::UTF8(v@),
            ConstantPool::MethodHandle(a, b) => SpecConstant::MethodHandle(*a, *b),
            ConstantPool::MethodType(a) => SpecConstant::MethodType(*a),
            ConstantPool::Dynamic(a, b) => SpecConstant::Dynamic(*a, *b),
            ConstantPool::InvokeDynamic(a, b) => SpecConstant::InvokeDynamic(*a, *b),
            ConstantPool::Module(a) => SpecConstant::Module(*a),
            ConstantPool::Package(a) => SpecConstant::Package(*a),
        }
    }
}

/// How many logical slots an entry covers: two for the wide kinds `Long`
/// and `Double`, one for every other kind.
pub open spec fn cp_width(c: SpecConstant) -> int {
    match c {
        SpecConstant::Long(_) => 2,
        SpecConstant::Double(_) => 2,
        _ => 1,
    }
}

/// The number of logical slots a stored sequence covers.
pub open spec fn slots_of(cs: Seq<SpecConstant>) -> int
    decreases cs.len(),
{
    if cs.len() == 0 {
        0
    } else {
        cp_width(cs[0]) + slots_of(cs.skip(1))
    }
}

/// Mirror of `ConstantPool::parse_constant`: one tagged entry.
pub open spec fn sp_constant(s: Seq<u8>, i: int) -> Result<(SpecConstant, int), SpecError> {
    match sp_u8(s, i) {
        Result::Err(e) => Result::Err(e),
        Result::Ok((tag, j)) => {
            if tag == CONSTANT_CLASS {
                match sp_u16(s, j) {
                    Result::Ok((a, k)) => Result::Ok((SpecConstant::Class(a), k)),
                    Result::Err(e) => Result::Err(e),
                }
            } else if tag == CONSTANT_FIELD_REF {
                match sp_u16_pair(s, j) {
                    Result::Ok(((a, b), k)) => Result::Ok((SpecConstant::FieldRef(a, b), k)),
                    Result::Err(e) => Result::Err(e),
                }
            } else if tag == CONSTANT_METHOD_REF {
                match sp_u16_pair(s, j) {
                    Result::Ok(((a, b), k)) => Result::Ok((SpecConstant::MethodRef(a, b), k)),
                    Result::Err(e) => Result::Err(e),
                }
            } else if tag == CONSTANT_INTERFACE_METHOD_REF {
                match sp_u16_pair(s, j) {
                    Result::Ok(((a, b), k)) => Result::Ok(
                        (SpecConstant::InterfaceMethodRef(a, b), k),
                    ),
                    Result::Err(e) => Result::Err(e),
                }
            } else if tag == CONSTANT_STRING {
                match sp_u16(s, j) {
                    Result::Ok((a, k)) => Result::Ok((SpecConstant::String(a), k)),
                    Result::Err(e) => Result::Err(e),
                }
            } else if tag == CONSTANT_INTEGER {
                match sp_i32(s, j) {
                    Result::Ok((a, k)) => Result::Ok((SpecConstant::Integer(a), k)),
                    Result::Err(e) => Result::Err(e),
                }
            } else if tag == CONSTANT_FLOAT {
                match sp_u32(s, j) {
                    Result::Ok((a, k)) => Result::Ok((SpecConstant::Float(a), k)),
                    Result::Err(e) => Result::Err(e),
                }
            } else if tag == CONSTANT_LONG {
                match sp_i64(s, j) {
                    Result::Ok((a, k)) => Result::Ok((SpecConstant::Long(a), k)),
                    Result::Err(e) => Result::Err(e),
                }
            } else if tag == CONSTANT_DOUBLE {
                match sp_u64(s, j) {
                    Result::Ok((a, k)) => Result::Ok((SpecConstant::Double(a), k)),
                    Result::Err(e) => Result::Err(e),
                }
            } else if tag == CONSTANT_NAME_AND_TYPE {
                match sp_u16_pair(s, j) {
                    Result::Ok(((a, b), k)) => Result::Ok((SpecConstant::NameAndType(a, b), k)),
                    Result::Err(e) => Result::Err(e),
                }
            } else if tag == CONSTANT_UTF8 {
                match sp_u16(s, j) {
                    Result::Ok((n, k)) => match sp_bytes(s, k, n as int) {
                        Result::Ok((body, m)) => {
                            if is_mutf8(body) {
                                Result::Ok((SpecConstant::UTF8(body), m))
                            } else {
                                Result::Err(SpecError::BadUtf8 { at: k })
                            }
                        },
                        Result::Err(e) => Result::Err(e),
                    },
                    Result::Err(e) => Result::Err(e),
                }
            } else if tag == CONSTANT_METHOD_HANDLE {
                match sp_u8(s, j) {
                    Result::Ok((a, k)) => match sp_u16(s, k) {
                        Result::Ok((b, m)) => Result::Ok((SpecConstant::MethodHandle(a, b), m)),
                        Result::Err(e) => Result::Err(e),
                    },
                    Result::Err(e) => Result::Err(e),
                }
            } else if tag == CONSTANT_METHOD_TYPE {
                match sp_u16(s, j) {
                    Result::Ok((a, k)) => Result::Ok((SpecConstant::MethodType(a), k)),
                    Result::Err(e) => Result::Err(e),
                }
            } else if tag == CONSTANT_DYNAMIC {
                match sp_u16_pair(s, j) {
                    Result::Ok(((a, b), k)) => Result::Ok((SpecConstant::Dynamic(a, b), k)),
                    Result::Err(e) => Result::Err(e),
                }
            } else if tag == CONSTANT_INVOKE_DYNAMIC {
                match sp_u16_pair(s, j) {
                    Result::Ok(((a, b), k)) => Result::Ok((SpecConstant::InvokeDynamic(a, b), k)),
                    Result::Err(e) => Result::Err(e),
                }
            } else if tag == CONSTANT_MODULE {
                match sp_u16(s, j) {
                    Result::Ok((a, k)) => Result::Ok((SpecConstant::Module(a), k)),
                    Result::Err(e) => Result::Err(e),
                }
            } else if tag == CONSTANT_PACKAGE {
                match sp_u16(s, j) {
                    Result::Ok((a, k)) => Result::Ok((SpecConstant::Package(a), k)),
                    Result::Err(e) => Result::Err(e),
                }
            } else {
                Result::Err(SpecError::UnknownConstantTag { tag: tag, at: i })
            }
        },
    }
}

/// Two consecutive big-endian 16-bit reads.
pub open spec fn sp_u16_pair(s: Seq<u8>, i: int) -> Result<((u16, u16), int), SpecError> {
    match sp_u16(s, i) {
        Result::Ok((a, j)) => match sp_u16(s, j) {
            Result::Ok((b, k)) => Result::Ok(((a, b), k)),
            Result::Err(e) => Result::Err(e),
        },
        Result::Err(e) => Result::Err(e),
    }
}

/// Mirror of `ConstantPool::parse`: stored entries are read until the
/// logical slots `slot .. count` are covered. A wide entry whose reserved
/// successor slot would fall outside `count - 1` is rejected, so a decoded
/// pool always covers exactly `count - 1` logical slots.
pub open spec fn sp_constants(s: Seq<u8>, i: int, count: u16, slot: int) -> Result<
    (Seq<SpecConstant>, int),
    SpecError,
>
    decreases count - slot,
{
    if slot >= count {
        Result::Ok((Seq::empty(), i))
    } else {
        match sp_constant(s, i) {
            Result::Err(e) => Result::Err(e),
            Result::Ok((c, j)) => {
                if cp_width(c) <= count - slot {
                    match sp_constants(s, j, count, slot + cp_width(c)) {
                        Result::Ok((cs, k)) => Result::Ok((seq![c] + cs, k)),
                        Result::Err(e) => Result::Err(e),
                    }
                } else {
                    Result::Err(SpecError::IndexOutOfBounds { index: (slot + 1) as u16 })
                }
            },
        }
    }
}

/// Mirror of `ConstantPool::get`: dereference the external 1-based index
/// `index` against stored entries `cs`, of which the first sits at logical
/// slot `slot`. Index 0, an index beyond the covered slots, and the
/// reserved successor slot of a wide entry are all out of bounds.
pub open spec fn sp_pool_get_from(cs: Seq<SpecConstant>, slot: int, index: int) -> Result<
    SpecConstant,
    SpecError,
>
    decreases cs.len(),
{
    if cs.len() == 0 || index < slot {
        Result::Err(SpecError::IndexOutOfBounds { index: index as u16 })
    } else if index == slot {
        Result::Ok(cs[0])
    } else if index == slot + 1 && cp_width(cs[0]) == 2 {
        Result::Err(SpecError::IndexOutOfBounds { index: index as u16 })
    } else {
        sp_pool_get_from(cs.skip(1), slot + cp_width(cs[0]), index)
    }
}

/// Mirror of `ConstantPool::get` on a whole stored pool.
pub open spec fn sp_pool_get(cs: Seq<SpecConstant>, index: u16) -> Result<SpecConstant, SpecError> {
    sp_pool_get_from(cs, 1, index as int)
}

/// The logical slot of stored entry `k`, when the first stored entry sits
/// at logical slot `base`.
pub open spec fn entry_slot(cs: Seq<SpecConstant>, base: int, k: int) -> int {
    base + slots_of(cs.take(k))
}

impl ConstantPool {
    /// Read one tagged constant-pool entry.
    pub fn parse_constant(s: &[u8], pos: usize) -> (r: Result<(ConstantPool, usize), ClassError>)
        requires
            pos <= s@.len(),
        ensures
            res_eq(r, sp_constant(s@, pos as int)),
    {
        let (tag, j) = match read_u8(s, pos) {
            Ok(v) => v,
            Err(e) => {
                return Err(e);
            },
        };
        if tag == CONSTANT_CLASS {
            match read_u16(s, j) {
                Ok((a, k)) => Ok((ConstantPool::Class(a), k)),
                Err(e) => Err(e),
            }
        } else if tag == CONSTANT_FIELD_REF {
            match Self::read_u16_pair(s, j) {
                Ok(((a, b), k)) => Ok((ConstantPool::FieldRef(a, b), k)),
                Err(e) => Err(e),
            }
        } else if tag == CONSTANT_METHOD_REF {
            match Self::read_u16_pair(s, j) {
                Ok(((a, b), k)) => Ok((ConstantPool::MethodRef(a, b), k)),
                Err(e) => Err(e),
            }
        } else if tag == CONSTANT_INTERFACE_METHOD_REF {
            match Self::read_u16_pair(s, j) {
                Ok(((a, b), k)) => Ok((ConstantPool::InterfaceMethodRef(a, b), k)),
                Err(e) => Err(e),
            }
        } else if tag == CONSTANT_STRING {
            match read_u16(s, j) {
                Ok((a, k)) => Ok((ConstantPool::String(a), k)),
                Err(e) => Err(e),
            }
        } else if tag == CONSTANT_INTEGER {
            match read_i32(s, j) {
                Ok((a, k)) => Ok((ConstantPool::Integer(a), k)),
                Err(e) => Err(e),
            }
        } else if tag == CONSTANT_FLOAT {
            match read_u32(s, j) {
                Ok((a, k)) => Ok((ConstantPool::Float(a), k)),
                Err(e) => Err(e),
            }
        } else if tag == CONSTANT_LONG {
            match read_i64(s, j) {
                Ok((a, k)) => Ok((ConstantPool::Long(a), k)),
                Err(e) => Err(e),
            }
        } else if tag == CONSTANT_DOUBLE {
            match read_u64(s, j) {
                Ok((a, k)) => Ok((ConstantPool::Double(a), k)),
                Err(e) => Err(e),
            }
        } else if tag == CONSTANT_NAME_AND_TYPE {
            match Self::read_u16_pair(s, j) {
                Ok(((a, b), k)) => Ok((ConstantPool::NameAndType(a, b), k)),
                Err(e) => Err(e),
            }
        } else if tag == CONSTANT_UTF8 {
            let (n, k) = match read_u16(s, j) {
                Ok(v) => v,
                Err(e) => {
                    return Err(e);
                },
            };
            let (body, m) = match read_bytes(s, k, n as usize) {
                Ok(v) => v,
                Err(e) => {
                    return Err(e);
                },
            };
            assert(body.deep_view() =~= body@);
            if check_mutf8(body.as_slice()) {
                Ok((ConstantPool::UTF8(body), m))
            } else {
                Err(ClassError::BadUtf8 { at: k })
            }
        } else if tag == CONSTANT_METHOD_HANDLE {
            let (a, k) = match read_u8(s, j) {
                Ok(v) => v,
                Err(e) => {
                    return Err(e);
                },
            };
            match read_u16(s, k) {
                Ok((b, m)) => Ok((ConstantPool::MethodHandle(a, b), m)),
                Err(e) => Err(e),
            }
        } else if tag == CONSTANT_METHOD_TYPE {
            match read_u16(s, j) {
                Ok((a, k)) => Ok((ConstantPool::MethodType(a), k)),
                Err(e) => Err(e),
            }
        } else if tag == CONSTANT_DYNAMIC {
            match Self::read_u16_pair(s, j) {
                Ok(((a, b), k)) => Ok((ConstantPool::Dynamic(a, b), k)),
                Err(e) => Err(e),
            }
        } else if tag == CONSTANT_INVOKE_DYNAMIC {
            match Self::read_u16_pair(s, j) {
                Ok(((a, b), k)) => Ok((ConstantPool::InvokeDynamic(a, b), k)),
                Err(e) => Err(e),
            }
        } else if tag == CONSTANT_MODULE {
            match read_u16(s, j) {
                Ok((a, k)) => Ok((ConstantPool::Module(a), k)),
                Err(e) => Err(e),
            }
        } else if tag == CONSTANT_PACKAGE {
            match read_u16(s, j) {
                Ok((a, k)) => Ok((ConstantPool::Package(a), k)),
                Err(e) => Err(e),
            }
        } else {
            Err(ClassError::UnknownConstantTag { tag: tag, at: pos })
        }
    }

    /// Read two consecutive 16-bit big-endian integers.
    fn read_u16_pair(s: &[u8], pos: usize) -> (r: Result<((u16, u16), usize), ClassError>)
        requires
            pos <= s@.len(),
        ensures
            res_eq(r, sp_u16_pair(s@, pos as int)),
    {
        let (a, j) = match read_u16(s, pos) {
            Ok(v) => v,
            Err(e) => {
                return Err(e);
            },
        };
        match read_u16(s, j) {
            Ok((b, k)) => Ok(((a, b), k)),
            Err(e) => Err(e),
        }
    }

    /// Read the stored entries of a pool of declared count
    /// `constant_pool_count`, starting at logical slot 1.
    pub fn parse(s: &[u8], pos: usize, constant_pool_count: u16) -> (r: Result<
        (Vec<ConstantPool>, usize),
        ClassError,
    >)
        requires
            pos <= s@.len(),
        ensures
            res_eq(r, sp_constants(s@, pos as int, constant_pool_count, 1)),
            crate::cursor::advances(r, pos, s@.len() as int),
    {
        let count = constant_pool_count;
        let mut acc: Vec<ConstantPool> = Vec::new();
        let mut slot: u16 = 1;
        let mut p: usize = pos;
        loop
            invariant
                pos <= p <= s@.len(),
                1 <= slot,
                sp_constants(s@, pos as int, count, 1) == (match sp_constants(
                    s@,
                    p as int,
                    count,
                    slot as int,
                ) {
                    Result::Ok((cs, k)) => Result::<(Seq<SpecConstant>, int), SpecError>::Ok(
                        (acc.deep_view() + cs, k),
                    ),
                    Result::Err(e) => Result::Err(e),
                }),
            decreases count - slot,
        {
            if slot >= count {
                assert(acc.deep_view() + Seq::<SpecConstant>::empty() =~= acc.deep_view());
                return Ok((acc, p));
            }
            let (c, j) = match Self::parse_constant(s, p) {
                Ok(v) => v,
                Err(e) => {
                    return Err(e);
                },
            };
            let wide = match &c {
                ConstantPool::Long(_) => true,
                ConstantPool::Double(_) => true,
                _ => false,
            };
            let w: u16 = if wide {
                2
            } else {
                1
            };
            if count - slot < w {
                return Err(ClassError::IndexOutOfBounds { index: slot + 1 });
            }
            let ghost prev = acc.deep_view();
            let ghost cdv = c.deep_view();
            acc.push(c);
            assert(acc.deep_view() =~= prev.push(cdv));
            proof {
                assert(cp_width(cdv) == w as int);
                assert(sp_constant(s@, p as int) == Result::<(SpecConstant, int), SpecError>::Ok(
                    (cdv, j as int),
                ));
                match sp_constants(s@, j as int, count, slot as int + w as int) {
                    Result::Ok((cs2, k2)) => {
                        assert(sp_constants(s@, p as int, count, slot as int) == Result::<
                            (Seq<SpecConstant>, int),
                            SpecError,
                        >::Ok((seq![cdv] + cs2, k2)));
                        assert(prev + (seq![cdv] + cs2) =~= prev.push(cdv) + cs2);
                    },
                    Result::Err(e2) => {
                        assert(sp_constants(s@, p as int, count, slot as int) == Result::<
                            (Seq<SpecConstant>, int),
                            SpecError,
                        >::Err(e2));
                    },
                }
            }
            p = j;
            slot = slot + w;
        }
    }

    /// Dereference a 1-based external constant-pool index, translating it
    /// through the two-slot gaps left by `Long` and `Double` entries.
    pub fn get(pool: &Vec<ConstantPool>, index: u16) -> (r: Result<&ConstantPool, ClassError>)
        ensures
            match r {
                Ok(c) => sp_pool_get(pool.deep_view(), index) == Result::<
                    SpecConstant,
                    SpecError,
                >::Ok(c.deep_view()),
                Err(e) => sp_pool_get(pool.deep_view(), index) == Result::<
                    SpecConstant,
                    SpecError,
                >::Err(e.deep_view()),
            },
    {
        let n = pool.len();
        let mut k: usize = 0;
        let mut slot: u32 = 1;
        assert(pool.deep_view().skip(0) =~= pool.deep_view());
        loop
            invariant
                k <= n,
                n == pool@.len(),
                1 <= slot,
                slot <= index as u32 + 1,
                sp_pool_get(pool.deep_view(), index) == sp_pool_get_from(
                    pool.deep_view().skip(k as int),
                    slot as int,
                    index as int,
                ),
            decreases n - k,
        {
            if k == n {
                assert(pool.deep_view().skip(k as int) =~= Seq::<SpecConstant>::empty());
                return Err(ClassError::IndexOutOfBounds { index });
            }
            let c = &pool[k];
            assert(c.deep_view() == pool.deep_view().skip(k as int)[0]);
            if slot > index as u32 {
                return Err(ClassError::IndexOutOfBounds { index });
            }
            let wide = match c {
                ConstantPool::Long(_) => true,
                ConstantPool::Double(_) => true,
                _ => false,
            };
            if slot == index as u32 {
                return Ok(c);
            }
            if wide && slot + 1 == index as u32 {
                return Err(ClassError::IndexOutOfBounds { index });
            }
            let w: u32 = if wide {
                2
            } else {
                1
            };
            assert(pool.deep_view().skip(k as int).skip(1) =~= pool.deep_view().skip(k + 1));
            slot = slot + w;
            k = k + 1;
        }
    }
}

/// Law: a successfully decoded run of stored entries covers exactly the
/// logical slots `slot .. count`; with `slot == 1` that is the `count - 1`
/// slots the class-file header declares.
pub proof fn lemma_pool_covers_declared_slots(
    s: Seq<u8>,
    i: int,
    count: u16,
    slot: int,
    cs: Seq<SpecConstant>,
    j: int,
)
    requires
        sp_constants(s, i, count, slot) == Result::<(Seq<SpecConstant>, int), SpecError>::Ok(
            (cs, j),
        ),
    ensures
        slots_of(cs) == if slot <= count {
            count - slot
        } else {
            0
        },
    decreases count - slot,
{
    if slot >= count {
        assert(cs =~= Seq::<SpecConstant>::empty());
    } else {
        match sp_constant(s, i) {
            Result::Ok((c, j1)) => {
                let w = cp_width(c);
                assert(w <= count - slot);
                match sp_constants(s, j1, count, slot + w) {
                    Result::Ok((cs2, k2)) => {
                        lemma_pool_covers_declared_slots(s, j1, count, slot + w, cs2, k2);
                        assert(cs == seq![c] + cs2);
                        assert(cs.skip(1) =~= cs2);
                        assert(cs[0] == c);
                    },
                    Result::Err(_) => {
                        assert(false);
                    },
                }
            },
            Result::Err(_) => {
                assert(false);
            },
        }
    }
}

/// Law: the external index of each stored entry resolves to that entry; the
/// 1-based index is translated through the wide-entry gaps.
pub proof fn lemma_get_finds_entry(cs: Seq<SpecConstant>, base: int, k: int)
    requires
        0 <= k < cs.len(),
    ensures
        sp_pool_get_from(cs, base, entry_slot(cs, base, k)) == Result::<
            SpecConstant,
            SpecError,
        >::Ok(cs[k]),
    decreases k,
{
    if k == 0 {
        assert(cs.take(0) =~= Seq::<SpecConstant>::empty());
        assert(entry_slot(cs, base, 0) == base);
    } else {
        assert(slots_of(cs.take(k)) >= 0) by { lemma_slots_nonneg(cs.take(k)) };
        assert(cs.take(k)[0] == cs[0]);
        assert(cs.take(k).skip(1) =~= cs.skip(1).take(k - 1));
        lemma_get_finds_entry(cs.skip(1), base + cp_width(cs[0]), k - 1);
        assert(slots_of(cs.skip(1).take(k - 1)) >= 0) by {
            lemma_slots_nonneg(cs.skip(1).take(k - 1))
        };
        assert(entry_slot(cs, base, k) == base + cp_width(cs[0]) + slots_of(cs.skip(1).take(k - 1)));
    }
}

/// Law: the reserved successor slot of a stored `Long` or `Double` entry is
/// never a valid external index; dereferencing it is out of bounds.
pub proof fn lemma_wide_successor_reserved(cs: Seq<SpecConstant>, base: int, k: int)
    requires
        0 <= k < cs.len(),
        cp_width(cs[k]) == 2,
    ensures
        sp_pool_get_from(cs, base, entry_slot(cs, base, k) + 1) == Result::<
            SpecConstant,
            SpecError,
        >::Err(SpecError::IndexOutOfBounds { index: (entry_slot(cs, base, k) + 1) as u16 }),
    decreases k,
{
    if k == 0 {
        assert(cs.take(0) =~= Seq::<SpecConstant>::empty());
        assert(entry_slot(cs, base, 0) == base);
    } else {
        assert(cs.take(k)[0] == cs[0]);
        assert(cs.take(k).skip(1) =~= cs.skip(1).take(k - 1));
        lemma_wide_successor_reserved(cs.skip(1), base + cp_width(cs[0]), k - 1);
        assert(slots_of(cs.skip(1).take(k - 1)) >= 0) by {
            lemma_slots_nonneg(cs.skip(1).take(k - 1))
        };
        assert(entry_slot(cs, base, k) == base + cp_width(cs[0]) + slots_of(cs.skip(1).take(k - 1)));
    }
}

/// Every run of stored entries covers a non-negative number of slots.
pub proof fn lemma_slots_nonneg(cs: Seq<SpecConstant>)
    ensures
        slots_of(cs) >= 0,
    decreases cs.len(),
{
    if cs.len() > 0 {
        lemma_slots_nonneg(cs.skip(1));
    }
}

} // verus!
