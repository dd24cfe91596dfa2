//! The primitive cursor: fixed-width big-endian reads and byte runs.
//!
//! Every executable reader is specified against a spec-level mirror over
//! `Seq<u8>` that returns either the decoded value with the next cursor
//! position, or the exact error.

use vstd::prelude::*;

use crate::err::ClassError;
use crate::err::SpecError;

verus! {

/// Relates an executable parse result to its mathematical mirror: same
/// success or failure, same decoded value (up to view), same next position,
/// same error.
pub open spec fn res_eq<T: DeepView>(
    r: Result<(T, usize), ClassError>,
    m: Result<(T::V, int), SpecError>,
) -> bool {
    match (r, m) {
        (Result::Ok((v, p)), Result::Ok((mv, mp))) => v.deep_view() == mv && p as int == mp,
        (Result::Err(e), Result::Err(me)) => e.deep_view() == me,
        _ => false,
    }
}

/// The error for a read of `need` bytes at position `i` of a buffer of
/// length `len` that holds too few bytes.
pub open spec fn sp_eof(i: int, need: int, len: int) -> SpecError {
    SpecError::UnexpectedEof { at: i, need: need, have: len - i }
}

/// The unsigned value of two big-endian bytes.
pub open spec fn be16(b0: u8, b1: u8) -> u16 {
    (b0 as int * 0x100 + b1 as int) as u16
}

/// The unsigned value of four big-endian bytes.
pub open spec fn be32(b0: u8, b1: u8, b2: u8, b3: u8) -> u32 {
    (b0 as int * 0x100_0000 + b1 as int * 0x1_0000 + b2 as int * 0x100 + b3 as int) as u32
}

/// The unsigned value of eight big-endian bytes.
pub open spec fn be64(b0: u8, b1: u8, b2: u8, b3: u8, b4: u8, b5: u8, b6: u8, b7: u8) -> u64 {
    (b0 as int * 0x100_0000_0000_0000
        + b1 as int * 0x1_0000_0000_0000
        + b2 as int * 0x100_0000_0000
        + b3 as int * 0x1_0000_0000
        + b4 as int * 0x100_0000
        + b5 as int * 0x1_0000
        + b6 as int * 0x100
        + b7 as int) as u64
}

/// The two's-complement reading of a 32-bit pattern.
pub open spec fn i32_of_bits(u: u32) -> i32 {
    if u < 0x8000_0000 {
        u as i32
    } else {
        (u as int - 0x1_0000_0000) as i32
    }
}

/// The two's-complement reading of a 64-bit pattern.
pub open spec fn i64_of_bits(u: u64) -> i64 {
    if u < 0x8000_0000_0000_0000 {
        u as i64
    } else {
        (u as int - 0x1_0000_0000_0000_0000) as i64
    }
}

/// Mirror of `read_u8`.
pub open spec fn sp_u8(s: Seq<u8>, i: int) -> Result<(u8, int), SpecError> {
    if i + 1 <= s.len() {
        Result::Ok((s[i], i + 1))
    } else {
        Result::Err(sp_eof(i, 1, s.len() as int))
    }
}

/// Mirror of `read_u16`.
pub open spec fn sp_u16(s: Seq<u8>, i: int) -> Result<(u16, int), SpecError> {
    if i + 2 <= s.len() {
        Result::Ok((be16(s[i], s[i + 1]), i + 2))
    } else {
        Result::Err(sp_eof(i, 2, s.len() as int))
    }
}

/// Mirror of `read_u32`.
pub open spec fn sp_u32(s: Seq<u8>, i: int) -> Result<(u32, int), SpecError> {
    if i + 4 <= s.len() {
        Result::Ok((be32(s[i], s[i + 1], s[i + 2], s[i + 3]), i + 4))
    } else {
        Result::Err(sp_eof(i, 4, s.len() as int))
    }
}

/// Mirror of `read_u64`.
pub open spec fn sp_u64(s: Seq<u8>, i: int) -> Result<(u64, int), SpecError> {
    if i + 8 <= s.len() {
        Result::Ok(
            (
                be64(s[i], s[i + 1], s[i + 2], s[i + 3], s[i + 4], s[i + 5], s[i + 6], s[i + 7]),
                i + 8,
            ),
        )
    } else {
        Result::Err(sp_eof(i, 8, s.len() as int))
    }
}

/// Mirror of `read_i32`.
pub open spec fn sp_i32(s: Seq<u8>, i: int) -> Result<(i32, int), SpecError> {
    match sp_u32(s, i) {
        Result::Ok((u, j)) => Result::Ok((i32_of_bits(u), j)),
        Result::Err(e) => Result::Err(e),
    }
}

/// Mirror of `read_i64`.
pub open spec fn sp_i64(s: Seq<u8>, i: int) -> Result<(i64, int), SpecError> {
    match sp_u64(s, i) {
        Result::Ok((u, j)) => Result::Ok((i64_of_bits(u), j)),
        Result::Err(e) => Result::Err(e),
    }
}

/// Mirror of `read_bytes`: a copied run of exactly `n` bytes.
pub open spec fn sp_bytes(s: Seq<u8>, i: int, n: int) -> Result<(Seq<u8>, int), SpecError> {
    if i + n <= s.len() {
        Result::Ok((s.subrange(i, i + n), i + n))
    } else {
        Result::Err(sp_eof(i, n, s.len() as int))
    }
}

/// Read one byte.
pub fn read_u8(s: &[u8], pos: usize) -> (r: Result<(u8, usize), ClassError>)
    requires
        pos <= s@.len(),
    ensures
        res_eq(r, sp_u8(s@, pos as int)),
{
    if pos < s.len() {
        Ok((s[pos], pos + 1))
    } else {
        Err(ClassError::UnexpectedEof { at: pos, need: 1, have: s.len() - pos })
    }
}

/// Read a 16-bit big-endian unsigned integer.
pub fn read_u16(s: &[u8], pos: usize) -> (r: Result<(u16, usize), ClassError>)
    requires
        pos <= s@.len(),
    ensures
        res_eq(r, sp_u16(s@, pos as int)),
{
    if s.len() - pos >= 2 {
        let v: u16 = (s[pos] as u16) * 0x100 + (s[pos + 1] as u16);
        Ok((v, pos + 2))
    } else {
        Err(ClassError::UnexpectedEof { at: pos, need: 2, have: s.len() - pos })
    }
}

/// Read a 32-bit big-endian unsigned integer.
pub fn read_u32(s: &[u8], pos: usize) -> (r: Result<(u32, usize), ClassError>)
    requires
        pos <= s@.len(),
    ensures
        res_eq(r, sp_u32(s@, pos as int)),
{
    if s.len() - pos >= 4 {
        let v: u32 = (s[pos] as u32) * 0x100_0000 + (s[pos + 1] as u32) * 0x1_0000 + (s[pos + 2]
            as u32) * 0x100 + (s[pos + 3] as u32);
        Ok((v, pos + 4))
    } else {
        Err(ClassError::UnexpectedEof { at: pos, need: 4, have: s.len() - pos })
    }
}

/// Read a 64-bit big-endian unsigned integer.
pub fn read_u64(s: &[u8], pos: usize) -> (r: Result<(u64, usize), ClassError>)
    requires
        pos <= s@.len(),
    ensures
        res_eq(r, sp_u64(s@, pos as int)),
{
    if s.len() - pos >= 8 {
        let v: u64 = (s[pos] as u64) * 0x100_0000_0000_0000 + (s[pos + 1] as u64)
            * 0x1_0000_0000_0000 + (s[pos + 2] as u64) * 0x100_0000_0000 + (s[pos + 3] as u64)
            * 0x1_0000_0000 + (s[pos + 4] as u64) * 0x100_0000 + (s[pos + 5] as u64) * 0x1_0000 + (
        s[pos + 6] as u64) * 0x100 + (s[pos + 7] as u64);
        Ok((v, pos + 8))
    } else {
        Err(ClassError::UnexpectedEof { at: pos, need: 8, have: s.len() - pos })
    }
}

/// Read a 32-bit big-endian two's-complement integer.
pub fn read_i32(s: &[u8], pos: usize) -> (r: Result<(i32, usize), ClassError>)
    requires
        pos <= s@.len(),
    ensures
        res_eq(r, sp_i32(s@, pos as int)),
{
    match read_u32(s, pos) {
        Ok((u, p)) => {
            let v: i32 = if u < 0x8000_0000 {
                u as i32
            } else {
                ((u as i64) - 0x1_0000_0000i64) as i32
            };
            Ok((v, p))
        },
        Err(e) => Err(e),
    }
}

/// Read a 64-bit big-endian two's-complement integer.
pub fn read_i64(s: &[u8], pos: usize) -> (r: Result<(i64, usize), ClassError>)
    requires
        pos <= s@.len(),
    ensures
        res_eq(r, sp_i64(s@, pos as int)),
{
    match read_u64(s, pos) {
        Ok((u, p)) => {
            let v: i64 = if u < 0x8000_0000_0000_0000 {
                u as i64
            } else {
                ((u as i128) - 0x1_0000_0000_0000_0000i128) as i64
            };
            Ok((v, p))
        },
        Err(e) => Err(e),
    }
}

/// Read and copy a run of exactly `n` bytes.
pub fn read_bytes(s: &[u8], pos: usize, n: usize) -> (r: Result<(Vec<u8>, usize), ClassError>)
    requires
        pos <= s@.len(),
    ensures
        res_eq(r, sp_bytes(s@, pos as int, n as int)),
{
    if s.len() - pos >= n {
        let mut v: Vec<u8> = Vec::new();
        let mut k: usize = 0;
        while k < n
            invariant
                k <= n,
                pos + n <= s@.len(),
                v@ == s@.subrange(pos as int, pos + k),
            decreases n - k,
        {
            v.push(s[pos + k]);
            k = k + 1;
            assert(v@ =~= s@.subrange(pos as int, pos + k));
        }
        assert(v.deep_view() =~= v@);
        Ok((v, pos + n))
    } else {
        Err(ClassError::UnexpectedEof { at: pos, need: n, have: s.len() - pos })
    }
}

/// Relates an executable promotion result (which returns no position) to
/// its mathematical mirror.
pub open spec fn res_eq_nopos<T: DeepView>(
    r: Result<T, ClassError>,
    m: Result<T::V, SpecError>,
) -> bool {
    match (r, m) {
        (Result::Ok(v), Result::Ok(mv)) => v.deep_view() == mv,
        (Result::Err(e), Result::Err(me)) => e.deep_view() == me,
        _ => false,
    }
}

/// A successful parse lands between its start position and the end of the
/// buffer; a failed one makes no claim.
pub open spec fn advances<T>(r: Result<(T, usize), ClassError>, pos: usize, len: int) -> bool {
    match r {
        Result::Ok((v, q)) => pos <= q <= len,
        Result::Err(e) => true,
    }
}

/// Mirror of `read_u16_list`: `n` consecutive big-endian 16-bit integers.
pub open spec fn sp_u16_list(s: Seq<u8>, i: int, n: int) -> Result<(Seq<u16>, int), SpecError>
    decreases n,
{
    if n <= 0 {
        Result::Ok((Seq::empty(), i))
    } else {
        match sp_u16(s, i) {
            Result::Err(e) => Result::Err(e),
            Result::Ok((v, j)) => match sp_u16_list(s, j, n - 1) {
                Result::Err(e) => Result::Err(e),
                Result::Ok((vs, k)) => Result::Ok((seq![v] + vs, k)),
            },
        }
    }
}

/// Read `n` consecutive big-endian 16-bit integers.
pub fn read_u16_list(s: &[u8], pos: usize, n: usize) -> (r: Result<(Vec<u16>, usize), ClassError>)
    requires
        pos <= s@.len(),
    ensures
        res_eq(r, sp_u16_list(s@, pos as int, n as int)),
        advances(r, pos, s@.len() as int),
{
    let mut acc: Vec<u16> = Vec::new();
    let mut k: usize = 0;
    let mut p: usize = pos;
    loop
        invariant
            k <= n,
            pos <= p <= s@.len(),
            sp_u16_list(s@, pos as int, n as int) == (match sp_u16_list(s@, p as int, n - k) {
                Result::Ok((vs, m)) => Result::<(Seq<u16>, int), SpecError>::Ok(
                    (acc.deep_view() + vs, m),
                ),
                Result::Err(e) => Result::Err(e),
            }),
        decreases n - k,
    {
        if k == n {
            assert(acc.deep_view() + Seq::<u16>::empty() =~= acc.deep_view());
            return Ok((acc, p));
        }
        let (v, j) = match read_u16(s, p) {
            Ok(t) => t,
            Err(e) => {
                return Err(e);
            },
        };
        let ghost prev = acc.deep_view();
        acc.push(v);
        assert(acc.deep_view() =~= prev.push(v));
        proof {
            match sp_u16_list(s@, j as int, n - k - 1) {
                Result::Ok((vs2, m2)) => {
                    assert(sp_u16_list(s@, p as int, n - k) == Result::<
                        (Seq<u16>, int),
                        SpecError,
                    >::Ok((seq![v] + vs2, m2)));
                    assert(prev + (seq![v] + vs2) =~= prev.push(v) + vs2);
                },
                Result::Err(e2) => {
                    assert(sp_u16_list(s@, p as int, n - k) == Result::<
                        (Seq<u16>, int),
                        SpecError,
                    >::Err(e2));
                },
            }
        }
        p = j;
        k = k + 1;
    }
}

/// Compare two byte runs for equality.
pub fn bytes_eq(a: &[u8], b: &[u8]) -> (r: bool)
    ensures
        r == (a@ == b@),
{
    if a.len() != b.len() {
        return false;
    }
    let n = a.len();
    let mut k: usize = 0;
    while k < n
        invariant
            k <= n,
            n == a@.len(),
            n == b@.len(),
            forall|t: int| 0 <= t < k ==> a@[t] == b@[t],
        decreases n - k,
    {
        if a[k] != b[k] {
            return false;
        }
        k = k + 1;
    }
    assert(a@ =~= b@);
    true
}

} // verus!
