//! An optional, stronger check over a decoded tree: every constant-pool
//! index the tree's top level holds must dereference to a pool entry of
//! the kind its context demands.
//!
//! The decoder itself retains indices as integers and resolves only the
//! attribute name indices; this check lets a caller demand more: the pool's
//! own cross-references, the class and superclass indices, the interface
//! list, and the name and descriptor of every field and method.

use vstd::prelude::*;

use crate::classfile::ClassFile;
use crate::classfile::SpecClassFile;
use crate::constantpool::ConstantPool;
use crate::constantpool::SpecConstant;
use crate::constantpool::sp_pool_get;
use crate::member::FieldInfo;
use crate::member::MethodInfo;

verus! {

broadcast use vstd::std_specs::vec::group_vec_axioms;

/// Whether external index `idx` resolves to a `UTF8` entry.
pub open spec fn targets_utf8(pool: Seq<SpecConstant>, idx: u16) -> bool {
    sp_pool_get(pool, idx) matches Result::Ok(SpecConstant::UTF8(_))
}

/// Whether external index `idx` resolves to a `Class` entry.
pub open spec fn targets_class(pool: Seq<SpecConstant>, idx: u16) -> bool {
    sp_pool_get(pool, idx) matches Result::Ok(SpecConstant::Class(_))
}

/// Whether external index `idx` resolves to a `NameAndType` entry.
pub open spec fn targets_name_and_type(pool: Seq<SpecConstant>, idx: u16) -> bool {
    sp_pool_get(pool, idx) matches Result::Ok(SpecConstant::NameAndType(_, _))
}

/// Whether external index `idx` resolves to any stored entry.
pub open spec fn targets_entry(pool: Seq<SpecConstant>, idx: u16) -> bool {
    sp_pool_get(pool, idx) is Ok
}

/// The legality of the indices inside one pool entry. A `MethodHandle`
/// target's kind depends on its reference kind, so only a valid slot is
/// demanded for it; a `Dynamic` or `InvokeDynamic` bootstrap index targets
/// the `BootstrapMethods` attribute, not the pool, and is not checked here.
pub open spec fn entry_indices_legal(pool: Seq<SpecConstant>, c: SpecConstant) -> bool {
    match c {
        SpecConstant::Class(n) => targets_utf8(pool, n),
        SpecConstant::FieldRef(cl, nt) => targets_class(pool, cl) && targets_name_and_type(
            pool,
            nt,
        ),
        SpecConstant::MethodRef(cl, nt) => targets_class(pool, cl) && targets_name_and_type(
            pool,
            nt,
        ),
        SpecConstant::InterfaceMethodRef(cl, nt) => targets_class(pool, cl)
            && targets_name_and_type(pool, nt),
        SpecConstant::String(u) => targets_utf8(pool, u),
        SpecConstant::Integer(_) => true,
        SpecConstant::Float(_) => true,
        SpecConstant::Long(_) => true,
        SpecConstant::Double(_) => true,
        SpecConstant::NameAndType(n, d) => targets_utf8(pool, n) && targets_utf8(pool, d),
        SpecConstant::UTF8(_) => true,
        SpecConstant::MethodHandle(_, r) => targets_entry(pool, r),
        SpecConstant::MethodType(d) => targets_utf8(pool, d),
        SpecConstant::Dynamic(_, nt) => targets_name_and_type(pool, nt),
        SpecConstant::InvokeDynamic(_, nt) => targets_name_and_type(pool, nt),
        SpecConstant::Module(n) => targets_utf8(pool, n),
        SpecConstant::Package(n) => targets_utf8(pool, n),
    }
}

/// The legality of every cross-reference inside the pool itself.
pub open spec fn pool_indices_legal(pool: Seq<SpecConstant>) -> bool {
    forall|k: int| 0 <= k < pool.len() ==> entry_indices_legal(pool, #[trigger] pool[k])
}

/// The legality of every pool-targeting index the shell holds: the pool's
/// own cross-references, the class and superclass (0 stands for no
/// superclass), the interfaces, and each member's name and descriptor.
pub open spec fn class_indices_legal(cf: SpecClassFile) -> bool {
    &&& pool_indices_legal(cf.constant_pool)
    &&& targets_class(cf.constant_pool, cf.this_class)
    &&& cf.super_class == 0 || targets_class(cf.constant_pool, cf.super_class)
    &&& forall|k: int|
        0 <= k < cf.interfaces.len() ==> targets_class(cf.constant_pool, #[trigger] cf.interfaces[k])
    &&& forall|k: int|
        0 <= k < cf.fields.len() ==> {
            &&& targets_utf8(cf.constant_pool, (#[trigger] cf.fields[k]).name_index)
            &&& targets_utf8(cf.constant_pool, cf.fields[k].descriptor_index)
        }
    &&& forall|k: int|
        0 <= k < cf.methods.len() ==> {
            &&& targets_utf8(cf.constant_pool, (#[trigger] cf.methods[k]).name_index)
            &&& targets_utf8(cf.constant_pool, cf.methods[k].descriptor_index)
        }
}

/// Decide whether `idx` resolves to a `UTF8` entry.
fn is_utf8_at(pool: &Vec<ConstantPool>, idx: u16) -> (r: bool)
    ensures
        r == targets_utf8(pool.deep_view(), idx),
{
    match ConstantPool::get(pool, idx) {
        Ok(c) => match c {
            ConstantPool::UTF8(_) => true,
            _ => false,
        },
        Err(_) => false,
    }
}

/// Decide whether `idx` resolves to a `Class` entry.
fn is_class_at(pool: &Vec<ConstantPool>, idx: u16) -> (r: bool)
    ensures
        r == targets_class(pool.deep_view(), idx),
{
    match ConstantPool::get(pool, idx) {
        Ok(c) => match c {
            ConstantPool::Class(_) => true,
            _ => false,
        },
        Err(_) => false,
    }
}

/// Decide whether `idx` resolves to a `NameAndType` entry.
fn is_name_and_type_at(pool: &Vec<ConstantPool>, idx: u16) -> (r: bool)
    ensures
        r == targets_name_and_type(pool.deep_view(), idx),
{
    match ConstantPool::get(pool, idx) {
        Ok(c) => match c {
            ConstantPool::NameAndType(_, _) => true,
            _ => false,
        },
        Err(_) => false,
    }
}

/// Decide whether `idx` resolves to any stored entry.
fn is_entry_at(pool: &Vec<ConstantPool>, idx: u16) -> (r: bool)
    ensures
        r == targets_entry(pool.deep_view(), idx),
{
    match ConstantPool::get(pool, idx) {
        Ok(_) => true,
        Err(_) => false,
    }
}

/// Decide the legality of the indices inside one pool entry.
fn entry_indices_ok(pool: &Vec<ConstantPool>, c: &ConstantPool) -> (r: bool)
    ensures
        r == entry_indices_legal(pool.deep_view(), c.deep_view()),
{
    match c {
        ConstantPool::Class(n) => is_utf8_at(pool, *n),
        ConstantPool::FieldRef(cl, nt) => is_class_at(pool, *cl) && is_name_and_type_at(pool, *nt),
        ConstantPool::MethodRef(cl, nt) => is_class_at(pool, *cl) && is_name_and_type_at(
            pool,
            *nt,
        ),
        ConstantPool::InterfaceMethodRef(cl, nt) => is_class_at(pool, *cl) && is_name_and_type_at(
            pool,
            *nt,
        ),
        ConstantPool::String(u) => is_utf8_at(pool, *u),
        ConstantPool::Integer(_) => true,
        ConstantPool::Float(_) => true,
        ConstantPool::Long(_) => true,
        ConstantPool::Double(_) => true,
        ConstantPool::NameAndType(n, d) => is_utf8_at(pool, *n) && is_utf8_at(pool, *d),
        ConstantPool::UTF8(_) => true,
        ConstantPool::MethodHandle(_, rx) => is_entry_at(pool, *rx),
        ConstantPool::MethodType(d) => is_utf8_at(pool, *d),
        ConstantPool::Dynamic(_, nt) => is_name_and_type_at(pool, *nt),
        ConstantPool::InvokeDynamic(_, nt) => is_name_and_type_at(pool, *nt),
        ConstantPool::Module(n) => is_utf8_at(pool, *n),
        ConstantPool::Package(n) => is_utf8_at(pool, *n),
    }
}

/// Decide the legality of every cross-reference inside the pool.
pub fn validate_pool(pool: &Vec<ConstantPool>) -> (r: bool)
    ensures
        r == pool_indices_legal(pool.deep_view()),
{
    let n = pool.len();
    let mut k: usize = 0;
    while k < n
        invariant
            k <= n,
            n == pool@.len(),
            forall|t: int|
                0 <= t < k ==> entry_indices_legal(
                    pool.deep_view(),
                    #[trigger] pool.deep_view()[t],
                ),
        decreases n - k,
    {
        let c = &pool[k];
        assert(c.deep_view() == pool.deep_view()[k as int]);
        if !entry_indices_ok(pool, c) {
            return false;
        }
        k = k + 1;
    }
    true
}

/// Decide whether every pool-targeting index the shell holds is legal for
/// its context.
pub fn validate_indices(cf: &ClassFile) -> (r: bool)
    ensures
        r == class_indices_legal(cf.deep_view()),
{
    let pool = &cf.constant_pool;
    if !validate_pool(pool) {
        return false;
    }
    if !is_class_at(pool, cf.this_class) {
        return false;
    }
    if !(cf.super_class == 0 || is_class_at(pool, cf.super_class)) {
        return false;
    }
    let ni = cf.interfaces.len();
    let mut k: usize = 0;
    while k < ni
        invariant
            k <= ni,
            ni == cf.interfaces@.len(),
            forall|t: int|
                0 <= t < k ==> targets_class(
                    cf.constant_pool.deep_view(),
                    #[trigger] cf.interfaces.deep_view()[t],
                ),
        decreases ni - k,
    {
        let ix = cf.interfaces[k];
        assert(ix == cf.interfaces.deep_view()[k as int]);
        if !is_class_at(pool, ix) {
            return false;
        }
        k = k + 1;
    }
    let nf = cf.fields.len();
    let mut k: usize = 0;
    while k < nf
        invariant
            k <= nf,
            nf == cf.fields@.len(),
            forall|t: int|
                0 <= t < k ==> {
                    &&& targets_utf8(
                        cf.constant_pool.deep_view(),
                        (#[trigger] cf.fields.deep_view()[t]).name_index,
                    )
                    &&& targets_utf8(
                        cf.constant_pool.deep_view(),
                        cf.fields.deep_view()[t].descriptor_index,
                    )
                },
        decreases nf - k,
    {
        let f: &FieldInfo = &cf.fields[k];
        assert(f.deep_view() == cf.fields.deep_view()[k as int]);
        assert(cf.deep_view().fields[k as int].name_index == f.name_index);
        assert(cf.deep_view().fields[k as int].descriptor_index == f.descriptor_index);
        if !is_utf8_at(pool, f.name_index) {
            return false;
        }
        if !is_utf8_at(pool, f.descriptor_index) {
            return false;
        }
        k = k + 1;
    }
    let nm = cf.methods.len();
    let mut k: usize = 0;
    while k < nm
        invariant
            k <= nm,
            nm == cf.methods@.len(),
            forall|t: int|
                0 <= t < k ==> {
                    &&& targets_utf8(
                        cf.constant_pool.deep_view(),
                        (#[trigger] cf.methods.deep_view()[t]).name_index,
                    )
                    &&& targets_utf8(
                        cf.constant_pool.deep_view(),
                        cf.methods.deep_view()[t].descriptor_index,
                    )
                },
        decreases nm - k,
    {
        let m: &MethodInfo = &cf.methods[k];
        assert(m.deep_view() == cf.methods.deep_view()[k as int]);
        assert(cf.deep_view().methods[k as int].name_index == m.name_index);
        assert(cf.deep_view().methods[k as int].descriptor_index == m.descriptor_index);
        if !is_utf8_at(pool, m.name_index) {
            return false;
        }
        if !is_utf8_at(pool, m.descriptor_index) {
            return false;
        }
        k = k + 1;
    }
    true
}

} // verus!
