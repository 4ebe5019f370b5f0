//! Volatile register cells.
//!
//! Every hardware register in this model is held in a `volatile::Volatile`
//! cell, read and written only through the trusted accessors below. The
//! uninterpreted functions `vol_u8` and `vol_u32` name the value a cell
//! holds; the accessors' contracts relate reads and writes to that value.

use vstd::prelude::*;
use volatile::Volatile;

verus! {

#[verifier::external_type_specification]
#[verifier::external_body]
#[verifier::reject_recursive_types(T)]
pub struct ExVolatile<T: Copy>(Volatile<T>);

/// The byte a volatile cell holds: what the next read of it returns.
pub uninterp spec fn vol_u8(v: Volatile<u8>) -> u8;

/// The word a volatile cell holds: what the next read of it returns.
pub uninterp spec fn vol_u32(v: Volatile<u32>) -> u32;

/// Relies on `volatile::Volatile::new`: the cell holds the given value.
#[verifier::external_body]
pub(crate) fn vol_u8_new(value: u8) -> (r: Volatile<u8>)
    ensures
        vol_u8(r) == value,
{
    Volatile::new(value)
}

/// Relies on `volatile::Volatile::read`: returns the held value.
#[verifier::external_body]
pub(crate) fn vol_u8_read(v: &Volatile<u8>) -> (r: u8)
    ensures
        r == vol_u8(*v),
{
    v.read()
}

/// Relies on `volatile::Volatile::write`: replaces the held value.
#[verifier::external_body]
pub(crate) fn vol_u8_write(v: &mut Volatile<u8>, value: u8)
    ensures
        vol_u8(*final(v)) == value,
{
    v.write(value)
}

/// Relies on `volatile::Volatile::new`: the cell holds the given value.
#[verifier::external_body]
pub(crate) fn vol_u32_new(value: u32) -> (r: Volatile<u32>)
    ensures
        vol_u32(r) == value,
{
    Volatile::new(value)
}

/// Relies on `volatile::Volatile::read`: returns the held value.
#[verifier::external_body]
pub(crate) fn vol_u32_read(v: &Volatile<u32>) -> (r: u32)
    ensures
        r == vol_u32(*v),
{
    v.read()
}

/// Relies on `volatile::Volatile::write`: replaces the held value.
#[verifier::external_body]
pub(crate) fn vol_u32_write(v: &mut Volatile<u32>, value: u32)
    ensures
        vol_u32(*final(v)) == value,
{
    v.write(value)
}

} // verus!
