//! Checked narrowing of host indices into the guest's 64-bit integers.
use vstd::prelude::*;

verus! {

/// Why a host record could not be turned into a guest record.
#[derive(Clone, Copy, Debug, PartialEq, Eq)]
pub enum ConversionError {
    /// A host index does not fit in the guest's 64-bit unsigned integer.
    IndexOverflow,
}

/// Whether a host index is representable as a guest `u64`.
pub open spec fn index_fits(v: int) -> bool {
    0 <= v <= u64::MAX
}

/// Narrows a host index (given at its widest, 128 bits) to a guest `u64`,
/// failing instead of wrapping when it does not fit.
pub fn narrow_index(index: u128) -> (r: Result<u64, ConversionError>)
    ensures
        index_fits(index as int) ==> r == Ok::<u64, ConversionError>(index as u64),
        !index_fits(index as int) ==> r == Err::<u64, ConversionError>(
            ConversionError::IndexOverflow,
        ),
{
    match u64::try_from(index) {
        Ok(v) => Ok(v),
        Err(_) => Err(ConversionError::IndexOverflow),
    }
}

/// Narrows a host-native index to a guest `u64`.
pub fn narrow_usize(index: usize) -> (r: Result<u64, ConversionError>)
    ensures
        index_fits(index as int) ==> r == Ok::<u64, ConversionError>(index as u64),
        !index_fits(index as int) ==> r == Err::<u64, ConversionError>(
            ConversionError::IndexOverflow,
        ),
{
    narrow_index(index as u128)
}

} // verus!
