//! Bounds of EEPROM accesses.
use vstd::prelude::*;

verus! {

#[derive(Clone, Copy, Debug, PartialEq, Eq, Structural)]
pub enum EepromError {
    /// The access reaches past the end of the EEPROM.
    OutOfRange,
}

/// Checks that `len` bytes from `offset` lie within an EEPROM of `capacity` bytes.
pub fn check_eeprom_range(offset: u32, len: usize, capacity: usize) -> (r: Result<(), EepromError>)
    ensures
        r is Ok <==> offset + len <= capacity,
        r matches Err(e) ==> e == EepromError::OutOfRange,
{
    if offset as usize > capacity || len > capacity - offset as usize {
        Err(EepromError::OutOfRange)
    } else {
        Ok(())
    }
}

} // verus!
