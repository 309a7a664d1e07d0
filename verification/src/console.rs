//! The capture stop condition: console bytes are consumed one at a time
//! and recording ends on the first carriage return (byte 13). Every other
//! byte is ignored and reading continues.

use vstd::prelude::*;

verus! {

/// The sentinel that ends a recording.
pub const STOP_BYTE: u8 = 13;

/// Decide, for one console byte, whether recording stops. Only the
/// carriage return stops it.
pub fn is_stop_byte(b: u8) -> (r: bool)
    ensures
        r == (b == STOP_BYTE),
{
    b == STOP_BYTE
}

/// Where a run of console bytes stops the recording: the index of the
/// first carriage return, if one ever arrives. Bytes before it are all
/// ignored; a run without one never stops.
pub fn stop_position(bytes: &Vec<u8>) -> (r: Option<usize>)
    ensures
        r matches Some(i) ==> i < bytes@.len() && bytes@[i as int] == STOP_BYTE && (forall|j: int|
            0 <= j < i ==> bytes@[j] != STOP_BYTE),
        r is None ==> forall|j: int| 0 <= j < bytes@.len() ==> bytes@[j] != STOP_BYTE,
{
    let mut i: usize = 0;
    while i < bytes.len()
        invariant
            i <= bytes@.len(),
            forall|j: int| 0 <= j < i ==> bytes@[j] != STOP_BYTE,
        decreases bytes@.len() - i,
    {
        if is_stop_byte(bytes[i]) {
            return Some(i);
        }
        i += 1;
    }
    None
}

} // verus!
