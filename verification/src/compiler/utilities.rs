//! Small numeric helpers of the compiler.

use vstd::prelude::*;

verus! {

/// Two's-complement byte for the signed distance from `start` to `dest`,
/// when that distance fits in a signed 8-bit value; how a relative jump's
/// displacement is computed.
pub open spec fn spec_relative_delta(start: int, dest: int) -> Option<u8> {
    if -128 <= dest - start <= 127 {
        if dest >= start {
            Some((dest - start) as u8)
        } else {
            Some((256 - (start - dest)) as u8)
        }
    } else {
        None
    }
}

pub fn relative_delta(start: usize, dest: usize) -> (r: Option<u8>)
    ensures
        r == spec_relative_delta(start as int, dest as int),
{
    if dest >= start {
        let d = dest - start;
        if d > 127 {
            None
        } else {
            Some(d as u8)
        }
    } else {
        let d = start - dest;
        if d > 128 {
            None
        } else {
            Some((256 - d) as u8)
        }
    }
}

} // verus!
