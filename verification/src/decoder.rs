//! Decoding of heart-rate measurement notifications.

use vstd::prelude::*;

verus! {

/// The value shown when no heart rate is known.
pub const UNKNOWN: u8 = 0;

/// The heart rate carried by a notification payload.
///
/// Byte 0 is the flags field and byte 1 the rate when the flags announce the
/// 8-bit form. Only a flags byte of zero is supported: any other flags byte,
/// and any payload shorter than two bytes, gives [`UNKNOWN`].
pub open spec fn decoded(payload: Seq<u8>) -> u8 {
    if payload.len() >= 2 && payload[0] == 0 {
        payload[1]
    } else {
        UNKNOWN
    }
}

/// Decodes one notification payload; never fails, whatever the payload holds.
pub fn decode(payload: &[u8]) -> (rate: u8)
    ensures
        rate == decoded(payload@),
{
    if payload.len() >= 2 && payload[0] == 0 {
        payload[1]
    } else {
        UNKNOWN
    }
}

} // verus!
