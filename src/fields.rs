use vstd::prelude::*;

use crate::codec::{le16, read_le_u16};
use crate::error::ProtocolError;

verus! {

/// Number of values in a telemetry payload.
pub const FIELD_COUNT: usize = 13;

/// Bytes of a telemetry payload: one 16-bit lead value, six 24-bit values and
/// six signed 16-bit values.
pub const PAYLOAD_LEN: usize = 32;

/// Values decoded as unsigned 24-bit before the layout turns to signed 16-bit.
pub const WIDE_FIELDS_END: usize = 7;

/// Byte offset of value `k`: the lead value takes two bytes, the next six three
/// bytes each, the rest two bytes each.
pub open spec fn field_offset(k: int) -> int {
    if k == 0 {
        0
    } else if k < 7 {
        2 + 3 * (k - 1)
    } else {
        20 + 2 * (k - 7)
    }
}

/// Unsigned 24-bit little-endian value at `at`.
pub open spec fn le24_at(b: Seq<u8>, at: int) -> int {
    b[at] + 256 * b[at + 1] + 65536 * b[at + 2]
}

/// Signed (two's complement) 16-bit little-endian value at `at`.
pub open spec fn le_i16_at(b: Seq<u8>, at: int) -> int {
    let u = b[at] + 256 * b[at + 1];
    if u >= 32768 {
        u - 65536
    } else {
        u
    }
}

/// Value `k` of a telemetry payload.
pub open spec fn field_value(b: Seq<u8>, k: int) -> int {
    if k == 0 {
        le16(b)
    } else if k < 7 {
        le24_at(b, field_offset(k))
    } else {
        le_i16_at(b, field_offset(k))
    }
}

/// Unpacks the thirteen values of a telemetry payload, reading with a cursor:
/// first an unsigned 16-bit value, then unsigned 24-bit values while fewer than
/// seven values are read, then signed 16-bit values. A payload of any length
/// but the layout's 32 bytes is `MalformedPayload`.
pub fn unpack_fields(payload: &[u8]) -> (r: Result<Vec<i32>, ProtocolError>)
    ensures
        payload@.len() != 32 ==> r == Err::<Vec<i32>, ProtocolError>(
            ProtocolError::MalformedPayload,
        ),
        payload@.len() == 32 ==> (r matches Ok(v) && v@.len() == 13 && forall|k: int|
            0 <= k < 13 ==> #[trigger] v@[k] == field_value(payload@, k)),
{
    if payload.len() != PAYLOAD_LEN {
        return Err(ProtocolError::MalformedPayload);
    }
    let mut values: Vec<i32> = Vec::with_capacity(FIELD_COUNT);
    let mut i: usize = 0;
    while values.len() < FIELD_COUNT
        invariant
            payload@.len() == 32,
            values@.len() <= 13,
            i == field_offset(values@.len() as int),
            forall|k: int| 0 <= k < values@.len() ==> #[trigger] values@[k] == field_value(payload@, k),
        decreases 13 - values@.len(),
    {
        let n = values.len();
        if n == 0 {
            let v = read_le_u16(payload) as i32;
            values.push(v);
            i = i + 2;
        } else if n < WIDE_FIELDS_END {
            let v = (payload[i] as u32) | ((payload[i + 1] as u32) << 8) | ((payload[i + 2] as u32) << 16);
            let (b0, b1, b2) = (payload[i] as u32, payload[i + 1] as u32, payload[i + 2] as u32);
            assert(b0 | (b1 << 8) | (b2 << 16) == b0 + 256 * b1 + 65536 * b2) by (bit_vector)
                requires
                    b0 < 256 && b1 < 256 && b2 < 256,
            ;
            values.push(v as i32);
            i = i + 3;
        } else {
            let u = payload[i] as i32 + 256 * (payload[i + 1] as i32);
            let v = if u >= 32768 {
                u - 65536
            } else {
                u
            };
            values.push(v);
            i = i + 2;
        }
    }
    Ok(values)
}

} // verus!
