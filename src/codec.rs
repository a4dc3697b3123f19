use byteorder::{ByteOrder, LittleEndian};
use vstd::prelude::*;

use crate::dlc::{dlc_size, CanDlc};
use crate::error::ProtocolError;

verus! {

/// Identifiers carry eleven significant bits.
pub const ID_MASK: u16 = 0x07FF;

/// Bytes taken by the frame header on the wire.
pub const HEADER_LEN: usize = 2;

/// A decoded frame: an 11-bit identifier, a data length code, and exactly as
/// many payload bytes as that code names.
#[derive(Debug, Clone, PartialEq, Eq)]
pub struct CanFrame {
    pub id: u16,
    pub dlc: CanDlc,
    pub data: Vec<u8>,
}

impl CanFrame {
    pub open spec fn wf(&self) -> bool {
        &&& self.id < 2048
        &&& self.data@.len() == self.dlc.size_spec()
    }
}

/// The identifier and data length code read from a frame header.
#[derive(Debug, Clone, Copy, PartialEq, Eq, Structural)]
pub struct FrameHeader {
    pub id: u16,
    pub dlc: CanDlc,
}

/// Value of the 16-bit header: the data length index above eleven bits of
/// identifier.
pub open spec fn header_value(id: int, dlc: CanDlc) -> int {
    dlc.index_spec() * 2048 + id % 2048
}

/// Little-endian value of the first two bytes.
pub open spec fn le16(b: Seq<u8>) -> int {
    b[0] + 256 * b[1]
}

/// Wire form of a frame: the little-endian header followed by the payload.
pub open spec fn encoded_frame(id: int, dlc: CanDlc, data: Seq<u8>) -> Seq<u8> {
    let h = header_value(id, dlc);
    seq![(h % 256) as u8, (h / 256) as u8] + data
}

/// What a header of two bytes says: the identifier and data length code, or
/// why there is none.
pub open spec fn decoded_header(bytes: Seq<u8>) -> Result<FrameHeader, ProtocolError> {
    if bytes.len() < 2 {
        Err(ProtocolError::PayloadTruncated)
    } else if le16(bytes) / 2048 >= 16 {
        Err(ProtocolError::InvalidDlcIndex)
    } else {
        Ok(
            FrameHeader {
                id: (le16(bytes) % 2048) as u16,
                dlc: CanDlc::from_index_spec(le16(bytes) / 2048),
            },
        )
    }
}

/// The frame at the start of `bytes`, as identifier, data length code and
/// payload, or why there is none.
pub open spec fn decoded_frame(bytes: Seq<u8>) -> Result<(u16, CanDlc, Seq<u8>), ProtocolError> {
    match decoded_header(bytes) {
        Err(e) => Err(e),
        Ok(h) => if bytes.len() < 2 + h.dlc.size_spec() {
            Err(ProtocolError::PayloadTruncated)
        } else {
            Ok((h.id, h.dlc, bytes.subrange(2, 2 + h.dlc.size_spec())))
        },
    }
}

/// Relies on byteorder's `LittleEndian::read_u16`: the first two bytes, low
/// byte first. It panics on fewer than two bytes.
#[verifier::external_body]
pub(crate) fn read_le_u16(buf: &[u8]) -> (r: u16)
    requires
        buf@.len() >= 2,
    ensures
        r == le16(buf@),
{
    LittleEndian::read_u16(buf)
}

/// Relies on byteorder's `LittleEndian::write_u16`: writes `n` as two bytes,
/// low byte first.
#[verifier::external_body]
fn write_le_u16(n: u16) -> (r: (u8, u8))
    ensures
        r.0 == n % 256,
        r.1 == n / 256,
{
    let mut b = [0u8; 2];
    LittleEndian::write_u16(&mut b, n);
    (b[0], b[1])
}

/// Appends `src` to `dst`.
fn push_all(dst: &mut Vec<u8>, src: &[u8])
    ensures
        final(dst)@ == old(dst)@ + src@,
{
    let ghost start = dst@;
    let mut i: usize = 0;
    while i < src.len()
        invariant
            i <= src@.len(),
            dst@ == start + src@.subrange(0, i as int),
        decreases src@.len() - i,
    {
        dst.push(src[i]);
        i = i + 1;
        assert(dst@ =~= start + src@.subrange(0, i as int));
    }
    assert(src@.subrange(0, i as int) =~= src@);
}

/// The 16-bit header of a frame with identifier `id` (masked to eleven bits)
/// and data length code `dlc`.
pub fn frame_header(id: u16, dlc: CanDlc) -> (r: u16)
    ensures
        r == header_value(id as int, dlc),
{
    let index = dlc.index() as u16;
    let r: u16 = (index << 11) | (id & ID_MASK);
    assert((index << 11) | (id & 0x07FF) == index * 2048 + id % 2048) by (bit_vector)
        requires
            index < 16,
    ;
    r
}

/// Wire bytes of a frame: the little-endian header, then `data` verbatim.
/// Fails with `PayloadLengthMismatch` unless `data` holds exactly the bytes
/// that `dlc` names.
pub fn encode_frame(id: u16, data: &[u8], dlc: CanDlc) -> (r: Result<Vec<u8>, ProtocolError>)
    ensures
        data@.len() == dlc.size_spec() ==> (r matches Ok(v) && v@ == encoded_frame(
            id as int,
            dlc,
            data@,
        )),
        data@.len() != dlc.size_spec() ==> r == Err::<Vec<u8>, ProtocolError>(
            ProtocolError::PayloadLengthMismatch,
        ),
{
    if data.len() != dlc.size() {
        return Err(ProtocolError::PayloadLengthMismatch);
    }
    let header = frame_header(id, dlc);
    let (lo, hi) = write_le_u16(header);
    let mut buf: Vec<u8> = Vec::with_capacity(HEADER_LEN + data.len());
    buf.push(lo);
    buf.push(hi);
    push_all(&mut buf, data);
    assert(buf@ =~= encoded_frame(id as int, dlc, data@));
    Ok(buf)
}

/// Reads a frame header from the first two bytes of `bytes`.
pub fn parse_header(bytes: &[u8]) -> (r: Result<FrameHeader, ProtocolError>)
    ensures
        r == decoded_header(bytes@),
{
    if bytes.len() < HEADER_LEN {
        return Err(ProtocolError::PayloadTruncated);
    }
    let header = read_le_u16(bytes);
    let id = header & ID_MASK;
    let index = header >> 11;
    assert(header & 0x07FF == header % 2048 && header >> 11 == header / 2048) by (bit_vector);
    match CanDlc::from_index(index) {
        Some(dlc) => Ok(FrameHeader { id, dlc }),
        None => Err(ProtocolError::InvalidDlcIndex),
    }
}

/// Reads one frame from the start of `bytes`, and the number of bytes it took.
pub fn decode_frame(bytes: &[u8]) -> (r: Result<(CanFrame, usize), ProtocolError>)
    ensures
        match r {
            Ok((f, n)) => {
                &&& decoded_frame(bytes@) == Ok::<(u16, CanDlc, Seq<u8>), ProtocolError>(
                    (f.id, f.dlc, f.data@),
                )
                &&& f.wf()
                &&& n == 2 + f.data@.len()
            },
            Err(e) => decoded_frame(bytes@) == Err::<(u16, CanDlc, Seq<u8>), ProtocolError>(e),
        },
{
    let header = match parse_header(bytes) {
        Ok(h) => h,
        Err(e) => return Err(e),
    };
    let size = header.dlc.size();
    if bytes.len() - HEADER_LEN < size {
        return Err(ProtocolError::PayloadTruncated);
    }
    let end = HEADER_LEN + size;
    let mut data: Vec<u8> = Vec::with_capacity(size);
    push_all(&mut data, &bytes[HEADER_LEN..end]);
    Ok((CanFrame { id: header.id, dlc: header.dlc, data }, end))
}

/// Decoding the wire form of a frame gives back its identifier masked to
/// eleven bits, its data length code and its payload.
pub proof fn lemma_decode_encode(id: u16, dlc: CanDlc, data: Seq<u8>)
    requires
        data.len() == dlc.size_spec(),
    ensures
        decoded_frame(encoded_frame(id as int, dlc, data)) == Ok::<
            (u16, CanDlc, Seq<u8>),
            ProtocolError,
        >(((id % 2048) as u16, dlc, data)),
        id & 0x07FF == id % 2048,
{
    assert(id & 0x07FF == id % 2048) by (bit_vector);
    let b = encoded_frame(id as int, dlc, data);
    let h = header_value(id as int, dlc);
    assert(le16(b) == h);
    assert(h / 2048 == dlc.index_spec());
    assert(h % 2048 == id % 2048);
    crate::dlc::lemma_dlc_table();
    assert(b.subrange(2, 2 + dlc.size_spec()) =~= data);
}

/// Two identifiers that agree in their low eleven bits give the same wire
/// bytes: the bits above are dropped.
pub proof fn lemma_encode_masks_id(a: u16, b: u16, dlc: CanDlc, data: Seq<u8>)
    requires
        a % 2048 == b % 2048,
    ensures
        encoded_frame(a as int, dlc, data) == encoded_frame(b as int, dlc, data),
{
}

/// Every 4-bit data length index decodes: a header that names index `index`,
/// followed by that class's number of bytes, gives a frame of that class.
pub proof fn lemma_every_index_decodes(index: int, id: u16, data: Seq<u8>)
    requires
        0 <= index < 16,
        data.len() == dlc_size(index),
    ensures
        decoded_frame(encoded_frame(id as int, CanDlc::from_index_spec(index), data)) == Ok::<
            (u16, CanDlc, Seq<u8>),
            ProtocolError,
        >(((id % 2048) as u16, CanDlc::from_index_spec(index), data)),
        CanDlc::from_index_spec(index).index_spec() == index,
{
    crate::dlc::lemma_dlc_table();
    lemma_decode_encode(id, CanDlc::from_index_spec(index), data);
}

} // verus!
