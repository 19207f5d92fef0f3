//! Packet codec for the device-announcement protocol.
//!
//! A frame is a byte sequence with header byte `0xA5` at offset 0 and a
//! length byte at offset 1. The length byte plus 2 bounds the meaningful
//! span of the frame; anything beyond that span is ignored padding. The
//! last 4 bytes of the span hold a big-endian CRC-32 (IEEE polynomial) of
//! the bytes of the span that precede them.

use vstd::prelude::*;

verus! {

/// What a whole discovery run reports when it fails outright.
#[allow(non_camel_case_types)]
#[derive(Debug, PartialEq, Eq, Structural, Clone, Copy)]
pub enum device_error {
    could_not_setup_devices,
    could_not_send_setup_command,
    could_not_unserialize_device_packet,
    could_not_recieve_device_packet,
}

/// What the codec reports when a received buffer cannot be decoded.
#[allow(non_camel_case_types)]
#[derive(Debug, PartialEq, Eq, Structural)]
pub enum data_recieve_error {
    protocol_error,
    could_not_recieve_data,
    possible_corrupted_data,
    empty_buffer,
    mismatch_checksum,
}

/// Checksum validation failure.
#[allow(non_camel_case_types)]
#[derive(Debug, PartialEq, Eq, Structural)]
pub enum checksum_error {
    mismatch,
}

/// Power state carried by a device record. The wire format of this protocol
/// version encodes no off-state: every decoded device reports `on`.
#[allow(non_camel_case_types)]
#[derive(Debug, PartialEq, Eq, Structural, Clone, Copy)]
pub enum Status {
    on,
    off,
}

/// A device discovered on the network, extracted from a validated frame.
#[derive(Debug, PartialEq, Eq, Structural, Clone, Copy)]
pub struct Device {
    pub device_id: u8,
    pub status: Status,
}

/// The CRC-32 (IEEE polynomial) of a byte sequence. The digest is a function
/// of the bytes alone; its trusted wrapper is `get_checksum`.
pub uninterp spec fn crc32_of(bytes: Seq<u8>) -> u32;

/// Relies on `crc::Crc::<u32>::checksum` with the `CRC_32_ISO_HDLC` algorithm
/// (the IEEE CRC-32): the digest depends on the bytes alone.
#[verifier::external_body]
pub fn get_checksum(bytes: &[u8]) -> (r: u32)
    ensures
        r == crc32_of(bytes@),
{
    crc::Crc::<u32>::new(&crc::CRC_32_ISO_HDLC).checksum(bytes)
}

/// Four bytes read as a big-endian 32-bit value.
pub open spec fn be32(b3: u8, b2: u8, b1: u8, b0: u8) -> u32 {
    ((b3 as u32) << 24) | ((b2 as u32) << 16) | ((b1 as u32) << 8) | (b0 as u32)
}

/// The length of the meaningful span of a frame, as declared by its byte at
/// offset 1: that byte plus the 2 leading header bytes.
pub open spec fn span_len(buffer: Seq<u8>) -> int
    recommends
        buffer.len() >= 2,
{
    buffer[1] + 2
}

/// Whether the declared span lies within the buffer and is long enough to
/// hold a 4-byte checksum trailer. Validation also demands more than 4 bytes
/// in the buffer as a whole.
pub open spec fn span_fits(buffer: Seq<u8>) -> bool {
    &&& buffer.len() > 4
    &&& 4 <= span_len(buffer) <= buffer.len()
}

/// The bytes the checksum covers: the declared span minus its 4-byte trailer.
pub open spec fn covered_bytes(buffer: Seq<u8>) -> Seq<u8>
    recommends
        span_fits(buffer),
{
    buffer.subrange(0, span_len(buffer) - 4)
}

/// The trailer of the declared span, read as a big-endian 32-bit checksum.
pub open spec fn trailer_value(buffer: Seq<u8>) -> u32
    recommends
        span_fits(buffer),
{
    be32(
        buffer[span_len(buffer) - 4],
        buffer[span_len(buffer) - 3],
        buffer[span_len(buffer) - 2],
        buffer[span_len(buffer) - 1],
    )
}

/// A frame passes checksum validation exactly when its declared span fits
/// and the trailer equals the CRC-32 of the covered bytes.
pub open spec fn checksum_matches(buffer: Seq<u8>) -> bool {
    &&& span_fits(buffer)
    &&& trailer_value(buffer) == crc32_of(covered_bytes(buffer))
}

/// Validates the checksum trailer of a received frame.
///
/// Succeeds exactly on buffers whose declared span fits and whose trailer
/// is the CRC-32 of the covered bytes; trailing padding beyond the declared
/// span never takes part. A buffer whose declared span does not fit inside
/// it, or is too short for a trailer, is rejected as a mismatch.
pub fn validate_checksum(buffer: &[u8]) -> (r: Result<(), checksum_error>)
    ensures
        r is Ok <==> checksum_matches(buffer@),
        r is Err ==> r == Err::<(), checksum_error>(checksum_error::mismatch),
{
    let n = buffer.len();
    if n > 4 {
        let declared: usize = (*vstd::slice::slice_index_get(buffer, 1) as usize) + 2;
        if 4 <= declared && declared <= n {
            let covered = vstd::slice::slice_subrange(buffer, 0, declared - 4);
            let computed = get_checksum(covered);
            let t3 = *vstd::slice::slice_index_get(buffer, declared - 4);
            let t2 = *vstd::slice::slice_index_get(buffer, declared - 3);
            let t1 = *vstd::slice::slice_index_get(buffer, declared - 2);
            let t0 = *vstd::slice::slice_index_get(buffer, declared - 1);
            let trailer = ((t3 as u32) << 24) | ((t2 as u32) << 16) | ((t1 as u32) << 8) | (
            t0 as u32);
            if trailer == computed {
                Ok(())
            } else {
                Err(checksum_error::mismatch)
            }
        } else {
            Err(checksum_error::mismatch)
        }
    } else {
        Err(checksum_error::mismatch)
    }
}

/// What `get_device_from_bytes` returns for a given buffer: the decision
/// chain of the decoder, from emptiness through header, checksum and length
/// checks to the extracted device.
pub open spec fn spec_decode(buffer: Seq<u8>) -> Result<Device, data_recieve_error> {
    if buffer.len() == 0 {
        Err(data_recieve_error::empty_buffer)
    } else if buffer[0] != 165 {
        Err(data_recieve_error::protocol_error)
    } else if !checksum_matches(buffer) {
        Err(data_recieve_error::mismatch_checksum)
    } else if buffer.len() <= 2 {
        Err(data_recieve_error::possible_corrupted_data)
    } else {
        Ok(Device { device_id: buffer[2], status: Status::on })
    }
}

/// Extracts the device record from a buffer that passed checksum validation:
/// the device id sits at offset 2. Fails only on buffers too short to hold it.
pub fn create_buffer_from_device(buffer: &[u8]) -> (r: Option<Device>)
    ensures
        buffer@.len() > 2 ==> r == Some(
            Device { device_id: buffer@[2], status: Status::on },
        ),
        buffer@.len() <= 2 ==> r is None,
{
    if buffer.len() > 2 {
        Some(Device { device_id: *vstd::slice::slice_index_get(buffer, 2), status: Status::on })
    } else {
        None
    }
}

/// Decodes a received buffer into a device record, or reports exactly why it
/// cannot: `empty_buffer` on no bytes, `protocol_error` on a wrong header
/// byte, `mismatch_checksum` on a failed trailer check, and
/// `possible_corrupted_data` on a buffer too short to carry a device id.
pub fn get_device_from_bytes(buffer: &[u8]) -> (r: Result<Device, data_recieve_error>)
    ensures
        r == spec_decode(buffer@),
{
    if buffer.len() == 0 {
        Err(data_recieve_error::empty_buffer)
    } else {
        let first = *vstd::slice::slice_index_get(buffer, 0);
        if first == 165 {
            match validate_checksum(buffer) {
                Ok(()) => match create_buffer_from_device(buffer) {
                    Some(device) => Ok(device),
                    None => Err(data_recieve_error::possible_corrupted_data),
                },
                Err(_) => Err(data_recieve_error::mismatch_checksum),
            }
        } else {
            Err(data_recieve_error::protocol_error)
        }
    }
}

/// Relies on `time::OffsetDateTime::now_utc` and its `hour`, `minute` and
/// `second` accessors, whose documentation bounds them by 24, 60 and 60.
/// The clock decides the values; nothing more is assumed of them.
#[verifier::external_body]
fn current_hms() -> (r: (u8, u8, u8))
    ensures
        r.0 < 24,
        r.1 < 60,
        r.2 < 60,
{
    let now = time::OffsetDateTime::now_utc();
    (now.hour(), now.minute(), now.second())
}

/// Builds the 11-byte discovery broadcast frame for a given time of day:
/// header `0xA5`, command byte 9, two reserved zeros, hour, minute, second,
/// then a big-endian CRC-32 of those 7 bytes — except that the last checksum
/// byte is the checksum OR'ed with `0xFF` and truncated, so it is always
/// `0xFF`. That quirk is part of the wire protocol and is kept as it stands.
pub fn build_discovery_frame(hour: u8, minute: u8, second: u8) -> (frame: Vec<u8>)
    ensures
        frame@.len() == 11,
        frame@[0] == 165,
        frame@[1] == 9,
        frame@[2] == 0,
        frame@[3] == 0,
        frame@[4] == hour,
        frame@[5] == minute,
        frame@[6] == second,
        frame@[7] as u32 == crc32_of(frame@.subrange(0, 7)) >> 24,
        frame@[8] as u32 == (crc32_of(frame@.subrange(0, 7)) >> 16) & 0xff,
        frame@[9] as u32 == (crc32_of(frame@.subrange(0, 7)) >> 8) & 0xff,
        frame@[10] == 255,
{
    let mut frame: Vec<u8> = Vec::new();
    frame.push(165);
    frame.push(9);
    frame.push(0);
    frame.push(0);
    frame.push(hour);
    frame.push(minute);
    frame.push(second);
    let checksum = get_checksum(frame.as_slice());
    let ghost head = frame@;
    assert(checksum >> 24 < 256) by (bit_vector);
    let b3: u8 = (checksum >> 24) as u8;
    let b2: u8 = #[verifier::truncate] ((checksum >> 16) as u8);
    let b1: u8 = #[verifier::truncate] ((checksum >> 8) as u8);
    let b0: u8 = #[verifier::truncate] ((checksum | 0x00ff) as u8);
    frame.push(b3);
    frame.push(b2);
    frame.push(b1);
    frame.push(b0);
    proof {
        assert(frame@.subrange(0, 7) =~= head);
        assert(((checksum >> 24) as u8) as u32 == checksum >> 24) by (bit_vector);
        assert(((checksum >> 16) as u8) as u32 == (checksum >> 16) & 0xff) by (bit_vector);
        assert(((checksum >> 8) as u8) as u32 == (checksum >> 8) & 0xff) by (bit_vector);
        assert(((checksum | 0x00ff) as u8) == 255) by (bit_vector);
    }
    frame
}

/// Builds the discovery broadcast frame for the current time of day, as
/// `build_discovery_frame` describes it.
pub fn set_up_command_broadcast() -> (frame: Vec<u8>)
    ensures
        frame@.len() == 11,
        frame@[0] == 165,
        frame@[1] == 9,
        frame@[2] == 0,
        frame@[3] == 0,
        frame@[4] < 24,
        frame@[5] < 60,
        frame@[6] < 60,
        frame@[7] as u32 == crc32_of(frame@.subrange(0, 7)) >> 24,
        frame@[8] as u32 == (crc32_of(frame@.subrange(0, 7)) >> 16) & 0xff,
        frame@[9] as u32 == (crc32_of(frame@.subrange(0, 7)) >> 8) & 0xff,
        frame@[10] == 255,
{
    let hms = current_hms();
    build_discovery_frame(hms.0, hms.1, hms.2)
}

/// A 32-bit checksum split into 4 bytes, most significant first.
pub open spec fn be_bytes(c: u32) -> Seq<u8> {
    seq![
        ((c >> 24) & 0xff) as u8,
        ((c >> 16) & 0xff) as u8,
        ((c >> 8) & 0xff) as u8,
        (c & 0xff) as u8,
    ]
}

/// A body followed by the big-endian CRC-32 of that body: the well-formed
/// frame shape whose declared span covers body and trailer exactly.
pub open spec fn framed(body: Seq<u8>) -> Seq<u8> {
    body + be_bytes(crc32_of(body))
}

/// Checksum validation never looks past the declared span: padding appended
/// to a buffer whose span fits leaves the verdict unchanged.
pub proof fn lemma_padding_irrelevant(buffer: Seq<u8>, pad: Seq<u8>)
    requires
        span_fits(buffer),
    ensures
        checksum_matches(buffer + pad) == checksum_matches(buffer),
{
    let whole = buffer + pad;
    assert(whole[1] == buffer[1]);
    assert(span_fits(whole));
    assert(covered_bytes(whole) =~= covered_bytes(buffer));
    assert(trailer_value(whole) == trailer_value(buffer));
}

/// A frame whose declared length byte bounds body and trailer exactly, and
/// whose trailer is the big-endian CRC-32 of the body, passes checksum
/// validation — with any amount of trailing padding appended.
pub proof fn lemma_well_formed_frame_validates(body: Seq<u8>, pad: Seq<u8>)
    requires
        body.len() >= 2,
        body[1] + 2 == body.len() + 4,
    ensures
        checksum_matches(framed(body)),
        checksum_matches(framed(body) + pad),
{
    let c = crc32_of(body);
    let f = framed(body);
    assert(f.len() == body.len() + 4);
    assert(f[1] == body[1]);
    assert(span_len(f) == f.len());
    assert(span_fits(f));
    assert(covered_bytes(f) =~= body);
    assert(f[f.len() - 4] == be_bytes(c)[0]);
    assert(f[f.len() - 3] == be_bytes(c)[1]);
    assert(f[f.len() - 2] == be_bytes(c)[2]);
    assert(f[f.len() - 1] == be_bytes(c)[3]);
    assert(be32(
        ((c >> 24) & 0xff) as u8,
        ((c >> 16) & 0xff) as u8,
        ((c >> 8) & 0xff) as u8,
        (c & 0xff) as u8,
    ) == c) by (bit_vector);
    assert(trailer_value(f) == c);
    assert(checksum_matches(f));
    lemma_padding_irrelevant(f, pad);
}

/// A corruption of the covered span is caught whenever it changes the
/// CRC-32: a buffer that agrees with a validated frame on its length byte
/// and trailer, but whose covered bytes hash differently, fails validation.
pub proof fn lemma_corruption_detected(frame: Seq<u8>, corrupt: Seq<u8>)
    requires
        checksum_matches(frame),
        corrupt.len() == frame.len(),
        corrupt[1] == frame[1],
        forall|i: int|
            span_len(frame) - 4 <= i < span_len(frame) ==> corrupt[i] == frame[i],
        crc32_of(covered_bytes(corrupt)) != crc32_of(covered_bytes(frame)),
    ensures
        !checksum_matches(corrupt),
{
    assert(span_len(corrupt) == span_len(frame));
    assert(trailer_value(corrupt) == trailer_value(frame));
}

/// An empty buffer is always rejected as `empty_buffer`.
pub proof fn lemma_empty_buffer_rejected(buffer: Seq<u8>)
    requires
        buffer.len() == 0,
    ensures
        spec_decode(buffer) == Err::<Device, data_recieve_error>(data_recieve_error::empty_buffer),
{
}

/// A buffer whose first byte is not the `0xA5` header is always rejected as
/// `protocol_error`.
pub proof fn lemma_bad_header_rejected(buffer: Seq<u8>)
    requires
        buffer.len() > 0,
        buffer[0] != 165,
    ensures
        spec_decode(buffer) == Err::<Device, data_recieve_error>(
            data_recieve_error::protocol_error,
        ),
{
}

} // verus!
