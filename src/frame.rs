use vstd::prelude::*;
use crate::crc::{calc_crc_value, crc16};
use crate::packet_handler::CommunicationResult;

verus! {

/// Capacity of a frame buffer, CRC included.
pub const MAX_PACKET_LEN: usize = 128;

/// Id that addresses every servo on the bus.
pub const BROADCAST_ID: u8 = 0xFE;

/// Largest id a single servo can have.
pub const MAX_ID: u8 = 0xFC;

/// Instruction byte of a status packet.
pub const STATUS_INSTRUCTION: u8 = 0x55;

/// Largest length field a received packet may carry, so that the whole packet
/// fits a frame buffer.
pub const MAX_LENGTH_FIELD: u16 = 121;

/// Smallest length field of a status packet: instruction, error byte and CRC.
pub const MIN_STATUS_LENGTH: u16 = 4;

/// Little-endian encoding of a 16-bit value.
pub open spec fn le16(v: u16) -> Seq<u8> {
    seq![(v & 0xffu16) as u8, (v >> 8u16) as u8]
}

/// The 16-bit value whose little-endian bytes are `lo`, `hi`.
pub open spec fn le_u16(lo: u8, hi: u8) -> u16 {
    (lo as u16) | ((hi as u16) << 8u16)
}

/// The 32-bit value whose little-endian bytes are `s[0..4]`.
pub open spec fn le_u32(s: Seq<u8>) -> u32 {
    (s[0] as u32) | ((s[1] as u32) << 8u32) | ((s[2] as u32) << 16u32) | ((s[3] as u32) << 24u32)
}

/// Decoding the encoding of a 16-bit value gives the value back.
pub proof fn lemma_le16_round_trip(v: u16)
    ensures
        le_u16(le16(v)[0], le16(v)[1]) == v,
{
    let lo = (v & 0xffu16) as u8;
    let hi = (v >> 8u16) as u8;
    assert((lo as u16) | ((hi as u16) << 8u16) == v) by (bit_vector)
        requires
            lo == (v & 0xffu16) as u8,
            hi == (v >> 8u16) as u8,
    ;
}

/// The four header bytes that open every frame.
pub open spec fn header() -> Seq<u8> {
    seq![0xFFu8, 0xFFu8, 0xFDu8, 0x00u8]
}

/// An instruction packet up to, and without, its CRC.
pub open spec fn packet_body(id: u8, instruction: u8, params: Seq<u8>) -> Seq<u8> {
    header() + seq![id] + le16((params.len() + 3) as u16) + seq![instruction] + params
}

/// A frame: the body followed by its CRC, low byte first.
pub open spec fn with_crc(body: Seq<u8>) -> Seq<u8> {
    body + le16(crc16(body))
}

/// The instruction packet for `id`, `instruction` and `params` as it goes on the wire.
pub open spec fn instruction_packet(id: u8, instruction: u8, params: Seq<u8>) -> Seq<u8> {
    with_crc(packet_body(id, instruction, params))
}

/// Start of a draft packet: four reserved bytes where the header will go,
/// the id, the length field for `n` parameters and the instruction.
pub open spec fn draft_head(id: u8, instruction: u8, n: nat) -> Seq<u8> {
    seq![0u8, 0u8, 0u8, 0u8, id] + le16((n + 3) as u16) + seq![instruction]
}

/// A draft packet as the commands build it, before the header and CRC are set.
pub open spec fn packet_draft(id: u8, instruction: u8, params: Seq<u8>) -> Seq<u8> {
    draft_head(id, instruction, params.len()) + params
}

/// What goes on the wire for a draft: the header in place of its first four
/// bytes, then the CRC of the result.
pub open spec fn framed(draft: Seq<u8>) -> Seq<u8> {
    with_crc(header() + draft.subrange(4, draft.len() as int))
}

/// The id field of a frame.
pub open spec fn frame_id(f: Seq<u8>) -> u8 {
    f[4]
}

/// The length field of a frame: the count of bytes after it, CRC included.
pub open spec fn length_field(f: Seq<u8>) -> u16 {
    le_u16(f[5], f[6])
}

/// The instruction field of a frame.
pub open spec fn frame_instruction(f: Seq<u8>) -> u8 {
    f[7]
}

/// The parameters of an instruction packet.
pub open spec fn instruction_params(f: Seq<u8>) -> Seq<u8> {
    f.subrange(8, f.len() - 2)
}

/// The CRC field of a frame: its last two bytes, low byte first.
pub open spec fn crc_field(f: Seq<u8>) -> u16 {
    le_u16(f[f.len() - 2], f[f.len() - 1])
}

/// The CRC field matches the CRC of everything before it.
pub open spec fn crc_matches(f: Seq<u8>) -> bool {
    f.len() >= 2 && crc16(f.subrange(0, f.len() - 2)) == crc_field(f)
}

/// The first eight bytes of `f` open a status packet: header, an id of a
/// single servo, a length field a status packet can have and fit the buffer,
/// and the status instruction.
pub open spec fn status_header_ok(f: Seq<u8>) -> bool {
    &&& f.len() >= 8
    &&& f.subrange(0, 4) == header()
    &&& frame_id(f) <= MAX_ID
    &&& MIN_STATUS_LENGTH <= length_field(f) <= MAX_LENGTH_FIELD
    &&& frame_instruction(f) == STATUS_INSTRUCTION
}

/// `f` is exactly one well-formed status packet with a matching CRC.
pub open spec fn valid_status_packet(f: Seq<u8>) -> bool {
    &&& status_header_ok(f)
    &&& f.len() == length_field(f) + 7
    &&& crc_matches(f)
}

/// `s` is how a status packet starts: every byte present so far agrees with
/// the header, the id, the length field and the instruction of a valid
/// status packet, and `s` is not longer than its length field announces.
pub open spec fn status_prefix(s: Seq<u8>) -> bool {
    &&& forall|i: int| 0 <= i < 4 && i < s.len() ==> #[trigger] s[i] == header()[i]
    &&& s.len() > 4 ==> frame_id(s) <= MAX_ID
    &&& s.len() > 6 ==> MIN_STATUS_LENGTH <= length_field(s) <= MAX_LENGTH_FIELD && s.len()
        <= length_field(s) + 7
    &&& s.len() > 7 ==> frame_instruction(s) == STATUS_INSTRUCTION
}

/// A valid status packet is how a status packet starts.
pub proof fn lemma_valid_is_prefix(s: Seq<u8>)
    requires
        valid_status_packet(s),
    ensures
        status_prefix(s),
{
    assert forall|i: int| 0 <= i < 4 && i < s.len() implies #[trigger] s[i] == header()[i] by {
        assert(s.subrange(0, 4)[i] == s[i]);
    }
}

/// Dropping the last byte of how a status packet starts leaves how it starts.
pub proof fn lemma_prefix_closed(s: Seq<u8>, b: u8)
    requires
        status_prefix(s.push(b)),
    ensures
        status_prefix(s),
{
    let t = s.push(b);
    assert forall|i: int| 0 <= i < 4 && i < s.len() implies #[trigger] s[i] == header()[i] by {
        assert(t[i] == s[i]);
    }
    if s.len() > 4 {
        assert(t[4] == s[4]);
    }
    if s.len() > 6 {
        assert(t[5] == s[5] && t[6] == s[6]);
    }
    if s.len() > 7 {
        assert(t[7] == s[7]);
    }
}

/// Eight or more bytes of how a status packet starts open a status packet.
pub proof fn lemma_prefix_header(s: Seq<u8>)
    requires
        status_prefix(s),
        s.len() >= 8,
    ensures
        status_header_ok(s),
{
    assert(s[0] == header()[0] && s[1] == header()[1] && s[2] == header()[2] && s[3] == header()[3]);
    assert(s.subrange(0, 4) =~= header());
}

/// The error byte of a status packet.
pub open spec fn status_error(f: Seq<u8>) -> u8 {
    f[8]
}

/// Reply to an instruction that expects a status with no parameters and no
/// error: `Ok` exactly when the status is from `id`, carries no parameters,
/// and reports no error.
pub open spec fn ack_reply(id: u8, f: Seq<u8>) -> Result<(), CommunicationResult> {
    if frame_id(f) != id || length_field(f) != 4 || frame_instruction(f) != STATUS_INSTRUCTION
        || status_error(f) != 0 {
        Err(CommunicationResult::SomethingWentWrong)
    } else {
        Ok(())
    }
}

/// Reply to a ping: model number and firmware version, from a status of
/// `id` with three parameter bytes and no error.
pub open spec fn ping_reply(id: u8, f: Seq<u8>) -> Result<(u16, u8), CommunicationResult> {
    if frame_id(f) != id || length_field(f) != 7 || frame_instruction(f) != STATUS_INSTRUCTION
        || status_error(f) != 0 {
        Err(CommunicationResult::SomethingWentWrong)
    } else {
        Ok((le_u16(f[9], f[10]), f[11]))
    }
}

/// Reply to a read of `n` bytes: the parameters of a status of `id` that
/// carries exactly `n` of them and reports no error.
pub open spec fn read_reply(id: u8, f: Seq<u8>, n: u16) -> Result<Seq<u8>, CommunicationResult> {
    if frame_id(f) != id || length_field(f) != n + 4 || frame_instruction(f) != STATUS_INSTRUCTION
        || status_error(f) != 0 {
        Err(CommunicationResult::SomethingWentWrong)
    } else {
        Ok(f.subrange(9, 9 + n))
    }
}

/// The write packet for `data` at `address` of servo `id`.
pub open spec fn write_frame(id: u8, address: u16, data: Seq<u8>) -> Seq<u8> {
    instruction_packet(id, 0x03, le16(address) + data)
}

/// Little-endian encoding of a 32-bit value.
pub open spec fn le32(v: u32) -> Seq<u8> {
    seq![(v & 0xffu32) as u8, ((v >> 8u32) & 0xffu32) as u8, ((v >> 16u32) & 0xffu32) as u8, (v >> 24u32) as u8]
}

/// The parameter blocks of a sync write: each id followed by its `w` bytes of `data`.
pub open spec fn sync_write_blocks(ids: Seq<u8>, data: Seq<u8>, w: int) -> Seq<u8>
    decreases ids.len(),
{
    if ids.len() == 0 {
        Seq::empty()
    } else {
        sync_write_blocks(ids.drop_last(), data, w) + seq![ids.last()] + data.subrange(
            (ids.len() - 1) * w,
            ids.len() * w,
        )
    }
}

/// Every frame carries the CRC of all the bytes before it in its last two bytes.
pub proof fn lemma_frame_crc(body: Seq<u8>)
    ensures
        with_crc(body).len() == body.len() + 2,
        with_crc(body).subrange(0, body.len() as int) == body,
        crc_matches(with_crc(body)),
{
    let f = with_crc(body);
    assert(f.subrange(0, f.len() - 2) =~= body);
    lemma_le16_round_trip(crc16(body));
}

/// Whatever draft is sent, the frame that goes on the wire carries the CRC of
/// all its other bytes in its last two, low byte first.
pub proof fn lemma_sent_frame_crc(draft: Seq<u8>)
    ensures
        crc_matches(framed(draft)),
        crc_field(framed(draft)) == crc16(framed(draft).subrange(0, framed(draft).len() - 2)),
{
    lemma_frame_crc(header() + draft.subrange(4, draft.len() as int));
}

/// A draft packet, once framed, is the instruction packet it was built for.
pub proof fn lemma_framed_draft(id: u8, instruction: u8, params: Seq<u8>)
    ensures
        framed(packet_draft(id, instruction, params)) == instruction_packet(id, instruction, params),
{
    let d = packet_draft(id, instruction, params);
    assert(header() + d.subrange(4, d.len() as int) =~= packet_body(id, instruction, params));
}

/// Parsing a write packet gives back the id, the address and the data it was built from.
pub proof fn lemma_write_frame_round_trip(id: u8, address: u16, data: Seq<u8>)
    requires
        data.len() <= 125,
    ensures
        frame_id(write_frame(id, address, data)) == id,
        frame_instruction(write_frame(id, address, data)) == 0x03,
        length_field(write_frame(id, address, data)) == data.len() + 5,
        write_frame(id, address, data).len() == data.len() + 12,
        le_u16(
            instruction_params(write_frame(id, address, data))[0],
            instruction_params(write_frame(id, address, data))[1],
        ) == address,
        instruction_params(write_frame(id, address, data)).subrange(
            2,
            data.len() as int + 2,
        ) == data,
        crc_matches(write_frame(id, address, data)),
{
    let params = le16(address) + data;
    let body = packet_body(id, 0x03, params);
    let f = write_frame(id, address, data);
    lemma_frame_crc(body);
    lemma_le16_round_trip(address);
    lemma_le16_round_trip((params.len() + 3) as u16);
    assert(f[5] == le16((params.len() + 3) as u16)[0]);
    assert(f[6] == le16((params.len() + 3) as u16)[1]);
    assert(instruction_params(f) =~= params);
    assert(params.subrange(2, data.len() as int + 2) =~= data);
}

/// The 16-bit value whose little-endian bytes are `lo`, `hi`.
pub fn le_u16_of(lo: u8, hi: u8) -> (r: u16)
    ensures
        r == le_u16(lo, hi),
{
    (lo as u16) | ((hi as u16) << 8u16)
}

/// The 32-bit value whose little-endian bytes are `b[0..4]`.
pub fn le_u32_of(b: &[u8]) -> (r: u32)
    requires
        b@.len() >= 4,
    ensures
        r == le_u32(b@),
{
    (b[0] as u32) | ((b[1] as u32) << 8u32) | ((b[2] as u32) << 16u32) | ((b[3] as u32) << 24u32)
}

} // verus!
