use vstd::prelude::*;
use crate::buffer::{buf_as_slice, buf_from_range, buf_new, packet_bytes, push_byte, push_range};
use crate::control_table::ControlTable;
use crate::crc::calc_crc_value;
use crate::frame::{
    ack_reply, crc_matches, draft_head, frame_id, frame_instruction, framed, instruction_packet, le16, le32, le_u16,
    le_u16_of, le_u32, le_u32_of, lemma_framed_draft, lemma_prefix_closed, lemma_prefix_header,
    lemma_valid_is_prefix, length_field, packet_draft, ping_reply, read_reply, status_header_ok,
    status_prefix, sync_write_blocks, valid_status_packet, write_frame, MAX_ID, MAX_LENGTH_FIELD,
    MIN_STATUS_LENGTH, STATUS_INSTRUCTION,
};
use crate::control_data::OperatingMode;
use crate::instruction::Instruction;
use crate::{Clock, Interface};

pub use crate::frame::{BROADCAST_ID, MAX_PACKET_LEN};

verus! {

/// Turnaround time of the bus and the servo, in microseconds.
pub const LATENCY_CLOCK: u64 = 1_000;

/// Shortest receive that can hold a status packet: header, id, length,
/// instruction, error byte and CRC.
pub const MIN_STATUS_PACKET_LEN: usize = 11;

/// Fields of a frame, by position.
#[derive(Clone, Copy, Debug, PartialEq, Eq, Structural)]
pub enum Packet {
    Header0,
    Header1,
    Header2,
    Reserved,
    Id,
    LengthL,
    LengthH,
    Instruction,
    Error,
    Parameter0,
}

impl Packet {
    /// Offset of the field in a frame.
    pub open spec fn spec_pos(self) -> usize {
        match self {
            Packet::Header0 => 0,
            Packet::Header1 => 1,
            Packet::Header2 => 2,
            Packet::Reserved => 3,
            Packet::Id => 4,
            Packet::LengthL => 5,
            Packet::LengthH => 6,
            Packet::Instruction => 7,
            Packet::Error => 8,
            Packet::Parameter0 => 8,
        }
    }

    /// Offset of the field in a frame.
    pub fn to_pos(&self) -> (r: usize)
        ensures
            r == self.spec_pos(),
    {
        match self {
            Packet::Header0 => 0,
            Packet::Header1 => 1,
            Packet::Header2 => 2,
            Packet::Reserved => 3,
            Packet::Id => 4,
            Packet::LengthL => 5,
            Packet::LengthH => 6,
            Packet::Instruction => 7,
            Packet::Error => 8,
            Packet::Parameter0 => 8,
        }
    }
}

/// Error byte of a status packet: the low bits name the error, bit 7 is the
/// hardware alert flag.
#[derive(Clone, Copy, Debug, PartialEq, Eq, Structural)]
pub enum ErrorBit {
    ErrNone,
    ErrResultFail,
    ErrInstruction,
    ErrCRC,
    ErrDataRange,
    ErrDataLength,
    ErrDataLimit,
    ErrAccess,
    ErrAlert,
}

impl ErrorBit {
    /// The bits that stand for the error in the error byte.
    pub open spec fn spec_byte(self) -> u8 {
        match self {
            ErrorBit::ErrNone => 0x00,
            ErrorBit::ErrResultFail => 0x01,
            ErrorBit::ErrInstruction => 0x02,
            ErrorBit::ErrCRC => 0x03,
            ErrorBit::ErrDataRange => 0x04,
            ErrorBit::ErrDataLength => 0x05,
            ErrorBit::ErrDataLimit => 0x06,
            ErrorBit::ErrAccess => 0x07,
            ErrorBit::ErrAlert => 0x80,
        }
    }

    /// The bits that stand for the error in the error byte.
    pub fn to_byte(&self) -> (r: u8)
        ensures
            r == self.spec_byte(),
    {
        match self {
            ErrorBit::ErrNone => 0x00,
            ErrorBit::ErrResultFail => 0x01,
            ErrorBit::ErrInstruction => 0x02,
            ErrorBit::ErrCRC => 0x03,
            ErrorBit::ErrDataRange => 0x04,
            ErrorBit::ErrDataLength => 0x05,
            ErrorBit::ErrDataLimit => 0x06,
            ErrorBit::ErrAccess => 0x07,
            ErrorBit::ErrAlert => 0x80,
        }
    }
}

impl From<ErrorBit> for u8 {
    fn from(variant: ErrorBit) -> (r: u8)
        ensures
            r == variant.spec_byte(),
    {
        variant.to_byte()
    }
}

impl vstd::std_specs::convert::FromSpecImpl<ErrorBit> for u8 {
    open spec fn obeys_from_spec() -> bool {
        true
    }

    open spec fn from_spec(v: ErrorBit) -> u8 {
        v.spec_byte()
    }
}

/// Outcome of a transaction with a servo.
#[derive(Clone, Copy, Debug, PartialEq, Eq, Structural)]
pub enum CommunicationResult {
    Success,
    PortBusy,
    TxFail,
    RxFail,
    TxError,
    RxWaiting,
    RxTimeout,
    RxCorrupt,
    RxCRCError,
    NotAvailable,
    SomethingWentWrong,
}

impl CommunicationResult {
    /// The human-readable message for the outcome.
    pub open spec fn spec_message(self) -> Seq<char> {
        match self {
            CommunicationResult::Success => "[TxRxResult] Communication success."@,
            CommunicationResult::PortBusy => "[TxRxResult] Port is in use!"@,
            CommunicationResult::TxFail => "[TxRxResult] Failed transmit instruction packet!"@,
            CommunicationResult::RxFail => "[TxRxResult] Failed get status packet from device!"@,
            CommunicationResult::TxError => "[TxRxResult] Incorrect instruction packet!"@,
            CommunicationResult::RxWaiting => "[TxRxResult] Now recieving status packet!"@,
            CommunicationResult::RxTimeout => "[TxRxResult] There is no status packet!"@,
            CommunicationResult::RxCorrupt => "[TxRxResult] Incorrect status packet!"@,
            CommunicationResult::RxCRCError => "[TxRxResult] Incorrect Rx CRC!"@,
            CommunicationResult::NotAvailable => "[TxRxResult] Protocol does not support This function!"@,
            CommunicationResult::SomethingWentWrong => "[TxRxResult] Something went wrong!"@,
        }
    }

    /// The human-readable message for the outcome.
    pub fn message(&self) -> (r: &'static str)
        ensures
            r@ == self.spec_message(),
    {
        match self {
            CommunicationResult::Success => "[TxRxResult] Communication success.",
            CommunicationResult::PortBusy => "[TxRxResult] Port is in use!",
            CommunicationResult::TxFail => "[TxRxResult] Failed transmit instruction packet!",
            CommunicationResult::RxFail => "[TxRxResult] Failed get status packet from device!",
            CommunicationResult::TxError => "[TxRxResult] Incorrect instruction packet!",
            CommunicationResult::RxWaiting => "[TxRxResult] Now recieving status packet!",
            CommunicationResult::RxTimeout => "[TxRxResult] There is no status packet!",
            CommunicationResult::RxCorrupt => "[TxRxResult] Incorrect status packet!",
            CommunicationResult::RxCRCError => "[TxRxResult] Incorrect Rx CRC!",
            CommunicationResult::NotAvailable => "[TxRxResult] Protocol does not support This function!",
            CommunicationResult::SomethingWentWrong => "[TxRxResult] Something went wrong!",
        }
    }
}

/// Relies on `Duration::as_micros`: the whole duration in microseconds.
pub assume_specification[ core::time::Duration::as_micros ](d: &core::time::Duration) -> u128;

/// Transmit time of one byte in microseconds at `baudrate`: eight bit times,
/// rounded up.
pub open spec fn tx_time_for(baudrate: u32) -> u64 {
    if baudrate == 0 {
        u64::MAX
    } else {
        ((8_000_000 + baudrate - 1) / (baudrate as int)) as u64
    }
}

/// Receive timeout after sending `n` bytes: their transmit time plus two
/// bus turnarounds and a margin of 2000 microseconds.
pub open spec fn timeout_for(tx_time_per_byte: u64, n: int) -> int {
    tx_time_per_byte * n + 2 * LATENCY_CLOCK + 2000
}

/// `f` is a run of consecutive bytes of `log`.
pub open spec fn appears_in(f: Seq<u8>, log: Seq<u8>) -> bool {
    exists|k: int| 0 <= k && k + f.len() <= log.len() && #[trigger] log.subrange(k, k + f.len()) == f
}

/// The last `m` bytes of `log`.
pub open spec fn tail(log: Seq<u8>, m: int) -> Seq<u8> {
    log.subrange(log.len() - m, log.len() as int)
}

/// What a receive may end in, given the bytes `log` it took from the transport:
/// a valid status packet that arrived in one piece; a packet whose CRC does not
/// match; `RxTimeout` exactly when nothing arrived; or `RxCorrupt` when
/// something arrived but no packet completed in time.
pub open spec fn receive_outcome(log: Seq<u8>, res: Result<Seq<u8>, CommunicationResult>) -> bool {
    &&& res is Ok ==> valid_status_packet(res->Ok_0) && appears_in(res->Ok_0, log)
    &&& res is Err ==> (res->Err_0 == CommunicationResult::RxTimeout || res->Err_0
        == CommunicationResult::RxCorrupt || res->Err_0 == CommunicationResult::RxCRCError)
    &&& res == Err::<Seq<u8>, CommunicationResult>(CommunicationResult::RxCRCError) ==> exists|
        g: Seq<u8>,
    |
        #![trigger appears_in(g, log)]
        appears_in(g, log) && status_header_ok(g) && g.len() == length_field(g) + 7
            && !crc_matches(g)
    &&& (res == Err::<Seq<u8>, CommunicationResult>(CommunicationResult::RxTimeout) <==> log.len()
        == 0)
    &&& valid_status_packet(log) ==> res == Ok::<Seq<u8>, CommunicationResult>(log)
}

/// While the bytes taken so far may still become one status packet, the
/// receive buffer holds all of them, and it waits for the header or for the
/// whole packet.
pub open spec fn clean_receive(log: Seq<u8>, msg: Seq<u8>, wait_length: int) -> bool {
    status_prefix(log) ==> msg == log && log.len() <= wait_length && (wait_length
        == MIN_STATUS_PACKET_LEN || (log.len() >= MIN_STATUS_PACKET_LEN && wait_length
        == length_field(log) + 7))
}

/// The bytes a received buffer holds, or the error.
pub open spec fn rx_view(r: Result<heapless::Vec<u8, 128>, CommunicationResult>) -> Result<
    Seq<u8>,
    CommunicationResult,
> {
    match r {
        Ok(v) => Ok(packet_bytes(v)),
        Err(e) => Err(e),
    }
}

/// The reply to a command, given how its receive ended.
pub open spec fn after_receive<T>(
    rx: Result<Seq<u8>, CommunicationResult>,
    reply: Result<T, CommunicationResult>,
) -> Result<T, CommunicationResult> {
    match rx {
        Ok(_) => reply,
        Err(e) => Err(e),
    }
}

/// The read request for `size` bytes of register `name` of servo `id`.
pub open spec fn read_request(id: u8, name: ControlTable, size: u16) -> Seq<u8> {
    instruction_packet(id, 0x02, le16(name.spec_address()) + le16(size))
}

/// The data a read of `n` bytes from `id` yields, given how its receive ended.
pub open spec fn read_result(rx: Result<Seq<u8>, CommunicationResult>, id: u8, n: u16) -> Result<
    Seq<u8>,
    CommunicationResult,
> {
    after_receive(rx, read_reply(id, rx->Ok_0, n))
}

/// The outcome of a command answered by a status without parameters, given
/// how its receive ended.
pub open spec fn ack_result(rx: Result<Seq<u8>, CommunicationResult>, id: u8) -> Result<
    (),
    CommunicationResult,
> {
    after_receive(rx, ack_reply(id, rx->Ok_0))
}

/// A write of `n` bytes to register `name` of servo `id` is refused: the id
/// is not that of a single servo, or `n` is not the register's width.
pub open spec fn write_refused(id: u8, name: ControlTable, n: int) -> bool {
    id >= BROADCAST_ID || n != name.spec_size()
}

/// A sync read of `size` bytes of register `name` from the servos `ids`.
pub open spec fn sync_read_request(ids: Seq<u8>, name: ControlTable, size: u16) -> Seq<u8> {
    instruction_packet(BROADCAST_ID, 0x82, le16(name.spec_address()) + le16(size) + ids)
}

/// A sync write of `size` bytes per servo to register `name`.
pub open spec fn sync_write_request(ids: Seq<u8>, data: Seq<u8>, name: ControlTable, size: u16) -> Seq<u8> {
    instruction_packet(
        BROADCAST_ID,
        0x83,
        le16(name.spec_address()) + le16(size) + sync_write_blocks(ids, data, size as int),
    )
}

/// Checks a status packet that answers an instruction without reply data.
pub fn check_ack(id: u8, status: &[u8]) -> (r: Result<(), CommunicationResult>)
    requires
        valid_status_packet(status@),
    ensures
        r == ack_reply(id, status@),
{
    if status[Packet::Id.to_pos()] != id || le_u16_of(
        status[Packet::LengthL.to_pos()],
        status[Packet::LengthH.to_pos()],
    ) != 4 || status[Packet::Instruction.to_pos()] != STATUS_INSTRUCTION
        || status[Packet::Error.to_pos()] != 0x00 {
        Err(CommunicationResult::SomethingWentWrong)
    } else {
        Ok(())
    }
}

/// Checks the status packet that answers a ping and reads model number and
/// firmware version from it.
pub fn check_ping(id: u8, status: &[u8]) -> (r: Result<(u16, u8), CommunicationResult>)
    requires
        valid_status_packet(status@),
    ensures
        r == ping_reply(id, status@),
{
    if status[Packet::Id.to_pos()] != id || le_u16_of(
        status[Packet::LengthL.to_pos()],
        status[Packet::LengthH.to_pos()],
    ) != 7 || status[Packet::Instruction.to_pos()] != STATUS_INSTRUCTION
        || status[Packet::Error.to_pos()] != 0x00 {
        Err(CommunicationResult::SomethingWentWrong)
    } else {
        let model_number = le_u16_of(status[9], status[10]);
        let firmware_version = status[11];
        Ok((model_number, firmware_version))
    }
}

/// Checks the status packet that answers a read of `data_length` bytes (from
/// `id`, with that many parameters and no error) and takes the data from it.
pub fn check_read(id: u8, status: &[u8], data_length: u16) -> (r: Result<
    heapless::Vec<u8, 128>,
    CommunicationResult,
>)
    requires
        valid_status_packet(status@),
    ensures
        rx_view(r) == read_reply(id, status@, data_length),
{
    if status[Packet::Id.to_pos()] != id || le_u16_of(
        status[Packet::LengthL.to_pos()],
        status[Packet::LengthH.to_pos()],
    ) as u32 != data_length as u32 + 4 || status[Packet::Instruction.to_pos()] != STATUS_INSTRUCTION
        || status[Packet::Error.to_pos()] != 0x00 {
        Err(CommunicationResult::SomethingWentWrong)
    } else {
        let start: usize = Packet::Error.to_pos() + 1;
        Ok(buf_from_range(status, start, start + data_length as usize))
    }
}

/// Appends the little-endian bytes of `x`.
fn push_u16(v: &mut heapless::Vec<u8, 128>, x: u16)
    requires
        packet_bytes(*old(v)).len() + 2 <= MAX_PACKET_LEN,
    ensures
        packet_bytes(*final(v)) == packet_bytes(*old(v)) + le16(x),
{
    push_byte(v, (x & 0xffu16) as u8);
    push_byte(v, (x >> 8u16) as u8);
    proof {
        assert(packet_bytes(*v) =~= packet_bytes(*old(v)) + le16(x));
    }
}

/// The state of a receive that has taken `log` from the transport: the
/// buffer `msg` holds the last bytes of it, waits for `wait_length` bytes in
/// all, and is empty only while nothing has arrived.
pub open spec fn receiving(log: Seq<u8>, msg: Seq<u8>, wait_length: int) -> bool {
    &&& MIN_STATUS_PACKET_LEN <= wait_length <= MAX_PACKET_LEN
    &&& msg.len() <= MAX_PACKET_LEN
    &&& msg.len() <= log.len()
    &&& msg == tail(log, msg.len() as int)
    &&& log.len() > 0 ==> msg.len() > 0
    &&& clean_receive(log, msg, wait_length)
}

/// How a receive that has taken `log` may end once a full packet lies in its
/// buffer: a valid status packet that arrived in one piece, or a CRC error on
/// a packet whose header is good; and a valid status packet taken alone from
/// the transport is always returned.
pub open spec fn decided_outcome(log: Seq<u8>, res: Result<Seq<u8>, CommunicationResult>) -> bool {
    &&& res is Ok ==> valid_status_packet(res->Ok_0) && appears_in(res->Ok_0, log)
    &&& res is Err ==> res->Err_0 == CommunicationResult::RxCRCError && exists|g: Seq<u8>|
        #![trigger appears_in(g, log)]
        appears_in(g, log) && status_header_ok(g) && g.len() == length_field(g) + 7
            && !crc_matches(g)
    &&& valid_status_packet(log) ==> res == Ok::<Seq<u8>, CommunicationResult>(log)
}

/// How a receive ends at its deadline, with `len` bytes in its buffer.
fn deadline_result(len: usize) -> (r: Result<heapless::Vec<u8, 128>, CommunicationResult>)
    ensures
        len == 0 ==> r == Err::<heapless::Vec<u8, 128>, CommunicationResult>(
            CommunicationResult::RxTimeout,
        ),
        len > 0 ==> r == Err::<heapless::Vec<u8, 128>, CommunicationResult>(
            CommunicationResult::RxCorrupt,
        ),
{
    if len == 0 {
        Err(CommunicationResult::RxTimeout)
    } else {
        Err(CommunicationResult::RxCorrupt)
    }
}

/// A header starts at offset `i` of `s`.
pub open spec fn header_at(s: Seq<u8>, i: int) -> bool {
    s[i] == 0xFF && s[i + 1] == 0xFF && s[i + 2] == 0xFD && s[i + 3] == 0x00
}

/// Offset of the first header in `s` at or after `i`, or `s.len() - 3` when
/// there is none.
pub open spec fn header_search(s: Seq<u8>, i: int) -> int
    decreases s.len() - i,
{
    if i < 0 || i >= s.len() - 3 {
        s.len() - 3
    } else if header_at(s, i) {
        i
    } else {
        header_search(s, i + 1)
    }
}

/// The header search stops at a header, or at the end, and never before `i`.
pub proof fn lemma_header_search(s: Seq<u8>, i: int)
    requires
        0 <= i <= s.len() - 3,
    ensures
        i <= header_search(s, i) <= s.len() - 3,
        header_search(s, i) < s.len() - 3 ==> header_at(s, header_search(s, i)),
        i < s.len() - 3 && header_at(s, i) ==> header_search(s, i) == i,
    decreases s.len() - i,
{
    if i < s.len() - 3 && !header_at(s, i) {
        lemma_header_search(s, i + 1);
    }
}

/// The bytes after a header can open a status packet: reserved byte zero, the
/// id of a single servo, a length field a status packet can have and fit the
/// buffer, and the status instruction.
pub open spec fn status_fields_ok(s: Seq<u8>) -> bool {
    &&& s[3] == 0x00
    &&& frame_id(s) <= MAX_ID
    &&& MIN_STATUS_LENGTH <= length_field(s) <= MAX_LENGTH_FIELD
    &&& frame_instruction(s) == STATUS_INSTRUCTION
}

/// The state of a receive: its buffer, the length it waits for, and its
/// outcome once decided.
pub type RxState = (Seq<u8>, int, Option<Result<Seq<u8>, CommunicationResult>>);

/// One look at a receive buffer `msg` that holds at least `wait_length` bytes.
/// Garbage before the first header is dropped; a header whose fields cannot
/// open a status packet loses its first byte; a good header sets the awaited
/// length to its packet's, and once the packet is complete the receive ends
/// with it when its CRC matches, with `RxCRCError` when not.
pub open spec fn rx_scan(msg: Seq<u8>, wait_length: int) -> RxState {
    let idx = header_search(msg, 0);
    if idx != 0 {
        (msg.subrange(idx, msg.len() as int), wait_length, None)
    } else if !status_fields_ok(msg) {
        (msg.subrange(1, msg.len() as int), wait_length, None)
    } else {
        let w = length_field(msg) + 7;
        if msg.len() < w {
            (msg, w, None)
        } else {
            let f = msg.subrange(0, w);
            if crc_matches(f) {
                (msg, w, Some(Ok(f)))
            } else {
                (msg, w, Some(Err(CommunicationResult::RxCRCError)))
            }
        }
    }
}

/// Looks at the buffer again and again while it holds what it waits for and
/// the receive is not decided.
pub open spec fn rx_settle(msg: Seq<u8>, wait_length: int) -> RxState
    decreases msg.len() + (if msg.len() >= wait_length { 1int } else { 0int }),
{
    if msg.len() < wait_length || wait_length < MIN_STATUS_PACKET_LEN {
        (msg, wait_length, None)
    } else {
        let r = rx_scan(msg, wait_length);
        if r.2 is Some {
            r
        } else {
            proof {
                lemma_header_search(msg, 0);
            }
            rx_settle(r.0, r.1)
        }
    }
}

/// The state of a receive after it took the bytes `log` from the transport,
/// one at a time, each followed by settling the buffer.
pub open spec fn rx_run(log: Seq<u8>) -> RxState
    decreases log.len(),
{
    if log.len() == 0 {
        (Seq::empty(), MIN_STATUS_PACKET_LEN as int, None)
    } else {
        let s = rx_run(log.drop_last());
        if s.2 is Some {
            s
        } else {
            rx_settle(s.0.push(log.last()), s.1)
        }
    }
}

/// How a receive that took `log` ends: its decided outcome, or, at the
/// deadline, `RxTimeout` when nothing is buffered and `RxCorrupt` otherwise.
pub open spec fn rx_outcome_of(log: Seq<u8>) -> Result<Seq<u8>, CommunicationResult> {
    let s = rx_run(log);
    match s.2 {
        Some(r) => r,
        None => if s.0.len() == 0 {
            Err(CommunicationResult::RxTimeout)
        } else {
            Err(CommunicationResult::RxCorrupt)
        },
    }
}

/// The outcome a scan step reports, as bytes.
pub open spec fn scan_view(o: Option<Result<heapless::Vec<u8, 128>, CommunicationResult>>) -> Option<
    Result<Seq<u8>, CommunicationResult>,
> {
    match o {
        Some(x) => Some(rx_view(x)),
        None => None,
    }
}

/// While the bytes taken may still become a status packet, a scan finds its
/// header at the start of the buffer, which holds exactly those bytes.
proof fn lemma_scan_clean(log: Seq<u8>, msg: Seq<u8>, wait_length: int)
    requires
        receiving(log, msg, wait_length),
        msg.len() >= wait_length,
        status_prefix(log),
    ensures
        msg == log,
        header_search(msg, 0) == 0,
        header_at(msg, 0),
        status_fields_ok(msg),
{
    lemma_prefix_header(log);
    assert(log.subrange(0, 4)[0] == log[0] && log.subrange(0, 4)[1] == log[1]);
    assert(log.subrange(0, 4)[2] == log[2] && log.subrange(0, 4)[3] == log[3]);
    lemma_header_search(msg, 0);
}

/// Dropping the first `d` bytes of the buffer keeps a receive consistent
/// once the bytes taken can no longer become a status packet.
proof fn lemma_scan_drop(log: Seq<u8>, msg: Seq<u8>, wait_length: int, d: int)
    requires
        receiving(log, msg, wait_length),
        msg.len() >= wait_length,
        1 <= d <= msg.len() - 3,
        !status_prefix(log),
    ensures
        receiving(log, msg.subrange(d, msg.len() as int), wait_length),
{
    let next = msg.subrange(d, msg.len() as int);
    assert(next =~= tail(log, next.len() as int));
}

/// A complete packet at the start of the buffer decides the receive as a
/// receive may decide.
proof fn lemma_scan_decide(log: Seq<u8>, msg: Seq<u8>, wait_length: int)
    requires
        receiving(log, msg, wait_length),
        header_at(msg, 0),
        status_fields_ok(msg),
        msg.len() >= length_field(msg) + 7,
        status_prefix(log) ==> msg == log,
    ensures
        decided_outcome(log, rx_scan_decision(msg)),
{
    let w = length_field(msg) + 7;
    let f = msg.subrange(0, w);
    let k = log.len() - msg.len();
    assert(log.subrange(k, k + f.len()) =~= f);
    assert(appears_in(f, log));
    assert(f.subrange(0, 4) =~= crate::frame::header());
    assert(f[4] == msg[4] && f[5] == msg[5] && f[6] == msg[6] && f[7] == msg[7]);
    assert(status_header_ok(f));
    if valid_status_packet(log) {
        lemma_valid_is_prefix(log);
        assert(f =~= log);
    }
}

/// The outcome of a scan that finds a complete packet at the start of `msg`.
pub open spec fn rx_scan_decision(msg: Seq<u8>) -> Result<Seq<u8>, CommunicationResult> {
    let f = msg.subrange(0, length_field(msg) + 7);
    if crc_matches(f) {
        Ok(f)
    } else {
        Err(CommunicationResult::RxCRCError)
    }
}

/// A scan step keeps the state of a receive consistent with the bytes it
/// took, decides only as a receive may, and shrinks what is left to scan.
proof fn lemma_scan_receiving(log: Seq<u8>, msg: Seq<u8>, wait_length: int)
    requires
        receiving(log, msg, wait_length),
        msg.len() >= wait_length,
    ensures
        ({
            let r = rx_scan(msg, wait_length);
            &&& r.2 is Some ==> decided_outcome(log, r.2->Some_0)
            &&& r.2 is None ==> receiving(log, r.0, r.1) && (status_prefix(log) ==> log.len() < r.1)
            &&& valid_status_packet(log) ==> r.2 is Some
            &&& r.2 is None ==> r.0.len() + (if r.0.len() >= r.1 { 1int } else { 0int }) < msg.len()
                + 1
        }),
{
    let idx = header_search(msg, 0);
    lemma_header_search(msg, 0);
    if status_prefix(log) {
        lemma_scan_clean(log, msg, wait_length);
    }
    if valid_status_packet(log) {
        lemma_valid_is_prefix(log);
    }
    if idx != 0 {
        lemma_scan_drop(log, msg, wait_length, idx);
    } else if !status_fields_ok(msg) {
        lemma_scan_drop(log, msg, wait_length, 1);
    } else {
        assert(header_at(msg, 0));
        let w = length_field(msg) + 7;
        if msg.len() >= w {
            lemma_scan_decide(log, msg, wait_length);
            assert(rx_scan(msg, wait_length).2 == Some(rx_scan_decision(msg)));
        } else {
            assert(rx_scan(msg, wait_length) == (msg, w, None::<Result<Seq<u8>, CommunicationResult>>));
        }
    }
}

/// Offset of the first header in `s`, or `s.len() - 3` when there is none.
fn find_header(s: &[u8]) -> (idx: usize)
    requires
        s@.len() >= 4,
    ensures
        idx == header_search(s@, 0),
{
    let m = s.len();
    let mut idx: usize = 0;
    while idx < m - 3
        invariant
            idx <= m - 3,
            m == s@.len(),
            header_search(s@, 0) == header_search(s@, idx as int),
        decreases m - 3 - idx,
    {
        if s[idx] == 0xFF && s[idx + 1] == 0xFF && s[idx + 2] == 0xFD && s[idx + 3] == 0x00 {
            return idx;
        }
        idx = idx + 1;
    }
    idx
}

/// One look at a receive buffer that holds at least `wait_length` bytes: the
/// buffer and awaited length to go on with, and the outcome when the receive
/// ends here. See `rx_scan`.
pub fn scan_buffer(msg: heapless::Vec<u8, 128>, wait_length: usize) -> (r: (
    heapless::Vec<u8, 128>,
    usize,
    Option<Result<heapless::Vec<u8, 128>, CommunicationResult>>,
))
    requires
        MIN_STATUS_PACKET_LEN <= wait_length <= MAX_PACKET_LEN,
        packet_bytes(msg).len() >= wait_length,
    ensures
        (packet_bytes(r.0), r.1 as int, scan_view(r.2)) == rx_scan(packet_bytes(msg), wait_length as int),
{
    let s = buf_as_slice(&msg);
    let m = s.len();
    proof {
        lemma_header_search(s@, 0);
    }
    let idx = find_header(s);
    if idx != 0 {
        // drop what comes before the header
        return (buf_from_range(s, idx, m), wait_length, None);
    }
    let id = s[Packet::Id.to_pos()];
    let length = le_u16_of(s[Packet::LengthL.to_pos()], s[Packet::LengthH.to_pos()]);
    if s[Packet::Reserved.to_pos()] != 0x00 || id > MAX_ID || length < MIN_STATUS_LENGTH || length
        > MAX_LENGTH_FIELD || s[Packet::Instruction.to_pos()] != STATUS_INSTRUCTION {
        // not a status packet: drop its first byte
        return (buf_from_range(s, 1, m), wait_length, None);
    }
    let w = length as usize + 7;
    if m < w {
        return (msg, w, None);
    }
    let frame = buf_from_range(s, 0, w);
    let fs = buf_as_slice(&frame);
    let received_crc = le_u16_of(fs[w - 2], fs[w - 1]);
    let body = buf_from_range(fs, 0, w - 2);
    if calc_crc_value(buf_as_slice(&body)) == received_crc {
        (msg, w, Some(Ok(frame)))
    } else {
        (msg, w, Some(Err(CommunicationResult::RxCRCError)))
    }
}

/// Driver for the servos on one bus. It owns the transport and the clock,
/// and services one transaction at a time.
pub struct DynamixelControl<I: Interface, C: Clock> {
    uart: I,
    clock: C,
    is_using: bool,
    packet_start_time: u128,
    packet_timeout: u128,
    baudrate: u32,
    tx_time_per_byte: u64,
    sent: Ghost<Seq<u8>>,
    rx_log: Ghost<Seq<u8>>,
    rx_result: Ghost<Result<Seq<u8>, CommunicationResult>>,
    rx_deadline_reading: Ghost<Option<u128>>,
    clock_log: Ghost<Seq<u128>>,
    flush_log: Ghost<Seq<nat>>,
}

impl<I: Interface, C: Clock> DynamixelControl<I, C> {
    /// Every byte the driver has handed to the transport, in order.
    pub closed spec fn sent_log(&self) -> Seq<u8> {
        self.sent@
    }

    /// The bytes the last receive took from the transport.
    pub closed spec fn last_rx_bytes(&self) -> Seq<u8> {
        self.rx_log@
    }

    /// How the last receive ended: the status packet, or the error.
    pub closed spec fn last_status(&self) -> Result<Seq<u8>, CommunicationResult> {
        self.rx_result@
    }

    /// The clock reading, in microseconds, that ended the last receive at its
    /// deadline; `None` when no clock reading ended it (the packet completed,
    /// or the receive spent its polling budget of `u64::MAX` rounds).
    pub closed spec fn last_deadline_reading(&self) -> Option<u128> {
        self.rx_deadline_reading@
    }

    /// Every clock reading the driver has taken, in microseconds, in order.
    pub closed spec fn clock_readings(&self) -> Seq<u128> {
        self.clock_log@
    }

    /// For each flush of the transport's receive queue, how many bytes had
    /// been sent before it.
    pub closed spec fn flush_points(&self) -> Seq<nat> {
        self.flush_log@
    }

    /// Baud rate of the bus.
    pub closed spec fn spec_baudrate(&self) -> u32 {
        self.baudrate
    }

    /// Transmit time of one byte, in microseconds.
    pub closed spec fn spec_tx_time_per_byte(&self) -> u64 {
        self.tx_time_per_byte
    }

    /// Current receive timeout, in microseconds.
    pub closed spec fn spec_packet_timeout(&self) -> u128 {
        self.packet_timeout
    }

    /// Start of the current receive timeout, in microseconds of the clock.
    pub closed spec fn spec_packet_start_time(&self) -> u128 {
        self.packet_start_time
    }

    /// Whether a transaction is in progress.
    pub closed spec fn spec_is_using(&self) -> bool {
        self.is_using
    }

    /// Everything the contracts speak of is as in `before`, but for the clock
    /// readings.
    pub open spec fn same_except_clock(self, before: Self) -> bool {
        &&& self.sent_log() == before.sent_log()
        &&& self.flush_points() == before.flush_points()
        &&& self.last_rx_bytes() == before.last_rx_bytes()
        &&& self.last_status() == before.last_status()
        &&& self.last_deadline_reading() == before.last_deadline_reading()
        &&& self.spec_baudrate() == before.spec_baudrate()
        &&& self.spec_tx_time_per_byte() == before.spec_tx_time_per_byte()
        &&& self.spec_packet_timeout() == before.spec_packet_timeout()
        &&& self.spec_packet_start_time() == before.spec_packet_start_time()
        &&& self.spec_is_using() == before.spec_is_using()
    }

    /// Everything the contracts speak of is as in `before`.
    pub open spec fn unchanged_from(self, before: Self) -> bool {
        self.same_except_clock(before) && self.clock_readings() == before.clock_readings()
    }

    /// One frame was sent since `before`, and nothing else happened: the
    /// receive queue was flushed first, the timeout started for the frame's
    /// length with a fresh clock reading, and the last receive is kept.
    pub open spec fn sent_one_frame(self, before: Self) -> bool {
        &&& self.sent_log().len() >= before.sent_log().len()
        &&& self.flush_points() == before.flush_points().push(before.sent_log().len())
        &&& self.spec_packet_timeout() == timeout_for(
            before.spec_tx_time_per_byte(),
            self.sent_log().len() - before.sent_log().len(),
        )
        &&& self.clock_readings() == before.clock_readings().push(self.spec_packet_start_time())
        &&& self.last_rx_bytes() == before.last_rx_bytes()
        &&& self.last_status() == before.last_status()
        &&& self.last_deadline_reading() == before.last_deadline_reading()
        &&& self.spec_baudrate() == before.spec_baudrate()
        &&& self.spec_tx_time_per_byte() == before.spec_tx_time_per_byte()
    }

    /// A transaction took place since `before`: one frame was sent as in
    /// `sent_one_frame`, its timeout started with the first clock reading
    /// taken after `before`, a receive followed, and no transaction is left
    /// in progress.
    pub open spec fn transacted_from(self, before: Self) -> bool {
        &&& self.sent_log().len() >= before.sent_log().len()
        &&& self.flush_points() == before.flush_points().push(before.sent_log().len())
        &&& self.spec_packet_timeout() == timeout_for(
            before.spec_tx_time_per_byte(),
            self.sent_log().len() - before.sent_log().len(),
        )
        &&& self.clock_readings().len() > before.clock_readings().len()
        &&& self.clock_readings().subrange(0, before.clock_readings().len() as int)
            == before.clock_readings()
        &&& self.spec_packet_start_time() == self.clock_readings()[before.clock_readings().len() as int]
        &&& !self.spec_is_using()
        &&& self.spec_baudrate() == before.spec_baudrate()
        &&& self.spec_tx_time_per_byte() == before.spec_tx_time_per_byte()
    }

    /// A receive took place since `before`: nothing was sent or flushed, the
    /// timeout is kept, clock readings were only added, and no transaction
    /// is left in progress.
    pub open spec fn received_after(self, before: Self) -> bool {
        &&& self.sent_log() == before.sent_log()
        &&& self.flush_points() == before.flush_points()
        &&& self.clock_readings().len() >= before.clock_readings().len()
        &&& self.clock_readings().subrange(0, before.clock_readings().len() as int)
            == before.clock_readings()
        &&& self.spec_packet_timeout() == before.spec_packet_timeout()
        &&& self.spec_packet_start_time() == before.spec_packet_start_time()
        &&& !self.spec_is_using()
        &&& self.spec_baudrate() == before.spec_baudrate()
        &&& self.spec_tx_time_per_byte() == before.spec_tx_time_per_byte()
    }

    /// A frame sent, then a receive, make a transaction.
    proof fn lemma_transaction(before: Self, mid: Self, fin: Self)
        requires
            mid.sent_one_frame(before),
            fin.received_after(mid),
        ensures
            fin.transacted_from(before),
    {
        let n = before.clock_readings().len() as int;
        assert(fin.clock_readings().subrange(0, n + 1) =~= mid.clock_readings());
        assert(fin.clock_readings().subrange(0, n) =~= before.clock_readings());
        assert(fin.clock_readings()[n] == mid.clock_readings()[n]);
    }

    /// A driver for the bus behind `uart`, running at `baudrate`.
    pub fn new(uart: I, clock: C, baudrate: u32) -> (r: Self)
        ensures
            r.sent_log() == Seq::<u8>::empty(),
            r.last_rx_bytes() == Seq::<u8>::empty(),
            r.spec_baudrate() == baudrate,
            r.spec_tx_time_per_byte() == tx_time_for(baudrate),
            r.spec_packet_timeout() == 0,
            r.spec_packet_start_time() == 0,
            !r.spec_is_using(),
    {
        let tx_time_per_byte: u64 = if baudrate == 0 {
            u64::MAX
        } else {
            ((8_000_000u64 + (baudrate as u64 - 1)) / baudrate as u64)
        };
        DynamixelControl {
            uart,
            clock,
            is_using: false,
            packet_start_time: 0,
            packet_timeout: 0,
            baudrate,
            tx_time_per_byte,
            sent: Ghost(Seq::empty()),
            rx_log: Ghost(Seq::empty()),
            rx_result: Ghost(Err(CommunicationResult::RxWaiting)),
            rx_deadline_reading: Ghost(None),
            clock_log: Ghost(Seq::empty()),
            flush_log: Ghost(Seq::empty()),
        }
    }

    /// Current receive timeout, in microseconds.
    pub fn packet_timeout_micros(&self) -> (r: u128)
        ensures
            r == self.spec_packet_timeout(),
    {
        self.packet_timeout
    }

    /// The four reserved bytes a draft packet starts with; `send_packet`
    /// turns them into the header.
    pub fn reserve_msg_header(&self) -> (r: [u8; 4])
        ensures
            r@ == seq![0u8, 0u8, 0u8, 0u8],
    {
        [0x00u8, 0x00u8, 0x00u8, 0x00u8]
    }

    /// Drops whatever the transport has buffered, so that a receive starts
    /// clean: the transport's `clear_read_buf` is called once, and the flush
    /// is recorded at the current end of the sent bytes.
    pub fn clear_port(&mut self)
        ensures
            final(self).flush_points() == old(self).flush_points().push(old(self).sent_log().len()),
            final(self).sent_log() == old(self).sent_log(),
            final(self).last_rx_bytes() == old(self).last_rx_bytes(),
            final(self).last_status() == old(self).last_status(),
            final(self).last_deadline_reading() == old(self).last_deadline_reading(),
            final(self).clock_readings() == old(self).clock_readings(),
            final(self).spec_baudrate() == old(self).spec_baudrate(),
            final(self).spec_packet_timeout() == old(self).spec_packet_timeout(),
            final(self).spec_packet_start_time() == old(self).spec_packet_start_time(),
            final(self).spec_tx_time_per_byte() == old(self).spec_tx_time_per_byte(),
            final(self).spec_is_using() == old(self).spec_is_using(),
    {
        self.uart.clear_read_buf();
        self.flush_log = Ghost(self.flush_log@.push(self.sent@.len()));
    }

    /// Reads the clock, in microseconds, and records the reading.
    fn now_micros(&mut self) -> (r: u128)
        ensures
            final(self).clock_readings() == old(self).clock_readings().push(r),
            final(self).same_except_clock(*old(self)),
    {
        let now = self.clock.get_current_time().as_micros();
        self.clock_log = Ghost(self.clock_log@.push(now));
        now
    }

    /// The receive timeout was started anew with `usec` microseconds: its
    /// start is a fresh clock reading, and nothing else changed.
    pub open spec fn timeout_started(self, before: Self, usec: int) -> bool {
        &&& self.spec_packet_timeout() == usec
        &&& self.clock_readings() == before.clock_readings().push(self.spec_packet_start_time())
        &&& self.sent_log() == before.sent_log()
        &&& self.flush_points() == before.flush_points()
        &&& self.last_rx_bytes() == before.last_rx_bytes()
        &&& self.last_status() == before.last_status()
        &&& self.last_deadline_reading() == before.last_deadline_reading()
        &&& self.spec_baudrate() == before.spec_baudrate()
        &&& self.spec_tx_time_per_byte() == before.spec_tx_time_per_byte()
        &&& self.spec_is_using() == before.spec_is_using()
    }

    /// Starts the receive timeout now, for a packet of `packet_length` bytes:
    /// their transmit time, two bus turnarounds and a margin.
    pub fn set_packet_timeout_length(&mut self, packet_length: usize)
        ensures
            final(self).timeout_started(
                *old(self),
                timeout_for(old(self).spec_tx_time_per_byte(), packet_length as int),
            ),
    {
        let per_byte = self.tx_time_per_byte as u128;
        let n = packet_length as u128;
        proof {
            assert(per_byte * n <= 0xffff_ffff_ffff_ffffu128 * 0xffff_ffff_ffff_ffffu128) by (nonlinear_arith)
                requires
                    per_byte <= 0xffff_ffff_ffff_ffffu128,
                    n <= 0xffff_ffff_ffff_ffffu128,
            ;
        }
        let timeout_usec: u128 = per_byte * n + (LATENCY_CLOCK as u128) * 2 + 2_000;
        self.set_packet_timeout_micros_wide(timeout_usec);
    }

    /// Starts a receive timeout of `msec` milliseconds now.
    pub fn set_packet_timeout_millis(&mut self, msec: u64)
        ensures
            final(self).timeout_started(*old(self), msec * 1000),
    {
        self.set_packet_timeout_micros_wide((msec as u128) * 1000);
    }

    /// Starts a receive timeout of `usec` microseconds now.
    pub fn set_packet_timeout_micros(&mut self, usec: u64)
        ensures
            final(self).timeout_started(*old(self), usec as int),
    {
        self.set_packet_timeout_micros_wide(usec as u128);
    }

    fn set_packet_timeout_micros_wide(&mut self, usec: u128)
        ensures
            final(self).timeout_started(*old(self), usec as int),
    {
        self.packet_start_time = self.now_micros();
        self.packet_timeout = usec;
    }

    /// Whether a clock reading of `now` microseconds lies past the deadline of
    /// the current receive.
    pub fn is_past_deadline(&self, now: u128) -> (r: bool)
        ensures
            r == (now > self.spec_packet_start_time() + self.spec_packet_timeout()),
    {
        now > self.packet_start_time && now - self.packet_start_time > self.packet_timeout
    }

    /// Reads the clock and tells whether the reading lies past the deadline of
    /// the current receive.
    pub fn is_packet_timeout(&mut self) -> (r: bool)
        ensures
            final(self).clock_readings().len() == old(self).clock_readings().len() + 1,
            final(self).clock_readings() == old(self).clock_readings().push(
                final(self).clock_readings().last(),
            ),
            r == (final(self).clock_readings().last() > old(self).spec_packet_start_time()
                + old(self).spec_packet_timeout()),
            final(self).same_except_clock(*old(self)),
    {
        let now = self.now_micros();
        self.is_past_deadline(now)
    }

    /// Sends a draft packet: its first four bytes become the header, its CRC
    /// is appended, the transport's receive queue is flushed and the frame is
    /// written byte by byte. The receive timeout then starts for the frame's
    /// length. Whether a transaction is in progress is left to the command.
    pub fn send_packet(&mut self, msg: heapless::Vec<u8, 128>) -> (r: Result<
        (),
        CommunicationResult,
    >)
        requires
            4 <= packet_bytes(msg).len() <= MAX_PACKET_LEN - 2,
        ensures
            r is Ok,
            final(self).sent_log() == old(self).sent_log() + framed(packet_bytes(msg)),
            final(self).flush_points() == old(self).flush_points().push(old(self).sent_log().len()),
            final(self).spec_packet_timeout() == timeout_for(
                old(self).spec_tx_time_per_byte(),
                packet_bytes(msg).len() + 2 as int,
            ),
            final(self).clock_readings() == old(self).clock_readings().push(
                final(self).spec_packet_start_time(),
            ),
            final(self).last_rx_bytes() == old(self).last_rx_bytes(),
            final(self).last_status() == old(self).last_status(),
            final(self).last_deadline_reading() == old(self).last_deadline_reading(),
            final(self).spec_baudrate() == old(self).spec_baudrate(),
            final(self).spec_tx_time_per_byte() == old(self).spec_tx_time_per_byte(),
            final(self).spec_is_using() == old(self).spec_is_using(),
    {
        let draft = buf_as_slice(&msg);
        let mut frame = buf_new();
        push_byte(&mut frame, 0xFF);
        push_byte(&mut frame, 0xFF);
        push_byte(&mut frame, 0xFD);
        push_byte(&mut frame, 0x00);
        push_range(&mut frame, draft, 4, draft.len());
        let ghost body = packet_bytes(frame);
        proof {
            assert(body =~= crate::frame::header() + draft@.subrange(4, draft@.len() as int));
        }
        let crc = calc_crc_value(buf_as_slice(&frame));
        push_byte(&mut frame, (crc & 0xffu16) as u8);
        push_byte(&mut frame, (crc >> 8u16) as u8);
        proof {
            assert(packet_bytes(frame) =~= framed(packet_bytes(msg)));
        }
        self.clear_port();
        let out = buf_as_slice(&frame);
        let ghost sent0 = self.sent@;
        let mut i: usize = 0;
        while i < out.len()
            invariant
                i <= out@.len(),
                out@ == framed(packet_bytes(msg)),
                self.sent@ == sent0 + out@.subrange(0, i as int),
                self.flush_log == old(self).flush_log.push(old(self).sent@.len()),
                self.clock_log == old(self).clock_log,
                self.rx_log == old(self).rx_log,
                self.rx_result == old(self).rx_result,
                self.rx_deadline_reading == old(self).rx_deadline_reading,
                self.baudrate == old(self).baudrate,
                self.tx_time_per_byte == old(self).tx_time_per_byte,
                self.is_using == old(self).is_using,
            decreases out@.len() - i,
        {
            let b = out[i];
            self.uart.write_byte(b);
            self.sent = Ghost(self.sent@.push(b));
            proof {
                assert(out@.subrange(0, i + 1) =~= out@.subrange(0, i as int).push(out@[i as int]));
            }
            i = i + 1;
        }
        proof {
            assert(out@.subrange(0, out@.len() as int) =~= out@);
        }
        self.set_packet_timeout_length(out.len());
        Ok(())
    }

    /// Ends a receive: records what was read and how it ended.
    fn finish_receive(
        &mut self,
        r: Result<heapless::Vec<u8, 128>, CommunicationResult>,
        Ghost(log): Ghost<Seq<u8>>,
        Ghost(reading): Ghost<Option<u128>>,
    ) -> (out: Result<heapless::Vec<u8, 128>, CommunicationResult>)
        ensures
            out == r,
            final(self).last_deadline_reading() == reading,
            final(self).last_rx_bytes() == log,
            final(self).last_status() == rx_view(r),
            !final(self).spec_is_using(),
            final(self).sent_log() == old(self).sent_log(),
            final(self).flush_points() == old(self).flush_points(),
            final(self).clock_readings() == old(self).clock_readings(),
            final(self).spec_baudrate() == old(self).spec_baudrate(),
            final(self).spec_packet_timeout() == old(self).spec_packet_timeout(),
            final(self).spec_packet_start_time() == old(self).spec_packet_start_time(),
            final(self).spec_tx_time_per_byte() == old(self).spec_tx_time_per_byte(),
    {
        self.is_using = false;
        self.rx_log = Ghost(log);
        self.rx_result = Ghost(rx_view(r));
        self.rx_deadline_reading = Ghost(reading);
        r
    }

    /// Receives one status packet. Each round reads the clock and ends the
    /// receive once the reading lies past the deadline; otherwise it asks the
    /// transport for one byte and, when one came, looks at the buffer with
    /// `scan_buffer` for as long as it holds what it waits for. The result is
    /// `rx_outcome_of` the bytes taken, and no byte is taken once the
    /// outcome is decided. The polling is bounded by `u64::MAX` rounds; a
    /// receive that spends them all ends as one past its deadline.
    pub fn receive_packet(&mut self) -> (r: Result<heapless::Vec<u8, 128>, CommunicationResult>)
        ensures
            final(self).last_status() == rx_view(r),
            final(self).last_status() == rx_outcome_of(final(self).last_rx_bytes()),
            forall|k: int|
                0 <= k < final(self).last_rx_bytes().len() ==> (#[trigger] rx_run(
                    final(self).last_rx_bytes().subrange(0, k),
                )).2 is None,
            receive_outcome(final(self).last_rx_bytes(), final(self).last_status()),
            final(self).last_deadline_reading() is Some ==> rx_run(final(self).last_rx_bytes()).2 is None
                && final(self).last_deadline_reading()->Some_0 > old(self).spec_packet_start_time()
                + old(self).spec_packet_timeout(),
            rx_run(final(self).last_rx_bytes()).2 is Some ==> final(self).last_deadline_reading() is None,
            !final(self).spec_is_using(),
            final(self).clock_readings().len() >= old(self).clock_readings().len(),
            final(self).clock_readings().subrange(0, old(self).clock_readings().len() as int) == old(
                self,
            ).clock_readings(),
            final(self).sent_log() == old(self).sent_log(),
            final(self).flush_points() == old(self).flush_points(),
            final(self).spec_baudrate() == old(self).spec_baudrate(),
            final(self).spec_packet_timeout() == old(self).spec_packet_timeout(),
            final(self).spec_packet_start_time() == old(self).spec_packet_start_time(),
            final(self).spec_tx_time_per_byte() == old(self).spec_tx_time_per_byte(),
            final(self).received_after(*old(self)),
    {
        let mut wait_length: usize = MIN_STATUS_PACKET_LEN;
        let mut msg = buf_new();
        let ghost mut log: Seq<u8> = Seq::empty();
        let mut rounds: u64 = 0;
        proof {
            assert(packet_bytes(msg) =~= tail(log, 0));
            assert(packet_bytes(msg) =~= Seq::<u8>::empty());
            assert(self.clock_log@.subrange(0, self.clock_log@.len() as int) =~= self.clock_log@);
        }
        while rounds < u64::MAX
            invariant
                receiving(log, packet_bytes(msg), wait_length as int),
                status_prefix(log) ==> log.len() < wait_length,
                packet_bytes(msg).len() < wait_length,
                rx_run(log) == (packet_bytes(msg), wait_length as int, None::<
                    Result<Seq<u8>, CommunicationResult>,
                >),
                forall|k: int| 0 <= k <= log.len() ==> (#[trigger] rx_run(log.subrange(0, k))).2 is None,
                self.clock_log@.len() >= old(self).clock_log@.len(),
                self.clock_log@.subrange(0, old(self).clock_log@.len() as int) == old(self).clock_log@,
                self.sent == old(self).sent,
                self.flush_log == old(self).flush_log,
                self.baudrate == old(self).baudrate,
                self.packet_timeout == old(self).packet_timeout,
                self.packet_start_time == old(self).packet_start_time,
                self.tx_time_per_byte == old(self).tx_time_per_byte,
            decreases u64::MAX - rounds,
        {
            rounds = rounds + 1;
            let len: usize = buf_as_slice(&msg).len();
            let ghost clock_before = self.clock_log@;
            let now = self.now_micros();
            proof {
                assert(self.clock_log@.subrange(0, old(self).clock_log@.len() as int) =~= old(
                    self,
                ).clock_log@);
            }
            if self.is_past_deadline(now) {
                return self.finish_receive(deadline_result(len), Ghost(log), Ghost(Some(now)));
            }
            match self.uart.read_byte() {
                None => {},
                Some(b) => {
                    push_byte(&mut msg, b);
                    let ghost old_log = log;
                    proof {
                        log = log.push(b);
                        assert(log.drop_last() =~= old_log);
                        assert(packet_bytes(msg) =~= tail(log, packet_bytes(msg).len() as int));
                        if status_prefix(log) {
                            lemma_prefix_closed(old_log, b);
                            assert(old_log.len() >= 7 ==> length_field(log) == length_field(old_log));
                        }
                        assert forall|k: int| 0 <= k <= old_log.len() implies log.subrange(0, k)
                            == old_log.subrange(0, k) by {
                            assert(log.subrange(0, k) =~= old_log.subrange(0, k));
                        }
                    }
                    let mut len: usize = len + 1;
                    while len >= wait_length
                        invariant
                            len == packet_bytes(msg).len(),
                            receiving(log, packet_bytes(msg), wait_length as int),
                            status_prefix(log) ==> packet_bytes(msg).len() >= wait_length
                                || log.len() < wait_length,
                            rx_settle(packet_bytes(msg), wait_length as int) == rx_run(log),
                            forall|k: int|
                                0 <= k < log.len() ==> (#[trigger] rx_run(log.subrange(0, k))).2 is None,
                            self.clock_log@.len() >= old(self).clock_log@.len(),
                            self.clock_log@.subrange(0, old(self).clock_log@.len() as int) == old(
                                self,
                            ).clock_log@,
                            self.sent == old(self).sent,
                            self.flush_log == old(self).flush_log,
                            self.baudrate == old(self).baudrate,
                            self.packet_timeout == old(self).packet_timeout,
                            self.packet_start_time == old(self).packet_start_time,
                            self.tx_time_per_byte == old(self).tx_time_per_byte,
                        decreases len + (if len >= wait_length { 1int } else { 0int }),
                    {
                        proof {
                            lemma_scan_receiving(log, packet_bytes(msg), wait_length as int);
                        }
                        let (next, next_wait, done) = scan_buffer(msg, wait_length);
                        match done {
                            Some(res) => {
                                proof {
                                    assert(log.subrange(0, log.len() as int) =~= log);
                                }
                                return self.finish_receive(res, Ghost(log), Ghost(None));
                            },
                            None => {
                                msg = next;
                                wait_length = next_wait;
                                len = buf_as_slice(&msg).len();
                            },
                        }
                    }
                    proof {
                        assert(log.subrange(0, log.len() as int) =~= log);
                    }
                },
            }
        }
        // the polling budget is spent: end as an expired deadline does
        let len = buf_as_slice(&msg).len();
        proof {
            assert(log.subrange(0, log.len() as int) =~= log);
        }
        self.finish_receive(deadline_result(len), Ghost(log), Ghost(None))
    }

    /// A draft packet for `id` and `instruction` with room announced for
    /// `n_params` parameters, none of them pushed yet.
    fn start_packet(&self, id: u8, instruction: u8, n_params: u16) -> (r: heapless::Vec<u8, 128>)
        requires
            n_params <= 118,
        ensures
            packet_bytes(r) == draft_head(id, instruction, n_params as nat),
    {
        let length: u16 = n_params + 3;
        let head = self.reserve_msg_header();
        let mut msg = buf_new();
        push_range(&mut msg, head.as_slice(), 0, 4);
        push_byte(&mut msg, id);
        push_u16(&mut msg, length);
        push_byte(&mut msg, instruction);
        proof {
            assert(packet_bytes(msg) =~= draft_head(id, instruction, n_params as nat));
        }
        msg
    }

    /// Pings servo `id` and returns its model number and firmware version.
    pub fn ping(&mut self, id: u8) -> (r: Result<(u16, u8), CommunicationResult>)
        ensures
            final(self).sent_log() == old(self).sent_log() + instruction_packet(
                id,
                0x01,
                Seq::empty(),
            ),
            receive_outcome(final(self).last_rx_bytes(), final(self).last_status()),
            r == after_receive(final(self).last_status(), ping_reply(id, final(self).last_status()->Ok_0)),
            final(self).transacted_from(*old(self)),
    {
        let msg = self.start_packet(id, Instruction::Ping.to_byte(), 0);
        proof {
            assert(packet_bytes(msg) =~= packet_draft(id, 0x01, Seq::empty()));
            lemma_framed_draft(id, 0x01, Seq::empty());
        }
        match self.send_packet(msg) {
            Ok(_) => {},
            Err(e) => return Err(e),
        }
        self.is_using = true;
        let ghost mid = *self;
        let res = self.receive_packet();
        proof {
            Self::lemma_transaction(*old(self), mid, *self);
        }
        match res {
            Ok(status) => check_ping(id, buf_as_slice(&status)),
            Err(e) => Err(e),
        }
    }

    fn send_read_packet(&mut self, id: u8, data_name: ControlTable, data_size: u16) -> (r: Result<
        (),
        CommunicationResult,
    >)
        ensures
            id >= BROADCAST_ID ==> r == Err::<(), CommunicationResult>(CommunicationResult::NotAvailable)
                && final(self).unchanged_from(*old(self)),
            id < BROADCAST_ID ==> r is Ok && final(self).sent_log() == old(self).sent_log() + read_request(
                id,
                data_name,
                data_size,
            ),
            final(self).last_status() == old(self).last_status(),
            final(self).last_rx_bytes() == old(self).last_rx_bytes(),
            id < BROADCAST_ID ==> final(self).sent_one_frame(*old(self)) && final(self).spec_is_using(),
    {
        if id >= BROADCAST_ID {
            return Err(CommunicationResult::NotAvailable);
        }
        let address = data_name.to_address();
        let mut msg = self.start_packet(id, Instruction::Read.to_byte(), 4);
        push_u16(&mut msg, address);
        push_u16(&mut msg, data_size);
        let ghost params = le16(data_name.spec_address()) + le16(data_size);
        proof {
            assert(packet_bytes(msg) =~= packet_draft(id, 0x02, params));
            lemma_framed_draft(id, 0x02, params);
        }
        let r = self.send_packet(msg);
        self.is_using = true;
        r
    }

    fn receive_read_packet(&mut self, id: u8, data_length: u16) -> (r: Result<
        heapless::Vec<u8, 128>,
        CommunicationResult,
    >)
        ensures
            final(self).sent_log() == old(self).sent_log(),
            receive_outcome(final(self).last_rx_bytes(), final(self).last_status()),
            rx_view(r) == read_result(final(self).last_status(), id, data_length),
            final(self).received_after(*old(self)),
    {
        match self.receive_packet() {
            Ok(status) => check_read(id, buf_as_slice(&status), data_length),
            Err(e) => Err(e),
        }
    }

    /// Reads `data_length` bytes of register `data_name` from servo `id`.
    pub fn read(&mut self, id: u8, data_name: ControlTable, data_length: u16) -> (r: Result<
        heapless::Vec<u8, 128>,
        CommunicationResult,
    >)
        ensures
            id >= BROADCAST_ID ==> r == Err::<heapless::Vec<u8, 128>, CommunicationResult>(
                CommunicationResult::NotAvailable,
            ) && final(self).unchanged_from(*old(self)),
            id < BROADCAST_ID ==> final(self).sent_log() == old(self).sent_log() + read_request(
                id,
                data_name,
                data_length,
            ) && receive_outcome(final(self).last_rx_bytes(), final(self).last_status())
                && rx_view(r) == read_result(final(self).last_status(), id, data_length),
            id < BROADCAST_ID ==> final(self).transacted_from(*old(self)),
    {
        match self.send_read_packet(id, data_name, data_length) {
            Ok(_) => {},
            Err(e) => return Err(e),
        }
        let ghost mid = *self;
        let res = self.receive_read_packet(id, data_length);
        proof {
            Self::lemma_transaction(*old(self), mid, *self);
        }
        res
    }

    /// Sends a read request for one byte of register `data_name` of servo `id`.
    pub fn send_1byte_read_packet(&mut self, id: u8, data_name: ControlTable) -> (r: Result<
        (),
        CommunicationResult,
    >)
        ensures
            id >= BROADCAST_ID ==> r == Err::<(), CommunicationResult>(CommunicationResult::NotAvailable)
                && final(self).unchanged_from(*old(self)),
            id < BROADCAST_ID ==> r is Ok && final(self).sent_log() == old(self).sent_log() + read_request(
                id,
                data_name,
                1,
            ),
            id < BROADCAST_ID ==> final(self).sent_one_frame(*old(self)) && final(self).spec_is_using(),
    {
        self.send_read_packet(id, data_name, 1)
    }

    /// Receives the one-byte answer of servo `id` to a read.
    pub fn receive_1byte_read_packet(&mut self, id: u8) -> (r: Result<u8, CommunicationResult>)
        ensures
            final(self).sent_log() == old(self).sent_log(),
            receive_outcome(final(self).last_rx_bytes(), final(self).last_status()),
            r == (match read_result(final(self).last_status(), id, 1) {
                Ok(d) => Ok::<u8, CommunicationResult>(d[0]),
                Err(e) => Err(e),
            }),
    {
        match self.receive_read_packet(id, 1) {
            Ok(v) => Ok(buf_as_slice(&v)[0]),
            Err(e) => Err(e),
        }
    }

    /// Reads one byte of register `data_name` from servo `id`.
    pub fn read_1byte(&mut self, id: u8, data_name: ControlTable) -> (r: Result<u8, CommunicationResult>)
        ensures
            id >= BROADCAST_ID ==> r == Err::<u8, CommunicationResult>(CommunicationResult::NotAvailable)
                && final(self).unchanged_from(*old(self)),
            id < BROADCAST_ID ==> final(self).sent_log() == old(self).sent_log() + read_request(
                id,
                data_name,
                1,
            ) && receive_outcome(final(self).last_rx_bytes(), final(self).last_status())
                && r == (match read_result(final(self).last_status(), id, 1) {
                Ok(d) => Ok::<u8, CommunicationResult>(d[0]),
                Err(e) => Err(e),
            }),
            id < BROADCAST_ID ==> final(self).transacted_from(*old(self)),
    {
        match self.read(id, data_name, 1) {
            Ok(v) => Ok(buf_as_slice(&v)[0]),
            Err(e) => Err(e),
        }
    }

    /// Sends a read request for two bytes of register `data_name` of servo `id`.
    pub fn send_2byte_read_packet(&mut self, id: u8, data_name: ControlTable) -> (r: Result<
        (),
        CommunicationResult,
    >)
        ensures
            id >= BROADCAST_ID ==> r == Err::<(), CommunicationResult>(CommunicationResult::NotAvailable)
                && final(self).unchanged_from(*old(self)),
            id < BROADCAST_ID ==> r is Ok && final(self).sent_log() == old(self).sent_log() + read_request(
                id,
                data_name,
                2,
            ),
            id < BROADCAST_ID ==> final(self).sent_one_frame(*old(self)) && final(self).spec_is_using(),
    {
        self.send_read_packet(id, data_name, 2)
    }

    /// Receives the two-byte answer of servo `id` to a read.
    pub fn receive_2byte_read_packet(&mut self, id: u8) -> (r: Result<u16, CommunicationResult>)
        ensures
            final(self).sent_log() == old(self).sent_log(),
            receive_outcome(final(self).last_rx_bytes(), final(self).last_status()),
            r == (match read_result(final(self).last_status(), id, 2) {
                Ok(d) => Ok::<u16, CommunicationResult>(le_u16(d[0], d[1])),
                Err(e) => Err(e),
            }),
    {
        match self.receive_read_packet(id, 2) {
            Ok(v) => {
                let d = buf_as_slice(&v);
                Ok(le_u16_of(d[0], d[1]))
            },
            Err(e) => Err(e),
        }
    }

    /// Reads two bytes of register `data_name` from servo `id`.
    pub fn read_2byte(&mut self, id: u8, data_name: ControlTable) -> (r: Result<u16, CommunicationResult>)
        ensures
            id >= BROADCAST_ID ==> r == Err::<u16, CommunicationResult>(CommunicationResult::NotAvailable)
                && final(self).unchanged_from(*old(self)),
            id < BROADCAST_ID ==> final(self).sent_log() == old(self).sent_log() + read_request(
                id,
                data_name,
                2,
            ) && receive_outcome(final(self).last_rx_bytes(), final(self).last_status())
                && r == (match read_result(final(self).last_status(), id, 2) {
                Ok(d) => Ok::<u16, CommunicationResult>(le_u16(d[0], d[1])),
                Err(e) => Err(e),
            }),
            id < BROADCAST_ID ==> final(self).transacted_from(*old(self)),
    {
        match self.read(id, data_name, 2) {
            Ok(v) => {
                let d = buf_as_slice(&v);
                Ok(le_u16_of(d[0], d[1]))
            },
            Err(e) => Err(e),
        }
    }

    /// Sends a read request for four bytes of register `data_name` of servo `id`.
    pub fn send_4byte_read_packet(&mut self, id: u8, data_name: ControlTable) -> (r: Result<
        (),
        CommunicationResult,
    >)
        ensures
            id >= BROADCAST_ID ==> r == Err::<(), CommunicationResult>(CommunicationResult::NotAvailable)
                && final(self).unchanged_from(*old(self)),
            id < BROADCAST_ID ==> r is Ok && final(self).sent_log() == old(self).sent_log() + read_request(
                id,
                data_name,
                4,
            ),
            id < BROADCAST_ID ==> final(self).sent_one_frame(*old(self)) && final(self).spec_is_using(),
    {
        self.send_read_packet(id, data_name, 4)
    }

    /// Receives the four-byte answer of servo `id` to a read.
    pub fn receive_4byte_read_packet(&mut self, id: u8) -> (r: Result<u32, CommunicationResult>)
        ensures
            final(self).sent_log() == old(self).sent_log(),
            receive_outcome(final(self).last_rx_bytes(), final(self).last_status()),
            r == (match read_result(final(self).last_status(), id, 4) {
                Ok(d) => Ok::<u32, CommunicationResult>(le_u32(d)),
                Err(e) => Err(e),
            }),
    {
        match self.receive_read_packet(id, 4) {
            Ok(v) => Ok(le_u32_of(buf_as_slice(&v))),
            Err(e) => Err(e),
        }
    }

    /// Reads four bytes of register `data_name` from servo `id`.
    pub fn read_4byte(&mut self, id: u8, data_name: ControlTable) -> (r: Result<u32, CommunicationResult>)
        ensures
            id >= BROADCAST_ID ==> r == Err::<u32, CommunicationResult>(CommunicationResult::NotAvailable)
                && final(self).unchanged_from(*old(self)),
            id < BROADCAST_ID ==> final(self).sent_log() == old(self).sent_log() + read_request(
                id,
                data_name,
                4,
            ) && receive_outcome(final(self).last_rx_bytes(), final(self).last_status())
                && r == (match read_result(final(self).last_status(), id, 4) {
                Ok(d) => Ok::<u32, CommunicationResult>(le_u32(d)),
                Err(e) => Err(e),
            }),
            id < BROADCAST_ID ==> final(self).transacted_from(*old(self)),
    {
        match self.read(id, data_name, 4) {
            Ok(v) => Ok(le_u32_of(buf_as_slice(&v))),
            Err(e) => Err(e),
        }
    }

    /// Sends a write of `data` to register `data_name` of servo `id`, without
    /// waiting for the status. Refused when `id` is not that of a single servo
    /// or `data` does not have the register's width.
    pub fn send_write_packet(&mut self, id: u8, data_name: ControlTable, data: &[u8]) -> (r: Result<
        (),
        CommunicationResult,
    >)
        ensures
            write_refused(id, data_name, data@.len() as int) ==> r == Err::<(), CommunicationResult>(
                CommunicationResult::NotAvailable,
            ) && final(self).unchanged_from(*old(self)),
            !write_refused(id, data_name, data@.len() as int) ==> r is Ok && final(self).sent_log()
                == old(self).sent_log() + write_frame(id, data_name.spec_address(), data@),
            final(self).last_status() == old(self).last_status(),
            final(self).last_rx_bytes() == old(self).last_rx_bytes(),
            !write_refused(id, data_name, data@.len() as int) ==> final(self).sent_one_frame(*old(self)) && !final(self).spec_is_using(),
    {
        if id >= BROADCAST_ID {
            return Err(CommunicationResult::NotAvailable);
        }
        let address = data_name.to_address();
        let size = data_name.to_size();
        if data.len() != size as usize {
            return Err(CommunicationResult::NotAvailable);
        }
        proof {
            crate::control_table::lemma_register_layout(data_name);
        }
        let mut msg = self.start_packet(id, Instruction::Write.to_byte(), 2 + size);
        push_u16(&mut msg, address);
        push_range(&mut msg, data, 0, data.len());
        let ghost params = le16(data_name.spec_address()) + data@;
        proof {
            assert(data@.subrange(0, data@.len() as int) =~= data@);
            assert(packet_bytes(msg) =~= packet_draft(id, 0x03, params));
            lemma_framed_draft(id, 0x03, params);
        }
        let r = self.send_packet(msg);
        self.is_using = false;
        r
    }

    /// Writes `data` to register `data_name` of servo `id` and checks the
    /// status that answers it.
    pub fn write(&mut self, id: u8, data_name: ControlTable, data: &[u8]) -> (r: Result<
        (),
        CommunicationResult,
    >)
        ensures
            write_refused(id, data_name, data@.len() as int) ==> r == Err::<(), CommunicationResult>(
                CommunicationResult::NotAvailable,
            ) && final(self).unchanged_from(*old(self)),
            !write_refused(id, data_name, data@.len() as int) ==> final(self).sent_log() == old(
                self,
            ).sent_log() + write_frame(id, data_name.spec_address(), data@) && receive_outcome(
                final(self).last_rx_bytes(),
                final(self).last_status(),
            ) && r == ack_result(final(self).last_status(), id),
            !write_refused(id, data_name, data@.len() as int) ==> final(self).transacted_from(*old(self)),
    {
        match self.send_write_packet(id, data_name, data) {
            Ok(_) => {},
            Err(e) => return Err(e),
        }
        self.is_using = true;
        let ghost mid = *self;
        let res = self.receive_packet();
        proof {
            Self::lemma_transaction(*old(self), mid, *self);
        }
        match res {
            Ok(status) => check_ack(id, buf_as_slice(&status)),
            Err(e) => Err(e),
        }
    }

    /// Sends a write of the 1-byte value `data` to register `data_name` of servo `id`.
    pub fn send_1byte_write_packet(&mut self, id: u8, data_name: ControlTable, data: u8) -> (r: Result<
        (),
        CommunicationResult,
    >)
        ensures
            write_refused(id, data_name, 1) ==> r == Err::<(), CommunicationResult>(
                CommunicationResult::NotAvailable,
            ) && final(self).unchanged_from(*old(self)),
            !write_refused(id, data_name, 1) ==> r is Ok && final(self).sent_log() == old(self).sent_log()
                + write_frame(id, data_name.spec_address(), seq![data]),
            !write_refused(id, data_name, 1) ==> final(self).sent_one_frame(*old(self)) && !final(self).spec_is_using(),
    {
        let bytes: [u8; 1] = [data];
        proof {
            assert(bytes@ =~= seq![data]);
        }
        self.send_write_packet(id, data_name, bytes.as_slice())
    }

    /// Writes the 1-byte value `data` to register `data_name` of servo `id`.
    pub fn write_1byte(&mut self, id: u8, data_name: ControlTable, data: u8) -> (r: Result<
        (),
        CommunicationResult,
    >)
        ensures
            write_refused(id, data_name, 1) ==> r == Err::<(), CommunicationResult>(
                CommunicationResult::NotAvailable,
            ) && final(self).unchanged_from(*old(self)),
            !write_refused(id, data_name, 1) ==> final(self).sent_log() == old(self).sent_log()
                + write_frame(id, data_name.spec_address(), seq![data]) && receive_outcome(
                final(self).last_rx_bytes(),
                final(self).last_status(),
            ) && r == ack_result(final(self).last_status(), id),
            !write_refused(id, data_name, 1) ==> final(self).transacted_from(*old(self)),
    {
        let bytes: [u8; 1] = [data];
        proof {
            assert(bytes@ =~= seq![data]);
        }
        self.write(id, data_name, bytes.as_slice())
    }

    /// Sends a write of the 2-byte value `data` to register `data_name` of servo `id`.
    pub fn send_2byte_write_packet(&mut self, id: u8, data_name: ControlTable, data: u16) -> (r: Result<
        (),
        CommunicationResult,
    >)
        ensures
            write_refused(id, data_name, 2) ==> r == Err::<(), CommunicationResult>(
                CommunicationResult::NotAvailable,
            ) && final(self).unchanged_from(*old(self)),
            !write_refused(id, data_name, 2) ==> r is Ok && final(self).sent_log() == old(self).sent_log()
                + write_frame(id, data_name.spec_address(), le16(data)),
            !write_refused(id, data_name, 2) ==> final(self).sent_one_frame(*old(self)) && !final(self).spec_is_using(),
    {
        let bytes: [u8; 2] = [(data & 0xffu16) as u8, (data >> 8u16) as u8];
        proof {
            assert(bytes@ =~= le16(data));
        }
        self.send_write_packet(id, data_name, bytes.as_slice())
    }

    /// Writes the 2-byte value `data` to register `data_name` of servo `id`.
    pub fn write_2byte(&mut self, id: u8, data_name: ControlTable, data: u16) -> (r: Result<
        (),
        CommunicationResult,
    >)
        ensures
            write_refused(id, data_name, 2) ==> r == Err::<(), CommunicationResult>(
                CommunicationResult::NotAvailable,
            ) && final(self).unchanged_from(*old(self)),
            !write_refused(id, data_name, 2) ==> final(self).sent_log() == old(self).sent_log()
                + write_frame(id, data_name.spec_address(), le16(data)) && receive_outcome(
                final(self).last_rx_bytes(),
                final(self).last_status(),
            ) && r == ack_result(final(self).last_status(), id),
            !write_refused(id, data_name, 2) ==> final(self).transacted_from(*old(self)),
    {
        let bytes: [u8; 2] = [(data & 0xffu16) as u8, (data >> 8u16) as u8];
        proof {
            assert(bytes@ =~= le16(data));
        }
        self.write(id, data_name, bytes.as_slice())
    }

    /// Sends a write of the 4-byte value `data` to register `data_name` of servo `id`.
    pub fn send_4byte_write_packet(&mut self, id: u8, data_name: ControlTable, data: u32) -> (r: Result<
        (),
        CommunicationResult,
    >)
        ensures
            write_refused(id, data_name, 4) ==> r == Err::<(), CommunicationResult>(
                CommunicationResult::NotAvailable,
            ) && final(self).unchanged_from(*old(self)),
            !write_refused(id, data_name, 4) ==> r is Ok && final(self).sent_log() == old(self).sent_log()
                + write_frame(id, data_name.spec_address(), le32(data)),
            !write_refused(id, data_name, 4) ==> final(self).sent_one_frame(*old(self)) && !final(self).spec_is_using(),
    {
        let bytes: [u8; 4] = [(data & 0xffu32) as u8, ((data >> 8u32) & 0xffu32) as u8, ((data >> 16u32) & 0xffu32) as u8, (data >> 24u32) as u8];
        proof {
            assert(bytes@ =~= le32(data));
        }
        self.send_write_packet(id, data_name, bytes.as_slice())
    }

    /// Writes the 4-byte value `data` to register `data_name` of servo `id`.
    pub fn write_4byte(&mut self, id: u8, data_name: ControlTable, data: u32) -> (r: Result<
        (),
        CommunicationResult,
    >)
        ensures
            write_refused(id, data_name, 4) ==> r == Err::<(), CommunicationResult>(
                CommunicationResult::NotAvailable,
            ) && final(self).unchanged_from(*old(self)),
            !write_refused(id, data_name, 4) ==> final(self).sent_log() == old(self).sent_log()
                + write_frame(id, data_name.spec_address(), le32(data)) && receive_outcome(
                final(self).last_rx_bytes(),
                final(self).last_status(),
            ) && r == ack_result(final(self).last_status(), id),
            !write_refused(id, data_name, 4) ==> final(self).transacted_from(*old(self)),
    {
        let bytes: [u8; 4] = [(data & 0xffu32) as u8, ((data >> 8u32) & 0xffu32) as u8, ((data >> 16u32) & 0xffu32) as u8, (data >> 24u32) as u8];
        proof {
            assert(bytes@ =~= le32(data));
        }
        self.write(id, data_name, bytes.as_slice())
    }

    /// Sends `instruction`, with at most one parameter, to `id` and checks
    /// the status that answers it.
    fn ack_command(&mut self, id: u8, instruction: u8, param: Option<u8>) -> (r: Result<
        (),
        CommunicationResult,
    >)
        ensures
            final(self).sent_log() == old(self).sent_log() + instruction_packet(
                id,
                instruction,
                match param {
                    Some(p) => seq![p],
                    None => Seq::empty(),
                },
            ),
            receive_outcome(final(self).last_rx_bytes(), final(self).last_status()),
            r == ack_result(final(self).last_status(), id),
            final(self).transacted_from(*old(self)),
    {
        let ghost params = match param {
            Some(p) => seq![p],
            None => Seq::<u8>::empty(),
        };
        let msg = match param {
            Some(p) => {
                let mut m = self.start_packet(id, instruction, 1);
                push_byte(&mut m, p);
                m
            },
            None => self.start_packet(id, instruction, 0),
        };
        proof {
            assert(packet_bytes(msg) =~= packet_draft(id, instruction, params));
            lemma_framed_draft(id, instruction, params);
        }
        match self.send_packet(msg) {
            Ok(_) => {},
            Err(e) => return Err(e),
        }
        self.is_using = true;
        let ghost mid = *self;
        let res = self.receive_packet();
        proof {
            Self::lemma_transaction(*old(self), mid, *self);
        }
        match res {
            Ok(status) => check_ack(id, buf_as_slice(&status)),
            Err(e) => Err(e),
        }
    }

    /// Resets servo `id` to factory settings, all but its id and baud rate
    /// (reset mode 0x02).
    pub fn factory_reset(&mut self, id: u8) -> (r: Result<(), CommunicationResult>)
        ensures
            final(self).sent_log() == old(self).sent_log() + instruction_packet(id, 0x06, seq![0x02u8]),
            receive_outcome(final(self).last_rx_bytes(), final(self).last_status()),
            r == ack_result(final(self).last_status(), id),
            final(self).transacted_from(*old(self)),
    {
        self.ack_command(id, Instruction::FactoryReset.to_byte(), Some(0x02))
    }

    /// Reboots servo `id`.
    pub fn reboot(&mut self, id: u8) -> (r: Result<(), CommunicationResult>)
        ensures
            final(self).sent_log() == old(self).sent_log() + instruction_packet(id, 0x08, Seq::empty()),
            receive_outcome(final(self).last_rx_bytes(), final(self).last_status()),
            r == ack_result(final(self).last_status(), id),
            final(self).transacted_from(*old(self)),
    {
        self.ack_command(id, Instruction::Reboot.to_byte(), None)
    }

    /// Asks the servos `id`, in one broadcast, for `data_size` bytes of
    /// register `data_name`. Their answers are taken one by one with the
    /// `receive_*_read_packet` methods.
    pub fn send_sync_read_packet(&mut self, id: &[u8], data_name: ControlTable, data_size: u16) -> (r:
        Result<(), CommunicationResult>)
        requires
            id@.len() <= 114,
        ensures
            r is Ok,
            final(self).sent_log() == old(self).sent_log() + sync_read_request(id@, data_name, data_size),
            final(self).sent_one_frame(*old(self)) && final(self).spec_is_using(),
    {
        let address = data_name.to_address();
        let mut msg = self.start_packet(BROADCAST_ID, Instruction::SyncRead.to_byte(), 4 + id.len() as u16);
        push_u16(&mut msg, address);
        push_u16(&mut msg, data_size);
        push_range(&mut msg, id, 0, id.len());
        let ghost params = le16(data_name.spec_address()) + le16(data_size) + id@;
        proof {
            assert(id@.subrange(0, id@.len() as int) =~= id@);
            assert(packet_bytes(msg) =~= packet_draft(BROADCAST_ID, 0x82, params));
            lemma_framed_draft(BROADCAST_ID, 0x82, params);
        }
        match self.send_packet(msg) {
            Ok(_) => {},
            Err(e) => return Err(e),
        }
        self.is_using = true;
        Ok(())
    }

    /// Writes, in one broadcast, `data_size` bytes of `data` per servo to
    /// register `data_name`: the first block to the first id, and so on. No
    /// status answers it. Refused when `data` does not hold exactly one block
    /// per id.
    pub fn send_sync_write_packet(
        &mut self,
        id: &[u8],
        data: &[u8],
        data_name: ControlTable,
        data_size: u16,
    ) -> (r: Result<(), CommunicationResult>)
        requires
            id@.len() * (1 + data_size) <= 114,
        ensures
            data@.len() != id@.len() * data_size ==> r == Err::<(), CommunicationResult>(
                CommunicationResult::NotAvailable,
            ) && final(self).unchanged_from(*old(self)),
            data@.len() == id@.len() * data_size ==> r is Ok && final(self).sent_log() == old(
                self,
            ).sent_log() + sync_write_request(id@, data@, data_name, data_size),
            data@.len() == id@.len() * data_size ==> final(self).sent_one_frame(*old(self)) && !final(self).spec_is_using(),
    {
        let n = id.len();
        let w = data_size as usize;
        proof {
            assert(n * w <= n * (1 + w)) by (nonlinear_arith);
            assert(n * (1 + w) == n + n * w) by (nonlinear_arith);
        }
        if data.len() != n * w {
            return Err(CommunicationResult::NotAvailable);
        }
        let address = data_name.to_address();
        let mut msg = self.start_packet(
            BROADCAST_ID,
            Instruction::SyncWrite.to_byte(),
            (4 + n * (1 + w)) as u16,
        );
        push_u16(&mut msg, address);
        push_u16(&mut msg, data_size);
        let ghost head = packet_bytes(msg);
        let mut i: usize = 0;
        while i < n
            invariant
                i <= n,
                n == id@.len(),
                data@.len() == n * w,
                n + n * w <= 114,
                head.len() == 12,
                packet_bytes(msg) == head + sync_write_blocks(id@.subrange(0, i as int), data@, w as int),
                packet_bytes(msg).len() == 12 + i * (1 + w),
            decreases n - i,
        {
            proof {
                assert((i + 1) * w <= n * w) by (nonlinear_arith)
                    requires
                        i < n,
                ;
                assert((i + 1) * w == i * w + w) by (nonlinear_arith);
                assert(i * (1 + w) + 1 + w <= n * (1 + w)) by (nonlinear_arith)
                    requires
                        i < n,
                ;
                assert(i * (1 + w) == i + i * w) by (nonlinear_arith);
                assert((i + 1) * (1 + w) == i * (1 + w) + 1 + w) by (nonlinear_arith);
            }
            let ghost before = packet_bytes(msg);
            push_byte(&mut msg, id[i]);
            push_range(&mut msg, data, i * w, i * w + w);
            proof {
                let ids = id@.subrange(0, i + 1);
                assert(ids.drop_last() =~= id@.subrange(0, i as int));
                assert(ids.last() == id@[i as int]);
                assert(sync_write_blocks(ids, data@, w as int) == sync_write_blocks(
                    id@.subrange(0, i as int),
                    data@,
                    w as int,
                ) + seq![id@[i as int]] + data@.subrange(i * w, (i + 1) * w));
                assert(packet_bytes(msg) =~= head + sync_write_blocks(ids, data@, w as int));
            }
            i = i + 1;
        }
        let ghost params = le16(data_name.spec_address()) + le16(data_size) + sync_write_blocks(
            id@,
            data@,
            w as int,
        );
        proof {
            assert(id@.subrange(0, n as int) =~= id@);
            assert(packet_bytes(msg) =~= packet_draft(BROADCAST_ID, 0x83, params));
            lemma_framed_draft(BROADCAST_ID, 0x83, params);
        }
        match self.send_packet(msg) {
            Ok(_) => {},
            Err(e) => return Err(e),
        }
        self.is_using = false;
        Ok(())
    }

    /// Sets the operating mode of servo `id`.
    pub fn set_operating_mode(&mut self, id: u8, data: OperatingMode) -> (r: Result<
        (),
        CommunicationResult,
    >)
        ensures
            id >= BROADCAST_ID ==> r == Err::<(), CommunicationResult>(CommunicationResult::NotAvailable)
                && final(self).unchanged_from(*old(self)),
            id < BROADCAST_ID ==> final(self).sent_log() == old(self).sent_log() + write_frame(
                id,
                11,
                seq![data.spec_value()],
            ) && receive_outcome(final(self).last_rx_bytes(), final(self).last_status()) && r
                == ack_result(final(self).last_status(), id),
            id < BROADCAST_ID ==> final(self).transacted_from(*old(self)),
    {
        self.write_1byte(id, ControlTable::OperatingMode, data.to_value())
    }

    /// Turns the LED of servo `id` on (`data` 1) or off (0), without waiting
    /// for the status.
    pub fn set_led(&mut self, id: u8, data: u8)
        requires
            id < BROADCAST_ID,
        ensures
            final(self).sent_log() == old(self).sent_log() + write_frame(id, 65, seq![data]),
            final(self).sent_one_frame(*old(self)) && !final(self).spec_is_using(),
    {
        let bytes: [u8; 1] = [data];
        proof {
            assert(bytes@ =~= seq![data]);
        }
        let _ = self.send_write_packet(id, ControlTable::LED, bytes.as_slice());
    }

    /// Enables (`data` 1) or disables (0) the torque of servo `id`.
    pub fn set_torque_enable(&mut self, id: u8, data: u8) -> (r: Result<(), CommunicationResult>)
        ensures
            id >= BROADCAST_ID ==> r == Err::<(), CommunicationResult>(CommunicationResult::NotAvailable)
                && final(self).unchanged_from(*old(self)),
            id < BROADCAST_ID ==> final(self).sent_log() == old(self).sent_log() + write_frame(
                id,
                64,
                seq![data],
            ) && receive_outcome(final(self).last_rx_bytes(), final(self).last_status()) && r
                == ack_result(final(self).last_status(), id),
            id < BROADCAST_ID ==> final(self).transacted_from(*old(self)),
    {
        self.write_1byte(id, ControlTable::TorqueEnable, data)
    }
}

} // verus!
