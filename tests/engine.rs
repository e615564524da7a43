use core::cell::Cell;
use core::time::Duration;
use dynamixel_driver::crc::calc_crc_value;
use dynamixel_driver::packet_handler::{check_ack, check_ping, check_read, scan_buffer, ErrorBit, Packet, BROADCAST_ID};
use dynamixel_driver::{Clock, CommunicationResult, ControlTable, DynamixelControl, Interface, OperatingMode};
use std::collections::VecDeque;

/// A transport that delivers a fixed script of bytes and records what is written.
struct ScriptSerial {
    incoming: VecDeque<u8>,
    written: std::vec::Vec<u8>,
    clears: usize,
}

impl ScriptSerial {
    fn new(incoming: &[u8]) -> Self {
        ScriptSerial { incoming: incoming.iter().cloned().collect(), written: std::vec::Vec::new(), clears: 0 }
    }
}

impl Interface for &mut ScriptSerial {
    fn write_byte(&mut self, data: u8) {
        self.written.push(data);
    }
    fn write_bytes(&mut self, data: &[u8]) {
        self.written.extend_from_slice(data);
    }
    fn read_byte(&mut self) -> Option<u8> {
        self.incoming.pop_front()
    }
    fn read_bytes(&mut self, buf: &mut [u8]) -> Option<usize> {
        let mut n = 0;
        while n < buf.len() {
            match self.incoming.pop_front() {
                Some(b) => buf[n] = b,
                None => break,
            }
            n += 1;
        }
        Some(n)
    }
    fn clear_read_buf(&mut self) {
        self.clears += 1;
    }
}

/// A clock that advances ten microseconds every time it is read.
struct TickingClock {
    now: Cell<u64>,
}

impl TickingClock {
    fn new() -> Self {
        TickingClock { now: Cell::new(0) }
    }
}

impl Clock for &TickingClock {
    fn get_current_time(&self) -> Duration {
        let t = self.now.get();
        self.now.set(t + 1);
        Duration::from_micros(10 * t)
    }
}

const PING_STATUS: [u8; 14] = [0xFF, 0xFF, 0xFD, 0x00, 0x01, 0x07, 0x00, 0x55, 0x00, 0x06, 0x04, 0x26, 0x65, 0x5D];
const READ_STATUS: [u8; 15] =
    [0xFF, 0xFF, 0xFD, 0x00, 0x01, 0x08, 0x00, 0x55, 0x00, 0xA6, 0x00, 0x00, 0x00, 0x8C, 0xC0];
const ACK_STATUS: [u8; 11] = [0xFF, 0xFF, 0xFD, 0x00, 0x01, 0x04, 0x00, 0x55, 0x00, 0xA1, 0x0C];

fn crc_of_frame_holds(frame: &[u8]) -> bool {
    let n = frame.len();
    calc_crc_value(&frame[..n - 2]) == (frame[n - 2] as u16 | (frame[n - 1] as u16) << 8)
}

#[test]
fn receive_returns_clean_status_packet() {
    let mut uart = ScriptSerial::new(&PING_STATUS);
    let clock = TickingClock::new();
    let mut dxl = DynamixelControl::new(&mut uart, &clock, 115200);
    dxl.set_packet_timeout_millis(10);
    let r = dxl.receive_packet().unwrap();
    assert_eq!(r, PING_STATUS);
}

#[test]
fn receive_skips_garbage_before_header() {
    let mut script = std::vec::Vec::from([0x12u8, 0xFF, 0x00, 0xFF, 0xFF]);
    script.extend_from_slice(&READ_STATUS);
    let mut uart = ScriptSerial::new(&script);
    let clock = TickingClock::new();
    let mut dxl = DynamixelControl::new(&mut uart, &clock, 115200);
    dxl.set_packet_timeout_millis(10);
    let r = dxl.receive_packet().unwrap();
    assert_eq!(r, READ_STATUS);
}

#[test]
fn receive_drops_non_status_header() {
    // an instruction packet (ping) echoed on the line, then the status
    let mut script = std::vec::Vec::from([0xFFu8, 0xFF, 0xFD, 0x00, 0x01, 0x03, 0x00, 0x01, 0x19, 0x4E]);
    script.extend_from_slice(&ACK_STATUS);
    let mut uart = ScriptSerial::new(&script);
    let clock = TickingClock::new();
    let mut dxl = DynamixelControl::new(&mut uart, &clock, 115200);
    dxl.set_packet_timeout_millis(10);
    let r = dxl.receive_packet().unwrap();
    assert_eq!(r, ACK_STATUS);
}

#[test]
fn receive_reports_crc_error() {
    let mut bad = READ_STATUS;
    bad[13] ^= 0x01;
    let mut uart = ScriptSerial::new(&bad);
    let clock = TickingClock::new();
    let mut dxl = DynamixelControl::new(&mut uart, &clock, 115200);
    dxl.set_packet_timeout_millis(10);
    assert_eq!(dxl.receive_packet(), Err(CommunicationResult::RxCRCError));
}

#[test]
fn receive_times_out_when_nothing_arrives() {
    let mut uart = ScriptSerial::new(&[]);
    let clock = TickingClock::new();
    let mut dxl = DynamixelControl::new(&mut uart, &clock, 115200);
    dxl.set_packet_timeout_millis(5);
    assert_eq!(dxl.receive_packet(), Err(CommunicationResult::RxTimeout));
    assert!(clock.now.get() > 500);
}

#[test]
fn receive_corrupt_when_packet_is_cut_short() {
    let mut uart = ScriptSerial::new(&READ_STATUS[..9]);
    let clock = TickingClock::new();
    let mut dxl = DynamixelControl::new(&mut uart, &clock, 115200);
    dxl.set_packet_timeout_millis(5);
    assert_eq!(dxl.receive_packet(), Err(CommunicationResult::RxCorrupt));
}

#[test]
fn sent_frames_carry_their_crc() {
    let mut uart = ScriptSerial::new(&[]);
    let clock = TickingClock::new();
    let mut dxl = DynamixelControl::new(&mut uart, &clock, 115200);
    dxl.send_sync_read_packet(&[1, 2, 3], ControlTable::PresentVelocity, 4).unwrap();
    dxl.send_1byte_write_packet(7, ControlTable::LED, 1).unwrap();
    dxl.send_4byte_read_packet(3, ControlTable::GoalPosition).unwrap();
    drop(dxl);
    let w = &uart.written;
    assert_eq!(w.len(), 17 + 13 + 14);
    assert!(crc_of_frame_holds(&w[..17]));
    assert!(crc_of_frame_holds(&w[17..30]));
    assert!(crc_of_frame_holds(&w[30..]));
    assert_eq!(uart.clears, 3);
}

#[test]
fn write_frame_gives_back_id_address_and_data() {
    let mut uart = ScriptSerial::new(&[]);
    let clock = TickingClock::new();
    let mut dxl = DynamixelControl::new(&mut uart, &clock, 57600);
    dxl.send_2byte_write_packet(9, ControlTable::GoalCurrent, 0xBEEF).unwrap();
    drop(dxl);
    let f = &uart.written;
    assert_eq!(f[4], 9);
    assert_eq!(f[7], 0x03);
    assert_eq!(u16::from_le_bytes([f[5], f[6]]) as usize, f.len() - 7);
    assert_eq!(u16::from_le_bytes([f[8], f[9]]), 102);
    assert_eq!(&f[10..12], &[0xEF, 0xBE]);
    assert!(crc_of_frame_holds(f));
}

#[test]
fn crc_is_pure() {
    let a = [0xFFu8, 0xFF, 0xFD, 0x00, 0x01, 0x04, 0x00, 0x06, 0x02];
    let first = calc_crc_value(&a);
    let _ = calc_crc_value(&[1, 2, 3, 4, 5]);
    assert_eq!(calc_crc_value(&a), first);
    assert_eq!(first, 0xE6AB);
    assert_eq!(calc_crc_value(&[]), 0);
}

#[test]
fn read_with_broadcast_id_is_not_available() {
    let mut uart = ScriptSerial::new(&[]);
    let clock = TickingClock::new();
    let mut dxl = DynamixelControl::new(&mut uart, &clock, 115200);
    assert_eq!(dxl.read_4byte(BROADCAST_ID, ControlTable::PresentPosition), Err(CommunicationResult::NotAvailable));
    assert_eq!(dxl.read_1byte(0xFF, ControlTable::ID), Err(CommunicationResult::NotAvailable));
    drop(dxl);
    assert!(uart.written.is_empty());
}

#[test]
fn write_with_wrong_width_is_not_available() {
    let mut uart = ScriptSerial::new(&[]);
    let clock = TickingClock::new();
    let mut dxl = DynamixelControl::new(&mut uart, &clock, 115200);
    assert_eq!(dxl.write_1byte(1, ControlTable::GoalPosition, 3), Err(CommunicationResult::NotAvailable));
    assert_eq!(dxl.write(1, ControlTable::LED, &[1, 2]), Err(CommunicationResult::NotAvailable));
    assert_eq!(dxl.write_2byte(BROADCAST_ID, ControlTable::CurrentLimit, 3), Err(CommunicationResult::NotAvailable));
    drop(dxl);
    assert!(uart.written.is_empty());
}

#[test]
fn ping_status_from_other_id_went_wrong() {
    assert_eq!(check_ping(2, &PING_STATUS), Err(CommunicationResult::SomethingWentWrong));
    assert_eq!(check_ping(1, &PING_STATUS), Ok((0x0406, 0x26)));
    assert_eq!(check_ping(1, &ACK_STATUS), Err(CommunicationResult::SomethingWentWrong));
}

#[test]
fn status_checks() {
    assert_eq!(check_ack(1, &ACK_STATUS), Ok(()));
    assert_eq!(check_ack(3, &ACK_STATUS), Err(CommunicationResult::SomethingWentWrong));
    assert_eq!(check_ack(1, &READ_STATUS), Err(CommunicationResult::SomethingWentWrong));
    // error byte set: 0x80 alert plus the CRC over the changed packet
    let mut alert = [0xFFu8, 0xFF, 0xFD, 0x00, 0x01, 0x04, 0x00, 0x55, 0x80, 0, 0];
    let c = calc_crc_value(&alert[..9]);
    alert[9] = (c & 0xFF) as u8;
    alert[10] = (c >> 8) as u8;
    assert_eq!(check_ack(1, &alert), Err(CommunicationResult::SomethingWentWrong));
    assert_eq!(check_read(1, &READ_STATUS, 4).unwrap(), [0xA6, 0, 0, 0]);
    assert_eq!(check_read(1, &READ_STATUS, 2), Err(CommunicationResult::SomethingWentWrong));
    assert_eq!(check_read(2, &READ_STATUS, 4), Err(CommunicationResult::SomethingWentWrong));
    // a read answered with the error byte set
    let mut failed = [0xFFu8, 0xFF, 0xFD, 0x00, 0x01, 0x05, 0x00, 0x55, 0x07, 0x2A, 0, 0];
    let c = calc_crc_value(&failed[..10]);
    failed[10] = (c & 0xFF) as u8;
    failed[11] = (c >> 8) as u8;
    assert_eq!(check_read(1, &failed, 1), Err(CommunicationResult::SomethingWentWrong));
}

#[test]
fn sync_write_with_mismatched_data_is_not_available() {
    let mut uart = ScriptSerial::new(&[]);
    let clock = TickingClock::new();
    let mut dxl = DynamixelControl::new(&mut uart, &clock, 115200);
    let r = dxl.send_sync_write_packet(&[1, 2], &[0x96, 0, 0, 0], ControlTable::GoalPosition, 4);
    assert_eq!(r, Err(CommunicationResult::NotAvailable));
    drop(dxl);
    assert!(uart.written.is_empty());
}

#[test]
fn set_operating_mode_sends_mode_value() {
    let mut uart = ScriptSerial::new(&[]);
    let clock = TickingClock::new();
    let mut dxl = DynamixelControl::new(&mut uart, &clock, 115200);
    // nothing answers: the receive times out once the deadline passes
    let r = dxl.set_operating_mode(1, OperatingMode::CurrentBasedPositionControlMode);
    assert_eq!(r, Err(CommunicationResult::RxTimeout));
    drop(dxl);
    assert_eq!(uart.written[..11], [0xFF, 0xFF, 0xFD, 0x00, 0x01, 0x06, 0x00, 0x03, 11, 0x00, 5]);
}

#[test]
fn timeout_follows_baudrate() {
    let mut uart = ScriptSerial::new(&[]);
    let clock = TickingClock::new();
    let mut dxl = DynamixelControl::new(&mut uart, &clock, 1_000_000);
    dxl.set_packet_timeout_length(10);
    assert_eq!(dxl.packet_timeout_micros(), 10 * 8 + 4000);
    dxl.set_packet_timeout_micros(123);
    assert_eq!(dxl.packet_timeout_micros(), 123);
    assert!(dxl.is_past_deadline(u128::MAX));
}

#[test]
fn outcome_messages() {
    assert_eq!(CommunicationResult::RxTimeout.message(), "[TxRxResult] There is no status packet!");
    assert_eq!(CommunicationResult::RxCRCError.message(), "[TxRxResult] Incorrect Rx CRC!");
    assert_eq!(CommunicationResult::Success.message(), "[TxRxResult] Communication success.");
}

#[test]
fn frame_positions_and_error_bits() {
    assert_eq!(Packet::Header0.to_pos(), 0);
    assert_eq!(Packet::Id.to_pos(), 4);
    assert_eq!(Packet::LengthH.to_pos(), 6);
    assert_eq!(Packet::Instruction.to_pos(), 7);
    assert_eq!(Packet::Parameter0.to_pos(), 8);
    assert_eq!(u8::from(ErrorBit::ErrNone), 0);
    assert_eq!(u8::from(ErrorBit::ErrDataLimit), 6);
    assert_eq!(u8::from(ErrorBit::ErrAccess), 7);
    assert_eq!(ErrorBit::ErrAlert.to_byte(), 0x80);
}

#[test]
fn draft_header_is_reserved() {
    let mut uart = ScriptSerial::new(&[]);
    let clock = TickingClock::new();
    let dxl = DynamixelControl::new(&mut uart, &clock, 115200);
    assert_eq!(dxl.reserve_msg_header(), [0, 0, 0, 0]);
}

#[test]
fn send_packet_stamps_header_and_crc() {
    let mut uart = ScriptSerial::new(&[0x42]);
    let clock = TickingClock::new();
    let mut dxl = DynamixelControl::new(&mut uart, &clock, 115200);
    let draft = heapless::Vec::<u8, 128>::from_slice(&[0, 0, 0, 0, 0x01, 0x03, 0x00, 0x08]).unwrap();
    assert_eq!(dxl.send_packet(draft), Ok(()));
    drop(dxl);
    assert_eq!(uart.written, [0xFF, 0xFF, 0xFD, 0x00, 0x01, 0x03, 0x00, 0x08, 0x2F, 0x4E]);
    assert_eq!(uart.clears, 1);
}

/// A transport that never runs dry: it hands out the same byte forever.
struct EndlessSerial {
    byte: u8,
}

impl Interface for &mut EndlessSerial {
    fn write_byte(&mut self, _data: u8) {}
    fn write_bytes(&mut self, _data: &[u8]) {}
    fn read_byte(&mut self) -> Option<u8> {
        Some(self.byte)
    }
    fn read_bytes(&mut self, buf: &mut [u8]) -> Option<usize> {
        for b in buf.iter_mut() {
            *b = self.byte;
        }
        Some(buf.len())
    }
    fn clear_read_buf(&mut self) {}
}

#[test]
fn endless_garbage_ends_at_deadline() {
    let mut uart = EndlessSerial { byte: 0x00 };
    let clock = TickingClock::new();
    let mut dxl = DynamixelControl::new(&mut uart, &clock, 115200);
    dxl.set_packet_timeout_millis(20);
    assert_eq!(dxl.receive_packet(), Err(CommunicationResult::RxCorrupt));
}

#[test]
fn receive_leaves_following_bytes_queued() {
    let mut script = std::vec::Vec::from([0x01u8, 0x02, 0x03]);
    script.extend_from_slice(&ACK_STATUS);
    script.extend_from_slice(&[0x77, 0x78]);
    let mut uart = ScriptSerial::new(&script);
    let clock = TickingClock::new();
    let mut dxl = DynamixelControl::new(&mut uart, &clock, 115200);
    dxl.set_packet_timeout_millis(50);
    assert_eq!(dxl.receive_packet().unwrap(), ACK_STATUS);
    drop(dxl);
    assert_eq!(uart.incoming, [0x77, 0x78]);
}

#[test]
fn garbage_then_bad_crc_is_crc_error() {
    let mut bad = ACK_STATUS;
    bad[10] ^= 0xFF;
    let mut script = std::vec::Vec::from([0x10u8, 0x20, 0x30, 0x40]);
    script.extend_from_slice(&bad);
    let mut uart = ScriptSerial::new(&script);
    let clock = TickingClock::new();
    let mut dxl = DynamixelControl::new(&mut uart, &clock, 115200);
    dxl.set_packet_timeout_millis(50);
    assert_eq!(dxl.receive_packet(), Err(CommunicationResult::RxCRCError));
}

fn buffer_of(bytes: &[u8]) -> heapless::Vec<u8, 128> {
    heapless::Vec::from_slice(bytes).unwrap()
}

#[test]
fn scan_steps() {
    // garbage before a header is dropped
    let mut g = std::vec::Vec::from([0x05u8, 0x06]);
    g.extend_from_slice(&READ_STATUS[..9]);
    let (next, wait, done) = scan_buffer(buffer_of(&g), 11);
    assert_eq!(next, READ_STATUS[..9]);
    assert_eq!(wait, 11);
    assert!(done.is_none());
    // a header that cannot open a status packet loses its first byte
    let ping = [0xFFu8, 0xFF, 0xFD, 0x00, 0x01, 0x03, 0x00, 0x01, 0x19, 0x4E, 0xFF];
    let (next, wait, done) = scan_buffer(buffer_of(&ping), 11);
    assert_eq!(next, ping[1..]);
    assert_eq!(wait, 11);
    assert!(done.is_none());
    // a good header that announces more bytes raises the awaited length
    let (next, wait, done) = scan_buffer(buffer_of(&READ_STATUS[..11]), 11);
    assert_eq!(next, READ_STATUS[..11]);
    assert_eq!(wait, 15);
    assert!(done.is_none());
    // a complete packet ends the receive
    let (_, wait, done) = scan_buffer(buffer_of(&READ_STATUS), 15);
    assert_eq!(wait, 15);
    assert_eq!(done.unwrap().unwrap(), READ_STATUS);
    let mut bad = READ_STATUS;
    bad[14] ^= 1;
    let (_, _, done) = scan_buffer(buffer_of(&bad), 15);
    assert_eq!(done.unwrap(), Err(CommunicationResult::RxCRCError));
}
