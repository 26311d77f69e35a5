use dnp3::error::{FrameError, LogicError, ParseError};
use dnp3::link::crc::{calc_crc, calc_crc_with_0564};
use dnp3::link::header::{Ctrl, Function, Header};
use dnp3::link::parser::{Frame, Parser};
use dnp3::util::cursor::{ReadCursor, ReadError};

#[test]
fn header_parse_catches_bad_length() {
    // CRC is the 0x21E9 at the end (little endian)
    let frame: [u8; 10] = [0x05, 0x64, 0x04, 0xC0, 0x01, 0x00, 0x00, 0x04, 0xE9, 0x21];

    let mut parser = Parser::new();
    let mut cursor = ReadCursor::new(&frame);

    assert_eq!(parser.parse_one(&mut cursor), Ok(None));
    assert_eq!(cursor.len(), 9);

    assert_eq!(parser.parse_one(&mut cursor), Ok(None));
    assert_eq!(cursor.len(), 8);

    assert_eq!(
        parser.parse_one(&mut cursor),
        Err(ParseError::BadFrame(FrameError::BadLength(4)))
    );
    assert_eq!(cursor.len(), 0);
}

#[test]
fn header_parse_catches_bad_crc() {
    // CRC is the 0x21E9 at the end (little endian)
    let frame: [u8; 10] = [0x05, 0x64, 0x05, 0xC0, 0x01, 0x00, 0x00, 0x04, 0xE9, 0x20];

    let mut parser = Parser::new();
    let mut cursor = ReadCursor::new(&frame);

    assert_eq!(parser.parse_one(&mut cursor), Ok(None));
    assert_eq!(cursor.len(), 9);

    assert_eq!(parser.parse_one(&mut cursor), Ok(None));
    assert_eq!(cursor.len(), 8);

    assert_eq!(
        parser.parse_one(&mut cursor),
        Err(ParseError::BadFrame(FrameError::BadHeaderCRC))
    );
    assert_eq!(cursor.len(), 0);
}

#[test]
fn returns_frame_for_length_of_five() {
    // CRC is the 0x21E9 at the end (little endian)
    let frame: [u8; 10] = [0x05, 0x64, 0x05, 0xC0, 0x01, 0x00, 0x00, 0x04, 0xE9, 0x21];

    let mut parser = Parser::new();
    let mut cursor = ReadCursor::new(&frame);

    assert_eq!(parser.parse_one(&mut cursor), Ok(None));
    assert_eq!(cursor.len(), 9);

    assert_eq!(parser.parse_one(&mut cursor), Ok(None));
    assert_eq!(cursor.len(), 8);

    assert_eq!(parser.parse_one(&mut cursor), Ok(None));
    assert_eq!(cursor.len(), 0);

    assert_eq!(
        parser.parse_one(&mut cursor),
        Ok(Some(Frame::new(
            Header {
                ctrl: Ctrl {
                    func: Function::PriResetLinkStates,
                    master: true,
                    fcb: false,
                    fcv: false
                },
                dest: 1,
                src: 1024
            },
            &[]
        )))
    );
    assert_eq!(cursor.len(), 0);
}

/// Builds a frame the way a sender would: header with its CRC, then the
/// payload in blocks of 16 bytes, each followed by its CRC.
fn build_frame(ctrl: u8, dest: u16, src: u16, payload: &[u8]) -> Vec<u8> {
    let mut header = vec![(payload.len() + 5) as u8, ctrl];
    header.extend_from_slice(&dest.to_le_bytes());
    header.extend_from_slice(&src.to_le_bytes());
    let mut out = vec![0x05, 0x64];
    out.extend_from_slice(&header);
    out.extend_from_slice(&calc_crc_with_0564(&header).to_le_bytes());
    for block in payload.chunks(16) {
        out.extend_from_slice(block);
        out.extend_from_slice(&calc_crc(block).to_le_bytes());
    }
    out
}

#[test]
fn crc_matches_the_dnp3_check_value() {
    assert_eq!(calc_crc(b"123456789"), 0xEA82);
    assert_eq!(calc_crc(&[]), 0xFFFF);
    assert_eq!(calc_crc_with_0564(&[0x05, 0xC0, 0x01, 0x00, 0x00, 0x04]), 0x21E9);
    assert_eq!(
        calc_crc_with_0564(&[0x05, 0xC0, 0x01, 0x00, 0x00, 0x04]),
        calc_crc(&[0x05, 0x64, 0x05, 0xC0, 0x01, 0x00, 0x00, 0x04])
    );
}

#[test]
fn frame_with_two_blocks_round_trips() {
    let payload: Vec<u8> = (0u8..20).collect();
    let mut bytes = build_frame(0x44, 1024, 1, &payload);
    // 10 header bytes, 16 + 2 and 4 + 2 body bytes
    assert_eq!(bytes.len(), 10 + 18 + 6);
    bytes.push(0xAA);
    let mut parser = Parser::new();
    let mut cursor = ReadCursor::new(&bytes);
    assert_eq!(parser.parse_one(&mut cursor), Ok(None));
    assert_eq!(parser.parse_one(&mut cursor), Ok(None));
    assert_eq!(parser.parse_one(&mut cursor), Ok(None));
    assert_eq!(cursor.len(), 25);
    let expected = Frame::new(
        Header::new(
            Ctrl { func: Function::PriUnconfirmedUserData, master: false, fcb: false, fcv: false },
            1024,
            1,
        ),
        &payload,
    );
    assert_eq!(parser.parse_one(&mut cursor), Ok(Some(expected)));
    assert_eq!(cursor.len(), 1);
}

#[test]
fn largest_frame_round_trips() {
    let payload: Vec<u8> = (0..250).map(|x: u32| (x * 7 % 256) as u8).collect();
    let bytes = build_frame(0xC4, 7, 9, &payload);
    // 250 = 15 * 16 + 10: 16 blocks, 32 CRC bytes
    assert_eq!(bytes.len(), 10 + 250 + 32);
    let mut parser = Parser::new();
    let mut cursor = ReadCursor::new(&bytes);
    for _ in 0..3 {
        assert_eq!(parser.parse_one(&mut cursor), Ok(None));
    }
    let frame = parser.parse_one(&mut cursor);
    let expected_header = Header::new(Ctrl::from(0xC4), 7, 9);
    assert_eq!(frame, Ok(Some(Frame::new(expected_header, &payload))));
    assert!(cursor.is_empty());
}

#[test]
fn body_crc_error_is_reported() {
    let payload = [1u8, 2, 3];
    let mut bytes = build_frame(0x44, 1, 2, &payload);
    let last = bytes.len() - 1;
    bytes[last] ^= 0xFF;
    let mut parser = Parser::new();
    let mut cursor = ReadCursor::new(&bytes);
    for _ in 0..3 {
        assert_eq!(parser.parse_one(&mut cursor), Ok(None));
    }
    assert_eq!(
        parser.parse_one(&mut cursor),
        Err(ParseError::BadFrame(FrameError::BadBodyCRC))
    );
    assert_eq!(cursor.len(), 0);
}

#[test]
fn noise_before_a_frame_is_skipped() {
    let mut bytes = vec![0x00, 0x64, 0xFF];
    bytes.extend_from_slice(&build_frame(0xC0, 1, 1024, &[]));
    let mut parser = Parser::new();
    let mut cursor = ReadCursor::new(&bytes);
    for remaining in [12, 11, 10, 9, 8, 0] {
        assert_eq!(parser.parse_one(&mut cursor), Ok(None));
        assert_eq!(cursor.len(), remaining);
    }
    let expected = Frame::new(Header::new(Ctrl::from(0xC0), 1, 1024), &[]);
    assert_eq!(parser.parse_one(&mut cursor), Ok(Some(expected)));
}

#[test]
fn second_start_byte_mismatch_restarts_the_search() {
    let bytes = [0x05, 0x05, 0x05, 0x64];
    let mut parser = Parser::new();
    let mut cursor = ReadCursor::new(&bytes);
    assert_eq!(parser.parse_one(&mut cursor), Ok(None)); // 0x05: sync 1 found
    assert_eq!(parser.parse_one(&mut cursor), Ok(None)); // 0x05 is no 0x64: search again
    assert_eq!(parser.parse_one(&mut cursor), Ok(None)); // 0x05: sync 1 found
    assert_eq!(parser.parse_one(&mut cursor), Ok(None)); // 0x64: header next
    assert!(cursor.is_empty());
}

#[test]
fn bytes_arriving_in_pieces_are_awaited() {
    let payload = [9u8; 17];
    let bytes = build_frame(0x44, 3, 4, &payload);
    let mut parser = Parser::new();

    let mut cursor = ReadCursor::new(&bytes[..6]);
    assert_eq!(parser.parse_one(&mut cursor), Ok(None));
    assert_eq!(parser.parse_one(&mut cursor), Ok(None));
    // only four header bytes: the parser waits and takes nothing
    assert_eq!(parser.parse_one(&mut cursor), Ok(None));
    assert_eq!(cursor.len(), 4);

    let mut cursor = ReadCursor::new(&bytes[2..20]);
    assert_eq!(parser.parse_one(&mut cursor), Ok(None));
    assert_eq!(cursor.len(), 10);
    // the body is 17 + 4 bytes long: not there yet
    assert_eq!(parser.parse_one(&mut cursor), Ok(None));
    assert_eq!(cursor.len(), 10);

    let mut cursor = ReadCursor::new(&bytes[10..]);
    let expected = Frame::new(Header::new(Ctrl::from(0x44), 3, 4), &payload);
    assert_eq!(parser.parse_one(&mut cursor), Ok(Some(expected)));
    assert!(cursor.is_empty());
}

#[test]
fn control_byte_fields() {
    assert_eq!(
        Ctrl::from(0x73),
        Ctrl { func: Function::PriConfirmedUserData, master: false, fcb: true, fcv: true }
    );
    assert_eq!(
        Ctrl::from(0x8B),
        Ctrl { func: Function::SecLinkStatus, master: true, fcb: false, fcv: false }
    );
    assert_eq!(
        Ctrl::from(0x4A),
        Ctrl { func: Function::Unknown(0x4A), master: false, fcb: false, fcv: false }
    );
    assert_eq!(Ctrl::from(0x49).func, Function::PriRequestLinkStatus);
    assert_eq!(Ctrl::from(0x42).func, Function::PriTestLinkStates);
    assert_eq!(Ctrl::from(0x00).func, Function::SecAck);
    assert_eq!(Ctrl::from(0x01).func, Function::SecNack);
    assert_eq!(Ctrl::from(0x0F).func, Function::SecNotSupported);
    assert_eq!(Function::from_code(0x02), Function::Unknown(0x02));
}

#[test]
fn cursor_reads_and_refuses_short_input() {
    let bytes = [0x34u8, 0x12, 0xAB];
    let mut cursor = ReadCursor::new(&bytes);
    assert_eq!(cursor.read_u16_le(), Ok(0x1234));
    assert_eq!(cursor.read_u16_le(), Err(ReadError));
    assert_eq!(cursor.len(), 1);
    assert_eq!(cursor.read_bytes(2), Err(ReadError));
    assert_eq!(cursor.read_bytes(1), Ok(&[0xABu8][..]));
    assert!(cursor.is_empty());
    assert_eq!(cursor.read_u8(), Err(ReadError));
}

#[test]
fn errors_convert_into_parse_errors() {
    assert_eq!(ParseError::from(ReadError), ParseError::BadLogic(LogicError::BadRead));
    assert_eq!(ParseError::from(FrameError::BadHeaderCRC), ParseError::BadFrame(FrameError::BadHeaderCRC));
    assert_eq!(ParseError::from(LogicError::BadSize), ParseError::BadLogic(LogicError::BadSize));
}
