use hidp::header::Header;
use hidp::{handshake, message_type, protocol, report_type};

#[test]
fn header_new_keeps_both_fields() {
    let header = Header::new(0xA, 0x3);
    assert_eq!(header.message_type(), 0xA);
    assert_eq!(header.parameter(), 0x3);
}

#[test]
fn header_new_does_not_validate() {
    let header = Header::new(0x1F, 0xFF);
    assert_eq!(header.message_type(), 0x1F);
    assert_eq!(header.parameter(), 0xFF);
}

#[test]
fn header_from_byte_splits_nibbles() {
    let header = Header::from_byte(0xA1);
    assert_eq!(header.message_type(), 0xA);
    assert_eq!(header.parameter(), 0x1);
    let header = Header::from_byte(0x00);
    assert_eq!(header.message_type(), 0x0);
    assert_eq!(header.parameter(), 0x0);
    let header = Header::from_byte(0xFF);
    assert_eq!(header.message_type(), 0xF);
    assert_eq!(header.parameter(), 0xF);
    let header = Header::from_byte(0x4E);
    assert_eq!(header.message_type(), 0x4);
    assert_eq!(header.parameter(), 0xE);
}

#[test]
fn header_to_byte_packs_nibbles() {
    assert_eq!(Header::new(0xA, 0x3).to_byte(), 0xA3);
    assert_eq!(Header::new(0x0, 0x0).to_byte(), 0x00);
    assert_eq!(Header::new(0xF, 0xF).to_byte(), 0xFF);
    assert_eq!(Header::new(0x7, 0x1).to_byte(), 0x71);
    assert_eq!(Header::new(0x4, 0x1).to_byte(), 16 * 4 + 1);
}

#[test]
fn header_to_byte_with_wide_fields() {
    // The high bits of the message type are shifted out.
    assert_eq!(Header::new(0x1F, 0x0).to_byte(), 0xF0);
    // The high bits of the parameter land in the message-type field.
    assert_eq!(Header::new(0x0, 0x1F).to_byte(), 0x1F);
    assert_eq!(Header::new(0x4, 0x23).to_byte(), 0x63);
}

#[test]
fn header_packing_round_trips_for_all_nibbles() {
    for t in 0u8..16 {
        for p in 0u8..16 {
            let byte = Header::new(t, p).to_byte();
            assert_eq!(byte, t * 16 + p);
            let header = Header::from_byte(byte);
            assert_eq!(header.message_type(), t);
            assert_eq!(header.parameter(), p);
        }
    }
}

#[test]
fn header_byte_round_trips_for_all_bytes() {
    for byte in 0u8..=255 {
        let header = Header::from_byte(byte);
        assert!(header.message_type() <= 0xF);
        assert!(header.parameter() <= 0xF);
        assert_eq!(header.message_type(), byte / 16);
        assert_eq!(header.parameter(), byte % 16);
        assert_eq!(header.to_byte(), byte);
    }
}

#[test]
fn header_from_trait_matches_from_byte() {
    let header = Header::from(0x5Cu8);
    assert_eq!(header.message_type(), 0x5);
    assert_eq!(header.parameter(), 0xC);
    let header: Header = 0xA2u8.into();
    assert_eq!(header.message_type(), 0xA);
    assert_eq!(header.parameter(), 0x2);
}

#[test]
fn header_into_byte_matches_to_byte() {
    assert_eq!(u8::from(Header::new(0x6, 0x0)), 0x60);
    let byte: u8 = Header::new(0x1, 0x5).into();
    assert_eq!(byte, 0x15);
}

#[test]
fn message_type_codes() {
    assert_eq!(message_type::HANDSHAKE, 0x0);
    assert_eq!(message_type::HID_CONTROL, 0x1);
    assert_eq!(message_type::GET_REPORT, 0x4);
    assert_eq!(message_type::SET_REPORT, 0x5);
    assert_eq!(message_type::GET_PROTOCOL, 0x6);
    assert_eq!(message_type::SET_PROTOCOL, 0x7);
    assert_eq!(message_type::DATA, 0xA);
}

#[test]
fn handshake_result_codes() {
    assert_eq!(handshake::SUCCESSFUL, 0x0);
    assert_eq!(handshake::NOT_READY, 0x1);
    assert_eq!(handshake::ERR_INVALID_REPORT_ID, 0x2);
    assert_eq!(handshake::ERR_UNSUPPORTED_REQUEST, 0x3);
    assert_eq!(handshake::ERR_INVALID_PARAMETER, 0x4);
    assert_eq!(handshake::ERR_UNKNOWN, 0xE);
    assert_eq!(handshake::ERR_FATAL, 0xF);
}

#[test]
fn protocol_mode_codes() {
    assert_eq!(protocol::BOOT, 0x0);
    assert_eq!(protocol::REPORT, 0x1);
}

#[test]
fn report_type_codes() {
    assert_eq!(report_type::OTHER, 0);
    assert_eq!(report_type::INPUT, 1);
    assert_eq!(report_type::OUTPUT, 2);
    assert_eq!(report_type::FEATURE, 3);
}
