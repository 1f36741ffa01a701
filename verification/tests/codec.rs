//! Wrapper and wire-format codecs.

use it8951_video::wrappers::{CommandBlockWrapper, CommandStatusWrapper, Direction};

#[test]
fn cbw_encode_layout() {
    let w = CommandBlockWrapper {
        signature: [0x55, 0x53, 0x42, 0x43],
        tag: 0x0403_0201,
        data_transfer_length: 0x0000_0070,
        flags: 0x80,
        logical_unit_number: 0,
        command_length: 16,
        command_data: [
            0xfe, 0x00, 0x38, 0x39, 0x35, 0x31, 0x80, 0x00, 0x01, 0x00, 0x02, 0x00, 0x00, 0x00,
            0x00, 0x00,
        ],
    };
    let bytes = w.encode();
    assert_eq!(bytes.len(), 31);
    // signature "USBC"
    assert_eq!(&bytes[0..4], &[0x55, 0x53, 0x42, 0x43]);
    // tag, little-endian
    assert_eq!(&bytes[4..8], &[0x01, 0x02, 0x03, 0x04]);
    // transfer length, little-endian
    assert_eq!(&bytes[8..12], &[0x70, 0x00, 0x00, 0x00]);
    assert_eq!(bytes[12], 0x80);
    assert_eq!(bytes[13], 0x00);
    assert_eq!(bytes[14], 16);
    assert_eq!(&bytes[15..31], &w.command_data);
}

#[test]
fn cbw_round_trip() {
    let w = CommandBlockWrapper {
        signature: [0x55, 0x53, 0x42, 0x43],
        tag: 0xdead_beef,
        data_transfer_length: 322_752,
        flags: 0x00,
        logical_unit_number: 0,
        command_length: 16,
        command_data: [9, 8, 7, 6, 5, 4, 3, 2, 1, 0, 11, 12, 13, 14, 15, 16],
    };
    let bytes = w.encode();
    let back = CommandBlockWrapper::decode(&bytes).expect("decode of encoding must succeed");
    assert_eq!(back, w);
}

#[test]
fn cbw_decode_rejects_wrong_length() {
    assert!(CommandBlockWrapper::decode(&[0u8; 30]).is_err());
    assert!(CommandBlockWrapper::decode(&[0u8; 32]).is_err());
    assert!(CommandBlockWrapper::decode(&[]).is_err());
}

#[test]
fn csw_round_trip() {
    let w = CommandStatusWrapper {
        signature: [0x55, 0x53, 0x42, 0x53],
        tag: 42,
        data_residue: 7,
        status: 0,
    };
    let bytes = w.encode();
    assert_eq!(bytes.len(), 13);
    assert_eq!(&bytes[0..4], &[0x55, 0x53, 0x42, 0x53]);
    assert_eq!(&bytes[4..8], &[42, 0, 0, 0]);
    assert_eq!(&bytes[8..12], &[7, 0, 0, 0]);
    assert_eq!(bytes[12], 0);
    let back = CommandStatusWrapper::decode(&bytes).expect("decode of encoding must succeed");
    assert_eq!(back, w);
}

#[test]
fn csw_decode_rejects_wrong_length() {
    assert!(CommandStatusWrapper::decode(&[0u8; 12]).is_err());
    assert!(CommandStatusWrapper::decode(&[0u8; 14]).is_err());
}

#[test]
fn direction_flags() {
    assert_eq!(Direction::IN.flags(), 0x80);
    assert_eq!(Direction::OUT.flags(), 0x00);
}
