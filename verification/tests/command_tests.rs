//! Device command blocks and fixed-layout replies.

use it8951_video::commands::{
    decode_inquiry, decode_register_value, decode_system_info, display_area_command,
    fast_write_command, get_sys_command, inquiry_command, read_reg_command, vcom_command,
    write_reg_command, DisplayArea, Mode,
};

#[test]
fn get_sys_command_layout() {
    let c = get_sys_command();
    assert_eq!(
        c,
        [0xfe, 0x00, 0x38, 0x39, 0x35, 0x31, 0x80, 0x00, 0x01, 0x00, 0x02, 0x00, 0x00, 0x00, 0x00,
            0x00]
    );
}

#[test]
fn read_reg_command_layout() {
    let c = read_reg_command(0x1800_1138);
    assert_eq!(
        c,
        [0xfe, 0x00, 0x18, 0x00, 0x11, 0x38, 0x83, 0x00, 0x04, 0x00, 0x00, 0x00, 0x00, 0x00, 0x00,
            0x00]
    );
}

#[test]
fn write_reg_command_layout() {
    let c = write_reg_command(0x1800_124c);
    assert_eq!(
        c,
        [0xfe, 0x00, 0x18, 0x00, 0x12, 0x4c, 0x84, 0x00, 0x04, 0x00, 0x00, 0x00, 0x00, 0x00, 0x00,
            0x00]
    );
}

#[test]
fn fast_write_command_layout() {
    let c = fast_write_command(0x0011_2233, 0xabcd);
    assert_eq!(
        c,
        [0xfe, 0x00, 0x00, 0x11, 0x22, 0x33, 0xa5, 0xab, 0xcd, 0x00, 0x00, 0x00, 0x00, 0x00, 0x00,
            0x00]
    );
}

#[test]
fn vcom_command_layout() {
    // -1.58 V travels as the magnitude 1580 = 0x062c, big-endian, with the
    // commit flag set.
    let c = vcom_command(1580);
    assert_eq!(
        c,
        [0xfe, 0x00, 0x00, 0x00, 0x00, 0x00, 0xa3, 0x06, 0x2c, 0x01, 0x00, 0x00, 0x00, 0x00, 0x00,
            0x00]
    );
}

#[test]
fn display_area_command_layout() {
    let c = display_area_command();
    assert_eq!(
        c,
        [0xfe, 0x00, 0x00, 0x00, 0x00, 0x00, 0x94, 0x00, 0x00, 0x00, 0x00, 0x00, 0x00, 0x00, 0x00,
            0x00]
    );
}

#[test]
fn inquiry_command_layout() {
    let c = inquiry_command();
    assert_eq!(c[0], 0x12);
    assert_eq!(c[4], 0x28);
}

#[test]
fn display_area_encoding() {
    let area = DisplayArea {
        address: 0x0011_9f50,
        display_mode: Mode::GL16,
        x: 8,
        y: 6,
        width: 1856,
        height: 1392,
        wait_ready: 1,
    };
    let bytes = area.encode();
    assert_eq!(bytes.len(), 28);
    assert_eq!(&bytes[0..4], &[0x00, 0x11, 0x9f, 0x50]);
    assert_eq!(&bytes[4..8], &[0, 0, 0, 3]); // GL16 is mode 3
    assert_eq!(&bytes[8..12], &[0, 0, 0, 8]);
    assert_eq!(&bytes[12..16], &[0, 0, 0, 6]);
    assert_eq!(&bytes[16..20], &[0x00, 0x00, 0x07, 0x40]); // 1856
    assert_eq!(&bytes[20..24], &[0x00, 0x00, 0x05, 0x70]); // 1392
    assert_eq!(&bytes[24..28], &[0, 0, 0, 1]);
}

#[test]
fn mode_numbers_round_trip() {
    let modes = [
        Mode::INIT,
        Mode::DU,
        Mode::GC16,
        Mode::GL16,
        Mode::GLR16,
        Mode::GLD16,
        Mode::A2,
        Mode::DU4,
    ];
    for (i, m) in modes.iter().enumerate() {
        assert_eq!(m.number(), i as u32);
        assert_eq!(Mode::from_number(i as u32), *m);
    }
    // The controller sometimes reports stray numbers like 154.
    assert_eq!(Mode::from_number(154), Mode::UNKNOWN);
    assert_eq!(Mode::from_number(8), Mode::UNKNOWN);
}

#[test]
fn system_info_decoding() {
    let mut buf = vec![0u8; 112];
    // width 1872 at offset 16, height 1404 at offset 20, big-endian.
    buf[16..20].copy_from_slice(&1872u32.to_be_bytes());
    buf[20..24].copy_from_slice(&1404u32.to_be_bytes());
    buf[28..32].copy_from_slice(&0x0011_9f50u32.to_be_bytes());
    buf[36..40].copy_from_slice(&2u32.to_be_bytes());
    buf[44..48].copy_from_slice(&77u32.to_be_bytes());
    let info = decode_system_info(&buf).expect("112 bytes must decode");
    assert_eq!(info.width, 1872);
    assert_eq!(info.height, 1404);
    assert_eq!(info.image_buffer_base, 0x0011_9f50);
    assert_eq!(info.mode, Mode::GC16);
    assert_eq!(info.frame_count[1], 77);
    assert!(decode_system_info(&buf[..111]).is_err());
    assert!(decode_system_info(&[]).is_err());
}

#[test]
fn register_value_decoding() {
    assert_eq!(decode_register_value(&[0x12, 0x34, 0x56, 0x78]).unwrap(), 0x1234_5678);
    assert!(decode_register_value(&[1, 2, 3]).is_err());
    assert!(decode_register_value(&[1, 2, 3, 4, 5]).is_err());
}

#[test]
fn inquiry_decoding_trims_padding() {
    let mut buf = vec![0u8; 40];
    buf[8..16].copy_from_slice(b"Generic ");
    buf[16..32].copy_from_slice(b"Storage RamDisc ");
    buf[32..36].copy_from_slice(b"1.00");
    let q = decode_inquiry(&buf).expect("40 bytes must decode");
    assert_eq!(q.vendor, b"Generic".to_vec());
    assert_eq!(q.product, b"Storage RamDisc".to_vec());
    assert_eq!(q.revision, b"1.00".to_vec());
    assert!(decode_inquiry(&buf[..36]).is_err());
}
