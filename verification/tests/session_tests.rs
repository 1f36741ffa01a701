//! The device session: VCOM precondition, register access, display
//! operations.

use it8951_video::commands::{decode_system_info, Mode, SystemInfo};
use it8951_video::errors::Error;
use it8951_video::session::{
    color_map_value, display_ctrl_1bpp_value, pitch_register_value, system_info_transfer, Session,
};
use it8951_video::transport::TagCounter;

fn panel_info(width: u32, height: u32) -> SystemInfo {
    let mut buf = vec![0u8; 112];
    buf[16..20].copy_from_slice(&width.to_be_bytes());
    buf[20..24].copy_from_slice(&height.to_be_bytes());
    buf[28..32].copy_from_slice(&0x0011_9f50u32.to_be_bytes());
    decode_system_info(&buf).expect("112 bytes must decode")
}

fn session_1856x1392() -> Session {
    Session::new(panel_info(1872, 1404), 1856, 1392, TagCounter::new())
        .expect("target fits the panel")
}

fn command_of(wrapper: &[u8]) -> &[u8] {
    &wrapper[15..31]
}

#[test]
fn session_rejects_target_larger_than_panel() {
    let r = Session::new(panel_info(1872, 1404), 1873, 1404, TagCounter::new());
    assert_eq!(r.err(), Some(Error::Resource));
    let r2 = Session::new(panel_info(1872, 1404), 1872, 1405, TagCounter::new());
    assert_eq!(r2.err(), Some(Error::Resource));
    assert!(Session::new(panel_info(1872, 1404), 1872, 1404, TagCounter::new()).is_ok());
}

#[test]
fn vcom_rejects_out_of_range_values() {
    let mut s = session_1856x1392();
    // Boundary and positive cases: 0.0 V, -5.0 V and +1.0 V all fail
    // before any I/O.
    assert_eq!(s.set_vcom(0).err(), Some(Error::Precondition));
    assert_eq!(s.set_vcom(-5000).err(), Some(Error::Precondition));
    assert_eq!(s.set_vcom(1000).err(), Some(Error::Precondition));
    assert_eq!(s.set_vcom(-5001).err(), Some(Error::Precondition));
}

#[test]
fn vcom_encodes_magnitude() {
    let mut s = session_1856x1392();
    // -1.58 V succeeds and encodes the magnitude 1580.
    let t = s.set_vcom(-1580).expect("-1.58 V is in range");
    let cmd = command_of(t.wrapper_bytes()).to_vec();
    assert_eq!(cmd[6], 0xa3);
    assert_eq!(u16::from_be_bytes([cmd[7], cmd[8]]), 1580);
    assert_eq!(cmd[9], 0x01);
}

#[test]
fn set_memory_caps_one_call_at_16_bits() {
    let mut s = session_1856x1392();
    let t = s.set_memory(0x100, &[1, 2, 3]).expect("small write");
    let cmd = command_of(t.wrapper_bytes()).to_vec();
    assert_eq!(cmd[6], 0xa5);
    assert_eq!(u16::from_be_bytes([cmd[7], cmd[8]]), 3);
    assert_eq!(t.payload, vec![1, 2, 3]);
    assert!(s.set_memory(0x100, &vec![0u8; 65535]).is_ok());
    assert_eq!(s.set_memory(0x100, &vec![0u8; 65536]).err(), Some(Error::Precondition));
}

#[test]
fn display_image_centers_the_target() {
    let mut s = session_1856x1392();
    let t = s.display_image(0x0011_9f50, Mode::GL16);
    // The display-area record travels in the data phase: address, mode,
    // x = (1872 - 1856) / 2 = 8, y = (1404 - 1392) / 2 = 6, size, wait.
    let p = &t.payload;
    assert_eq!(p.len(), 28);
    assert_eq!(&p[0..4], &0x0011_9f50u32.to_be_bytes());
    assert_eq!(&p[4..8], &3u32.to_be_bytes());
    assert_eq!(&p[8..12], &8u32.to_be_bytes());
    assert_eq!(&p[12..16], &6u32.to_be_bytes());
    assert_eq!(&p[16..20], &1856u32.to_be_bytes());
    assert_eq!(&p[20..24], &1392u32.to_be_bytes());
    assert_eq!(&p[24..28], &1u32.to_be_bytes());
}

#[test]
fn clear_display_covers_the_full_panel_in_init_mode() {
    let mut s = session_1856x1392();
    let t = s.clear_display();
    let p = &t.payload;
    assert_eq!(&p[0..4], &0u32.to_be_bytes());
    assert_eq!(&p[4..8], &0u32.to_be_bytes()); // INIT is mode 0
    assert_eq!(&p[8..12], &0u32.to_be_bytes());
    assert_eq!(&p[12..16], &0u32.to_be_bytes());
    assert_eq!(&p[16..20], &1872u32.to_be_bytes());
    assert_eq!(&p[20..24], &1404u32.to_be_bytes());
    assert_eq!(&p[24..28], &1u32.to_be_bytes());
}

#[test]
fn register_transfers_use_the_register_commands() {
    let mut s = session_1856x1392();
    let t = s.get_memory_register_value(0x1800_1138);
    assert_eq!(t.expected, 4);
    assert_eq!(command_of(t.wrapper_bytes())[6], 0x83);
    let t2 = s.set_memory_register_value(0x1800_124c, 58);
    assert_eq!(command_of(t2.wrapper_bytes())[6], 0x84);
    assert_eq!(t2.payload, 58u32.to_be_bytes().to_vec());
}

#[test]
fn system_info_transfer_requests_112_bytes() {
    let mut tags = TagCounter::new();
    let t = system_info_transfer(&mut tags);
    assert_eq!(t.expected, 112);
    let w = t.wrapper_bytes();
    // Expected transfer length, little-endian at bytes 8..12.
    assert_eq!(u32::from_le_bytes([w[8], w[9], w[10], w[11]]), 112);
    assert_eq!(w[12], 0x80); // device-to-host
    assert_eq!(command_of(w)[6], 0x80);
}

#[test]
fn connect_time_register_values() {
    assert_eq!(display_ctrl_1bpp_value(0x0000_1234), 0x0006_1234);
    assert_eq!(color_map_value(), 0xf0);
    assert_eq!(pitch_register_value(1856), 58);
}

#[test]
fn cached_system_info_needs_no_io() {
    let s = session_1856x1392();
    assert_eq!(s.get_system_info().width, 1872);
    assert_eq!(s.get_system_info().height, 1404);
}
