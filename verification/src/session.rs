//! One connected session with the controller.
//!
//! A `Session` holds the system-information snapshot read at connect time,
//! the target image size, and the tag counter, and turns every operation of
//! the device command layer into a fully specified [`Transfer`] for the
//! caller to run against the USB endpoints. Opening and claiming the device
//! is the caller's business; the session begins once the system information
//! has been read and decoded.

use vstd::prelude::*;

use crate::commands::{
    display_area_command, fast_write_command, get_sys_command, inquiry_command, read_reg_command,
    spec_display_area_command, spec_fast_write_command, spec_get_sys_command,
    spec_inquiry_command, spec_read_reg_command, spec_vcom_command, spec_write_reg_command,
    vcom_command, write_reg_command, DisplayArea, Mode, SystemInfo, INQUIRY_LEN, SYSTEM_INFO_LEN,
};
use crate::errors::Error;
use crate::transport::{spec_command_wrapper, spec_next_tag, TagCounter, Transfer, TransferPhase};
use crate::wire::{spec_u32_to_be_bytes, u32_be_array};
use crate::wrappers::Direction;

verus! {

/// Address of the IN (device-to-host) bulk endpoint.
pub const ENDPOINT_IN: u8 = 0x81;

/// Address of the OUT (host-to-device) bulk endpoint.
pub const ENDPOINT_OUT: u8 = 0x02;

/// Wall-clock timeout of one bulk transfer, in milliseconds.
pub const SCSI_TIMEOUT_MS: u64 = 1000;

/// USB vendor ID of the controller.
pub const VENDOR_ID: u16 = 0x048d;

/// USB product ID of the controller.
pub const PRODUCT_ID: u16 = 0x8951;

/// Register holding the bit-depth and pitch-mode flags.
pub const REG_DISPLAY_CTRL: u32 = 0x1800_1138;

/// Register holding the bitmap color mapping.
pub const REG_COLOR_MAP: u32 = 0x1800_1250;

/// Register holding the image pitch width.
pub const REG_PITCH: u32 = 0x1800_124c;

/// The display-control register value that enables 1-bit drawing and image
/// pitch mode: the register with bits 17 and 18 set.
pub fn display_ctrl_1bpp_value(reg: u32) -> (r: u32)
    ensures
        r == reg | 0x0006_0000u32,
{
    let r = reg | (1u32 << 18) | (1u32 << 17);
    proof {
        assert(reg | (1u32 << 18) | (1u32 << 17) == reg | 0x0006_0000u32) by (bit_vector);
    }
    r
}

/// The bitmap color mapping used for playback: bit value 0 paints black
/// (0x00), bit value 1 paints white (0xf0).
pub fn color_map_value() -> (r: u32)
    ensures
        r == 0xf0u32,
{
    let r: u32 = 0xf0 | (0x00 << 8);
    proof {
        assert(0xf0u32 | (0x00u32 << 8) == 0xf0u32) by (bit_vector);
    }
    r
}

/// The pitch-register value for a target width: the row width in units of
/// 32 pixels (width in pixels over 8 bits per byte over 4 bytes).
pub fn pitch_register_value(width: u32) -> (r: u32)
    ensures
        r == width / 32,
{
    (width / 8) / 4
}

/// Build the transfer that reads the 112-byte system-information snapshot;
/// it runs before any session exists.
pub fn system_info_transfer(tags: &mut TagCounter) -> (t: Transfer)
    ensures
        t.wf(),
        t.phase == TransferPhase::SendCommand,
        t.direction == Direction::IN,
        t.expected == SYSTEM_INFO_LEN,
        t.wrapper@ == spec_command_wrapper(
            old(tags).next,
            SYSTEM_INFO_LEN as u32,
            Direction::IN,
            spec_get_sys_command(),
        ),
        final(tags).next == spec_next_tag(old(tags).next),
{
    let command = get_sys_command();
    Transfer::start_read(tags, &command, SYSTEM_INFO_LEN as u32)
}

/// A connected session: the cached system information, the target image
/// size, and the tag counter the session draws from.
pub struct Session {
    /// The snapshot read at connect time; read-only for the session's life.
    pub system_info: SystemInfo,
    /// Target image width in pixels.
    pub width: u32,
    /// Target image height in pixels.
    pub height: u32,
    /// Source of command-wrapper tags.
    pub tags: TagCounter,
}

impl Session {
    /// What every session keeps: the target image fits on the panel.
    pub open spec fn wf(self) -> bool {
        &&& self.width <= self.system_info.width
        &&& self.height <= self.system_info.height
    }

    /// Open a session over a decoded system-information snapshot. A target
    /// larger than the panel is a resource error, refused before any
    /// further I/O.
    pub fn new(system_info: SystemInfo, width: u32, height: u32, tags: TagCounter) -> (r: Result<
        Session,
        Error,
    >)
        ensures
            match r {
                Ok(s) => {
                    &&& s.wf()
                    &&& width <= system_info.width && height <= system_info.height
                    &&& s.system_info == system_info
                    &&& s.width == width
                    &&& s.height == height
                    &&& s.tags == tags
                },
                Err(e) => {
                    &&& e == Error::Resource
                    &&& !(width <= system_info.width && height <= system_info.height)
                },
            },
    {
        if width > system_info.width || height > system_info.height {
            return Err(Error::Resource);
        }
        Ok(Session { system_info, width, height, tags })
    }

    /// The cached system information; no I/O happens.
    pub fn get_system_info(&self) -> (r: &SystemInfo)
        ensures
            r == &self.system_info,
    {
        &self.system_info
    }

    /// Build the transfer that reads the 4-byte register at `address`.
    /// Decode its data with [`crate::commands::decode_register_value`] once
    /// the transfer completes.
    pub fn get_memory_register_value(&mut self, address: u32) -> (t: Transfer)
        ensures
            t.wf(),
            t.phase == TransferPhase::SendCommand,
            t.direction == Direction::IN,
            t.expected == 4,
            t.wrapper@ == spec_command_wrapper(
                old(self).tags.next,
                4,
                Direction::IN,
                spec_read_reg_command(address),
            ),
            *final(self) == (Session {
                tags: TagCounter { next: spec_next_tag(old(self).tags.next) },
                ..*old(self)
            }),
    {
        let command = read_reg_command(address);
        Transfer::start_read(&mut self.tags, &command, 4)
    }

    /// Build the transfer that writes the 4-byte register at `address`; the
    /// big-endian value travels in the data phase.
    pub fn set_memory_register_value(&mut self, address: u32, value: u32) -> (t: Transfer)
        ensures
            t.wf(),
            t.phase == TransferPhase::SendCommand,
            t.direction == Direction::OUT,
            t.payload@ == spec_u32_to_be_bytes(value),
            t.wrapper@ == spec_command_wrapper(
                old(self).tags.next,
                4,
                Direction::OUT,
                spec_write_reg_command(address),
            ),
            *final(self) == (Session {
                tags: TagCounter { next: spec_next_tag(old(self).tags.next) },
                ..*old(self)
            }),
    {
        let command = write_reg_command(address);
        let value_bytes = u32_be_array(value);
        let mut payload: Vec<u8> = Vec::new();
        crate::wire::push_bytes(&mut payload, &value_bytes);
        proof {
            assert(payload@ =~= spec_u32_to_be_bytes(value));
        }
        Transfer::start_write(&mut self.tags, &command, payload)
    }

    /// Build the transfer that sets the panel's VCOM bias.
    ///
    /// The voltage is given as signed millivolts and must lie strictly
    /// between -5 V and 0 V; anything else is a caller error, refused
    /// before any I/O. On success the command carries the absolute
    /// millivolt magnitude (for example -1580 mV travels as 1580) and the
    /// commit flag.
    pub fn set_vcom(&mut self, vcom_millivolts: i32) -> (r: Result<Transfer, Error>)
        ensures
            match r {
                Ok(t) => {
                    &&& -5000 < vcom_millivolts < 0
                    &&& t.wf()
                    &&& t.phase == TransferPhase::SendCommand
                    &&& t.direction == Direction::OUT
                    &&& t.payload@.len() == 0
                    &&& t.wrapper@ == spec_command_wrapper(
                        old(self).tags.next,
                        0,
                        Direction::OUT,
                        spec_vcom_command((-vcom_millivolts) as u16),
                    )
                    &&& *final(self) == (Session {
                        tags: TagCounter { next: spec_next_tag(old(self).tags.next) },
                        ..*old(self)
                    })
                },
                Err(e) => {
                    &&& e == Error::Precondition
                    &&& !(-5000 < vcom_millivolts < 0)
                    &&& *final(self) == *old(self)
                },
            },
    {
        if vcom_millivolts <= -5000 || vcom_millivolts >= 0 {
            return Err(Error::Precondition);
        }
        let millivolts = (-vcom_millivolts) as u16;
        let command = vcom_command(millivolts);
        Ok(Transfer::start_write(&mut self.tags, &command, Vec::new()))
    }

    /// Build the transfer that writes `data` to controller memory at
    /// `address` with the fast-write opcode.
    ///
    /// The command's length field is 16 bits wide, so one call moves at
    /// most 65535 bytes; a longer buffer must be chunked by the caller (see
    /// [`crate::banding`]) and is refused here before any I/O.
    pub fn set_memory(&mut self, address: u32, data: &[u8]) -> (r: Result<Transfer, Error>)
        ensures
            match r {
                Ok(t) => {
                    &&& data@.len() <= 0xffff
                    &&& t.wf()
                    &&& t.phase == TransferPhase::SendCommand
                    &&& t.direction == Direction::OUT
                    &&& t.payload@ == data@
                    &&& t.wrapper@ == spec_command_wrapper(
                        old(self).tags.next,
                        data@.len() as u32,
                        Direction::OUT,
                        spec_fast_write_command(address, data@.len() as u16),
                    )
                    &&& *final(self) == (Session {
                        tags: TagCounter { next: spec_next_tag(old(self).tags.next) },
                        ..*old(self)
                    })
                },
                Err(e) => {
                    &&& e == Error::Precondition
                    &&& data@.len() > 0xffff
                    &&& *final(self) == *old(self)
                },
            },
    {
        if data.len() > 0xffff {
            return Err(Error::Precondition);
        }
        let command = fast_write_command(address, data.len() as u16);
        let payload = vstd::slice::slice_to_vec(data);
        Ok(Transfer::start_write(&mut self.tags, &command, payload))
    }

    /// Build the transfer that displays the image at `address`, centered on
    /// the panel, with the given refresh mode, waiting for the panel to
    /// latch the update.
    pub fn display_image(&mut self, address: u32, mode: Mode) -> (t: Transfer)
        requires
            old(self).wf(),
        ensures
            t.wf(),
            t.phase == TransferPhase::SendCommand,
            t.direction == Direction::OUT,
            t.payload@ == (DisplayArea {
                address,
                display_mode: mode,
                x: ((old(self).system_info.width - old(self).width) / 2) as u32,
                y: ((old(self).system_info.height - old(self).height) / 2) as u32,
                width: old(self).width,
                height: old(self).height,
                wait_ready: 1,
            }).spec_encode(),
            t.wrapper@ == spec_command_wrapper(
                old(self).tags.next,
                28,
                Direction::OUT,
                spec_display_area_command(),
            ),
            *final(self) == (Session {
                tags: TagCounter { next: spec_next_tag(old(self).tags.next) },
                ..*old(self)
            }),
    {
        let area = DisplayArea {
            address,
            display_mode: mode,
            x: (self.system_info.width - self.width) / 2,
            y: (self.system_info.height - self.height) / 2,
            width: self.width,
            height: self.height,
            wait_ready: 1,
        };
        let command = display_area_command();
        let payload = area.encode();
        Transfer::start_write(&mut self.tags, &command, payload)
    }

    /// Build the transfer that erases the whole panel to white: a
    /// display-area operation in INIT mode over the full panel — the
    /// required parting idiom on shutdown.
    pub fn clear_display(&mut self) -> (t: Transfer)
        ensures
            t.wf(),
            t.phase == TransferPhase::SendCommand,
            t.direction == Direction::OUT,
            t.payload@ == (DisplayArea {
                address: 0,
                display_mode: Mode::INIT,
                x: 0,
                y: 0,
                width: old(self).system_info.width,
                height: old(self).system_info.height,
                wait_ready: 1,
            }).spec_encode(),
            t.wrapper@ == spec_command_wrapper(
                old(self).tags.next,
                28,
                Direction::OUT,
                spec_display_area_command(),
            ),
            *final(self) == (Session {
                tags: TagCounter { next: spec_next_tag(old(self).tags.next) },
                ..*old(self)
            }),
    {
        let area = DisplayArea {
            address: 0,
            display_mode: Mode::INIT,
            x: 0,
            y: 0,
            width: self.system_info.width,
            height: self.system_info.height,
            wait_ready: 1,
        };
        let command = display_area_command();
        let payload = area.encode();
        Transfer::start_write(&mut self.tags, &command, payload)
    }

    /// Build the diagnostic SCSI INQUIRY transfer. Decode its data with
    /// [`crate::commands::decode_inquiry`] once the transfer completes.
    pub fn inquiry(&mut self) -> (t: Transfer)
        ensures
            t.wf(),
            t.phase == TransferPhase::SendCommand,
            t.direction == Direction::IN,
            t.expected == INQUIRY_LEN,
            t.wrapper@ == spec_command_wrapper(
                old(self).tags.next,
                INQUIRY_LEN as u32,
                Direction::IN,
                spec_inquiry_command(),
            ),
            *final(self) == (Session {
                tags: TagCounter { next: spec_next_tag(old(self).tags.next) },
                ..*old(self)
            }),
    {
        let command = inquiry_command();
        Transfer::start_read(&mut self.tags, &command, INQUIRY_LEN as u32)
    }
}

} // verus!
