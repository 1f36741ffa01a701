//! The controller's fixed-format 16-byte command blocks and its
//! fixed-layout replies.
//!
//! Every operation against the controller is named by a 16-byte command
//! payload carried inside the transport's command wrapper. The multi-byte
//! fields inside these payloads are big-endian, the device's own
//! convention, unlike the little-endian transport fields around them.

use vstd::prelude::*;

use crate::errors::Error;
use crate::wire::{
    read_u32_be, spec_u16_to_be_bytes, spec_u32_from_be_bytes, spec_u32_to_be_bytes, u16_be_array,
    u32_be_array,
};

verus! {

/// First byte of every vendor ("customer") command.
pub const CUSTOMER_CMD: u8 = 0xfe;

/// Opcode selector: read a memory register.
pub const READ_REG_CMD: u8 = 0x83;

/// Opcode selector: write a memory register.
pub const WRITE_REG_CMD: u8 = 0x84;

/// Opcode selector: power-management (VCOM) control.
pub const PMIC_CONTROL_CMD: u8 = 0xa3;

/// Opcode selector: write to memory in fast mode.
pub const FAST_WRITE_CMD: u8 = 0xa5;

/// Opcode selector: retrieve system information.
pub const GET_SYS_CMD: u8 = 0x80;

/// Opcode selector: display an area of the image buffer.
pub const DPY_AREA_CMD: u8 = 0x94;

/// SCSI INQUIRY opcode, used only diagnostically.
pub const INQUIRY_CMD: u8 = 0x12;

/// Byte length of the fixed-layout system-information reply.
pub const SYSTEM_INFO_LEN: usize = 112;

/// Byte length of the INQUIRY reply this driver requests.
pub const INQUIRY_LEN: usize = 40;

/// A display refresh mode of the panel, numbered 0 to 7 on the wire.
#[derive(Clone, Copy, Debug, PartialEq, Eq, Structural)]
pub enum Mode {
    /// Erase the display completely and leave it white.
    INIT,
    /// Direct update: very fast, non-flashy, black and white only.
    DU,
    /// Grayscale clearing: full quality, 16 gray levels.
    GC16,
    /// Reduced-flash update for sparse content, 16 gray levels.
    GL16,
    /// Like GL16, paired with an image preprocessing algorithm.
    GLR16,
    /// Like GLR16, recommended only for full display updates.
    GLD16,
    /// Fast non-flash mode for page turning and simple animation.
    A2,
    /// Fast non-flashy waveform similar to DU.
    DU4,
    /// Anything else the controller reports.
    UNKNOWN,
}

impl Mode {
    /// The number this mode carries on the wire. `UNKNOWN` stands for every
    /// number past 7 and is written back as 8.
    pub open spec fn spec_number(self) -> u32 {
        match self {
            Mode::INIT => 0,
            Mode::DU => 1,
            Mode::GC16 => 2,
            Mode::GL16 => 3,
            Mode::GLR16 => 4,
            Mode::GLD16 => 5,
            Mode::A2 => 6,
            Mode::DU4 => 7,
            Mode::UNKNOWN => 8,
        }
    }

    /// Turn the mode into its wire number.
    pub fn number(self) -> (n: u32)
        ensures
            n == self.spec_number(),
    {
        match self {
            Mode::INIT => 0,
            Mode::DU => 1,
            Mode::GC16 => 2,
            Mode::GL16 => 3,
            Mode::GLR16 => 4,
            Mode::GLD16 => 5,
            Mode::A2 => 6,
            Mode::DU4 => 7,
            Mode::UNKNOWN => 8,
        }
    }

    /// The mode a wire number denotes.
    pub open spec fn spec_from_number(n: u32) -> Mode {
        if n == 0 {
            Mode::INIT
        } else if n == 1 {
            Mode::DU
        } else if n == 2 {
            Mode::GC16
        } else if n == 3 {
            Mode::GL16
        } else if n == 4 {
            Mode::GLR16
        } else if n == 5 {
            Mode::GLD16
        } else if n == 6 {
            Mode::A2
        } else if n == 7 {
            Mode::DU4
        } else {
            // The controller sometimes reports stray numbers; they all
            // read back as UNKNOWN rather than failing the decode.
            Mode::UNKNOWN
        }
    }

    /// Read a mode off the wire.
    pub fn from_number(n: u32) -> (m: Mode)
        ensures
            m == Mode::spec_from_number(n),
    {
        if n == 0 {
            Mode::INIT
        } else if n == 1 {
            Mode::DU
        } else if n == 2 {
            Mode::GC16
        } else if n == 3 {
            Mode::GL16
        } else if n == 4 {
            Mode::GLR16
        } else if n == 5 {
            Mode::GLD16
        } else if n == 6 {
            Mode::A2
        } else if n == 7 {
            Mode::DU4
        } else {
            Mode::UNKNOWN
        }
    }
}

/// The command block that asks for the system-information reply. The bytes
/// after the opcode selector are the "8951" signature and the command table
/// version 0x00010002.
pub open spec fn spec_get_sys_command() -> Seq<u8> {
    seq![
        0xfeu8,
        0x00u8,
        0x38u8,
        0x39u8,
        0x35u8,
        0x31u8,
        0x80u8,
        0x00u8,
        0x01u8,
        0x00u8,
        0x02u8,
        0x00u8,
        0x00u8,
        0x00u8,
        0x00u8,
        0x00u8,
    ]
}

/// Build the get-system-information command block.
pub fn get_sys_command() -> (r: [u8; 16])
    ensures
        r@ == spec_get_sys_command(),
{
    let r: [u8; 16] = [
        CUSTOMER_CMD,
        0x00,
        0x38,
        0x39,
        0x35,
        0x31,
        GET_SYS_CMD,
        0x00,
        0x01,
        0x00,
        0x02,
        0x00,
        0x00,
        0x00,
        0x00,
        0x00,
    ];
    proof {
        assert(r@ =~= spec_get_sys_command());
    }
    r
}

/// The command block that reads the 4-byte register at `address`.
pub open spec fn spec_read_reg_command(address: u32) -> Seq<u8> {
    let a = spec_u32_to_be_bytes(address);
    seq![
        0xfeu8,
        0x00u8,
        a[0],
        a[1],
        a[2],
        a[3],
        0x83u8,
        0x00u8,
        0x04u8,
        0x00u8,
        0x00u8,
        0x00u8,
        0x00u8,
        0x00u8,
        0x00u8,
        0x00u8,
    ]
}

/// Build the read-register command block for an absolute controller
/// address; the fixed length field asks for 4 bytes.
pub fn read_reg_command(address: u32) -> (r: [u8; 16])
    ensures
        r@ == spec_read_reg_command(address),
{
    let a = u32_be_array(address);
    let r: [u8; 16] = [
        CUSTOMER_CMD,
        0x00,
        a[0],
        a[1],
        a[2],
        a[3],
        READ_REG_CMD,
        0x00,
        0x04,
        0x00,
        0x00,
        0x00,
        0x00,
        0x00,
        0x00,
        0x00,
    ];
    proof {
        assert(r@ =~= spec_read_reg_command(address));
    }
    r
}

/// The command block that writes the 4-byte register at `address`; the
/// value itself travels in the data phase.
pub open spec fn spec_write_reg_command(address: u32) -> Seq<u8> {
    let a = spec_u32_to_be_bytes(address);
    seq![
        0xfeu8,
        0x00u8,
        a[0],
        a[1],
        a[2],
        a[3],
        0x84u8,
        0x00u8,
        0x04u8,
        0x00u8,
        0x00u8,
        0x00u8,
        0x00u8,
        0x00u8,
        0x00u8,
        0x00u8,
    ]
}

/// Build the write-register command block for an absolute controller
/// address; the fixed length field announces 4 bytes of data.
pub fn write_reg_command(address: u32) -> (r: [u8; 16])
    ensures
        r@ == spec_write_reg_command(address),
{
    let a = u32_be_array(address);
    let r: [u8; 16] = [
        CUSTOMER_CMD,
        0x00,
        a[0],
        a[1],
        a[2],
        a[3],
        WRITE_REG_CMD,
        0x00,
        0x04,
        0x00,
        0x00,
        0x00,
        0x00,
        0x00,
        0x00,
        0x00,
    ];
    proof {
        assert(r@ =~= spec_write_reg_command(address));
    }
    r
}

/// The command block that writes `length` bytes of memory at `address`
/// using the fast-write opcode; the data travels in the data phase.
pub open spec fn spec_fast_write_command(address: u32, length: u16) -> Seq<u8> {
    let a = spec_u32_to_be_bytes(address);
    let l = spec_u16_to_be_bytes(length);
    seq![
        0xfeu8,
        0x00u8,
        a[0],
        a[1],
        a[2],
        a[3],
        0xa5u8,
        l[0],
        l[1],
        0x00u8,
        0x00u8,
        0x00u8,
        0x00u8,
        0x00u8,
        0x00u8,
        0x00u8,
    ]
}

/// Build the fast-memory-write command block. The length field is 16 bits
/// wide, which is what caps a single write at 65535 bytes.
pub fn fast_write_command(address: u32, length: u16) -> (r: [u8; 16])
    ensures
        r@ == spec_fast_write_command(address, length),
{
    let a = u32_be_array(address);
    let l = u16_be_array(length);
    let r: [u8; 16] = [
        CUSTOMER_CMD,
        0x00,
        a[0],
        a[1],
        a[2],
        a[3],
        FAST_WRITE_CMD,
        l[0],
        l[1],
        0x00,
        0x00,
        0x00,
        0x00,
        0x00,
        0x00,
        0x00,
    ];
    proof {
        assert(r@ =~= spec_fast_write_command(address, length));
    }
    r
}

/// The command block that sets the VCOM bias to `millivolts` (the
/// magnitude of the negative calibration voltage) and commits it.
pub open spec fn spec_vcom_command(millivolts: u16) -> Seq<u8> {
    let v = spec_u16_to_be_bytes(millivolts);
    seq![
        0xfeu8,
        0x00u8,
        0x00u8,
        0x00u8,
        0x00u8,
        0x00u8,
        0xa3u8,
        v[0],
        v[1],
        0x01u8,
        0x00u8,
        0x00u8,
        0x00u8,
        0x00u8,
        0x00u8,
        0x00u8,
    ]
}

/// Build the PMIC command block that sets and commits the VCOM value.
pub fn vcom_command(millivolts: u16) -> (r: [u8; 16])
    ensures
        r@ == spec_vcom_command(millivolts),
{
    let v = u16_be_array(millivolts);
    let r: [u8; 16] = [
        CUSTOMER_CMD,
        0x00,
        0x00,
        0x00,
        0x00,
        0x00,
        PMIC_CONTROL_CMD,
        v[0],
        v[1],
        0x01,
        0x00,
        0x00,
        0x00,
        0x00,
        0x00,
        0x00,
    ];
    proof {
        assert(r@ =~= spec_vcom_command(millivolts));
    }
    r
}

/// The command block that triggers a display-area operation; the area
/// record itself travels in the data phase.
pub open spec fn spec_display_area_command() -> Seq<u8> {
    seq![
        0xfeu8,
        0x00u8,
        0x00u8,
        0x00u8,
        0x00u8,
        0x00u8,
        0x94u8,
        0x00u8,
        0x00u8,
        0x00u8,
        0x00u8,
        0x00u8,
        0x00u8,
        0x00u8,
        0x00u8,
        0x00u8,
    ]
}

/// Build the display-area command block.
pub fn display_area_command() -> (r: [u8; 16])
    ensures
        r@ == spec_display_area_command(),
{
    let r: [u8; 16] = [
        CUSTOMER_CMD,
        0x00,
        0x00,
        0x00,
        0x00,
        0x00,
        DPY_AREA_CMD,
        0x00,
        0x00,
        0x00,
        0x00,
        0x00,
        0x00,
        0x00,
        0x00,
        0x00,
    ];
    proof {
        assert(r@ =~= spec_display_area_command());
    }
    r
}

/// The SCSI INQUIRY command block, asking for a 40-byte reply.
pub open spec fn spec_inquiry_command() -> Seq<u8> {
    seq![
        0x12u8,
        0x00u8,
        0x00u8,
        0x00u8,
        0x28u8,
        0x00u8,
        0x00u8,
        0x00u8,
        0x00u8,
        0x00u8,
        0x00u8,
        0x00u8,
        0x00u8,
        0x00u8,
        0x00u8,
        0x00u8,
    ]
}

/// Build the diagnostic SCSI INQUIRY command block.
pub fn inquiry_command() -> (r: [u8; 16])
    ensures
        r@ == spec_inquiry_command(),
{
    let r: [u8; 16] = [
        INQUIRY_CMD,
        0x00,
        0x00,
        0x00,
        0x28,
        0x00,
        0x00,
        0x00,
        0x00,
        0x00,
        0x00,
        0x00,
        0x00,
        0x00,
        0x00,
        0x00,
    ];
    proof {
        assert(r@ =~= spec_inquiry_command());
    }
    r
}

/// The system-information snapshot the controller answers the get-system
/// command with: a 112-byte fixed layout of big-endian 32-bit fields, read
/// once at connect time and cached for the life of the session.
#[derive(Clone, Debug, PartialEq, Eq)]
pub struct SystemInfo {
    /// Standard command number of the T-con communication protocol.
    pub standard_cmd_no: u32,
    /// Extended command number.
    pub extended_cmd_no: u32,
    /// The "8951" signature, 31 35 39 38 on the wire.
    pub signature: u32,
    /// Command table version.
    pub version: u32,
    /// Panel width in pixels.
    pub width: u32,
    /// Panel height in pixels.
    pub height: u32,
    /// Update buffer address in controller memory.
    pub update_buffer_base: u32,
    /// Image buffer address (index 0) in controller memory.
    pub image_buffer_base: u32,
    /// Temperature segment number.
    pub temperature_no: u32,
    /// Current display mode.
    pub mode: Mode,
    /// Frame count for each of the eight modes.
    pub frame_count: [u32; 8],
    /// Number of image buffers.
    pub num_img_buf: u32,
    /// Bytes the layout reserves; kept but never interpreted.
    pub reserved: [u32; 9],
}

/// The big-endian 32-bit field of `buf` at byte offset `off`.
pub open spec fn spec_be_field(buf: Seq<u8>, off: int) -> u32 {
    spec_u32_from_be_bytes(buf.subrange(off, off + 4))
}

/// Decode the 112-byte system-information reply. Any other length is
/// protocol corruption, fatal to the session.
pub fn decode_system_info(buf: &[u8]) -> (r: Result<SystemInfo, Error>)
    ensures
        match r {
            Ok(w) => {
                &&& buf@.len() == 112
                &&& w.standard_cmd_no == spec_be_field(buf@, 0)
                &&& w.extended_cmd_no == spec_be_field(buf@, 4)
                &&& w.signature == spec_be_field(buf@, 8)
                &&& w.version == spec_be_field(buf@, 12)
                &&& w.width == spec_be_field(buf@, 16)
                &&& w.height == spec_be_field(buf@, 20)
                &&& w.update_buffer_base == spec_be_field(buf@, 24)
                &&& w.image_buffer_base == spec_be_field(buf@, 28)
                &&& w.temperature_no == spec_be_field(buf@, 32)
                &&& w.mode == Mode::spec_from_number(spec_be_field(buf@, 36))
                &&& forall|i: int|
                    0 <= i < 8 ==> w.frame_count@[i] == spec_be_field(buf@, 40 + 4 * i)
                &&& w.num_img_buf == spec_be_field(buf@, 72)
                &&& forall|i: int|
                    0 <= i < 9 ==> w.reserved@[i] == spec_be_field(buf@, 76 + 4 * i)
            },
            Err(e) => buf@.len() != 112 && e == Error::Protocol,
        },
{
    if buf.len() != SYSTEM_INFO_LEN {
        return Err(Error::Protocol);
    }
    let frame_count: [u32; 8] = [
        read_u32_be(buf, 40),
        read_u32_be(buf, 44),
        read_u32_be(buf, 48),
        read_u32_be(buf, 52),
        read_u32_be(buf, 56),
        read_u32_be(buf, 60),
        read_u32_be(buf, 64),
        read_u32_be(buf, 68),
    ];
    let reserved: [u32; 9] = [
        read_u32_be(buf, 76),
        read_u32_be(buf, 80),
        read_u32_be(buf, 84),
        read_u32_be(buf, 88),
        read_u32_be(buf, 92),
        read_u32_be(buf, 96),
        read_u32_be(buf, 100),
        read_u32_be(buf, 104),
        read_u32_be(buf, 108),
    ];
    let w = SystemInfo {
        standard_cmd_no: read_u32_be(buf, 0),
        extended_cmd_no: read_u32_be(buf, 4),
        signature: read_u32_be(buf, 8),
        version: read_u32_be(buf, 12),
        width: read_u32_be(buf, 16),
        height: read_u32_be(buf, 20),
        update_buffer_base: read_u32_be(buf, 24),
        image_buffer_base: read_u32_be(buf, 28),
        temperature_no: read_u32_be(buf, 32),
        mode: Mode::from_number(read_u32_be(buf, 36)),
        frame_count,
        num_img_buf: read_u32_be(buf, 72),
        reserved,
    };
    Ok(w)
}

/// A transient rectangular display request: where in controller memory the
/// image sits, where on the panel it lands, and how to refresh it. Encoded
/// as seven big-endian 32-bit fields for the data phase of a display-area
/// operation.
#[derive(Clone, Copy, Debug, PartialEq, Eq, Structural)]
pub struct DisplayArea {
    /// Memory address to load the image buffer from.
    pub address: u32,
    /// Refresh mode for this update.
    pub display_mode: Mode,
    /// Left edge of the target rectangle on the panel.
    pub x: u32,
    /// Top edge of the target rectangle on the panel.
    pub y: u32,
    /// Width of the displayed rectangle.
    pub width: u32,
    /// Height of the displayed rectangle.
    pub height: u32,
    /// 1 to make the device hold the bulk transaction until the panel has
    /// latched the update.
    pub wait_ready: u32,
}

impl DisplayArea {
    /// The 28-byte wire image of this request.
    pub open spec fn spec_encode(self) -> Seq<u8> {
        spec_u32_to_be_bytes(self.address) + spec_u32_to_be_bytes(self.display_mode.spec_number())
            + spec_u32_to_be_bytes(self.x) + spec_u32_to_be_bytes(self.y) + spec_u32_to_be_bytes(
            self.width,
        ) + spec_u32_to_be_bytes(self.height) + spec_u32_to_be_bytes(self.wait_ready)
    }

    /// Serialize the request for the data phase.
    pub fn encode(&self) -> (r: Vec<u8>)
        ensures
            r@ == self.spec_encode(),
            r@.len() == 28,
    {
        let mut buf: Vec<u8> = Vec::new();
        crate::wire::push_u32_be(&mut buf, self.address);
        crate::wire::push_u32_be(&mut buf, self.display_mode.number());
        crate::wire::push_u32_be(&mut buf, self.x);
        crate::wire::push_u32_be(&mut buf, self.y);
        crate::wire::push_u32_be(&mut buf, self.width);
        crate::wire::push_u32_be(&mut buf, self.height);
        crate::wire::push_u32_be(&mut buf, self.wait_ready);
        proof {
            assert(buf@ =~= self.spec_encode());
        }
        buf
    }
}

/// `s` with its trailing ASCII spaces removed.
pub open spec fn spec_trimmed(s: Seq<u8>) -> Seq<u8>
    decreases s.len(),
{
    if s.len() > 0 && s[s.len() - 1] == 0x20u8 {
        spec_trimmed(s.drop_last())
    } else {
        s
    }
}

/// The vendor identification a SCSI INQUIRY answers with; the three fields
/// are fixed-width ASCII, space-padded on the wire and trimmed here.
#[derive(Clone, Debug, PartialEq, Eq)]
pub struct Inquiry {
    /// Vendor identification, 8 bytes on the wire.
    pub vendor: Vec<u8>,
    /// Product identification, 16 bytes on the wire.
    pub product: Vec<u8>,
    /// Product revision level, 4 bytes on the wire.
    pub revision: Vec<u8>,
}

/// Copy `buf[start..end]` with trailing ASCII spaces removed.
fn trimmed_range(buf: &[u8], start: usize, end: usize) -> (r: Vec<u8>)
    requires
        start <= end <= buf@.len(),
    ensures
        r@ == spec_trimmed(buf@.subrange(start as int, end as int)),
{
    let mut e = end;
    while e > start && buf[e - 1] == 0x20
        invariant
            start <= e <= end <= buf@.len(),
            spec_trimmed(buf@.subrange(start as int, end as int)) == spec_trimmed(
                buf@.subrange(start as int, e as int),
            ),
        decreases e,
    {
        proof {
            assert(buf@.subrange(start as int, e as int).drop_last() =~= buf@.subrange(
                start as int,
                e as int - 1,
            ));
        }
        e = e - 1;
    }
    let r = vstd::slice::slice_to_vec(vstd::slice::slice_subrange(buf, start, e));
    proof {
        assert(spec_trimmed(buf@.subrange(start as int, e as int)) == buf@.subrange(
            start as int,
            e as int,
        ));
    }
    r
}

/// Decode the 40-byte INQUIRY reply into its trimmed ASCII identification
/// fields. Any other length is protocol corruption.
pub fn decode_inquiry(buf: &[u8]) -> (r: Result<Inquiry, Error>)
    ensures
        match r {
            Ok(q) => {
                &&& buf@.len() == 40
                &&& q.vendor@ == spec_trimmed(buf@.subrange(8, 16))
                &&& q.product@ == spec_trimmed(buf@.subrange(16, 32))
                &&& q.revision@ == spec_trimmed(buf@.subrange(32, 36))
            },
            Err(e) => buf@.len() != 40 && e == Error::Protocol,
        },
{
    if buf.len() != INQUIRY_LEN {
        return Err(Error::Protocol);
    }
    let vendor = trimmed_range(buf, 8, 16);
    let product = trimmed_range(buf, 16, 32);
    let revision = trimmed_range(buf, 32, 36);
    Ok(Inquiry { vendor, product, revision })
}

/// Read the 4-byte big-endian register value out of a read-register reply.
/// Any other reply length is protocol corruption.
pub fn decode_register_value(buf: &[u8]) -> (r: Result<u32, Error>)
    ensures
        match r {
            Ok(v) => buf@.len() == 4 && v == spec_u32_from_be_bytes(buf@),
            Err(e) => buf@.len() != 4 && e == Error::Protocol,
        },
{
    if buf.len() != 4 {
        return Err(Error::Protocol);
    }
    let v = read_u32_be(buf, 0);
    proof {
        assert(buf@.subrange(0, 4) =~= buf@);
    }
    Ok(v)
}

} // verus!
