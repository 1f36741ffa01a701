//! Bulk-only-transport framing records.
//!
//! Every operation against the controller is framed by a 31-byte Command
//! Block Wrapper sent to the device and answered by a 13-byte Command Status
//! Wrapper. The transport-level fields of both records are little-endian;
//! the 16-byte command payload inside the block wrapper is opaque here.

use vstd::prelude::*;

use crate::errors::Error;
use crate::wire::{
    push_bytes, push_u32_le, read_u32_le, spec_u32_from_le_bytes, spec_u32_to_le_bytes,
};

verus! {

/// Direction of the data phase of one operation, as seen from the host.
#[derive(Clone, Copy, Debug, PartialEq, Eq, Structural)]
pub enum Direction {
    /// Device to host: the flags byte carries bit 7.
    IN,
    /// Host to device.
    OUT,
}

impl Direction {
    /// The flags byte of the command wrapper for this direction.
    pub open spec fn spec_flags(self) -> u8 {
        match self {
            Direction::IN => 0x80,
            Direction::OUT => 0x00,
        }
    }

    /// Turn the direction into the wrapper's flags byte.
    pub fn flags(self) -> (r: u8)
        ensures
            r == self.spec_flags(),
    {
        match self {
            Direction::IN => 0x80,
            Direction::OUT => 0x00,
        }
    }
}

/// The 31-byte record sent to the device before every operation.
#[derive(Clone, Debug, PartialEq, Eq)]
pub struct CommandBlockWrapper {
    /// Always `b"USBC"` on the wire.
    pub signature: [u8; 4],
    /// Fresh per operation; the device matches commands to statuses by
    /// issuance order, so the tag is diagnostic only but must keep moving.
    pub tag: u32,
    /// How many payload bytes the data phase will transfer.
    pub data_transfer_length: u32,
    /// Bit 7 set means the data phase runs device to host.
    pub flags: u8,
    /// Always 0 for this device.
    pub logical_unit_number: u8,
    /// Length of the command payload; always 16 here.
    pub command_length: u8,
    /// The controller-specific 16-byte command block.
    pub command_data: [u8; 16],
}

/// The signature bytes of a command block wrapper, `b"USBC"`.
pub open spec fn spec_cbw_signature() -> Seq<u8> {
    seq![0x55u8, 0x53u8, 0x42u8, 0x43u8]
}

/// The signature bytes of a command status wrapper, `b"USBS"`.
pub open spec fn spec_csw_signature() -> Seq<u8> {
    seq![0x55u8, 0x53u8, 0x42u8, 0x53u8]
}

impl CommandBlockWrapper {
    /// The 31-byte wire image of this wrapper.
    pub open spec fn spec_encode(self) -> Seq<u8> {
        self.signature@ + spec_u32_to_le_bytes(self.tag) + spec_u32_to_le_bytes(
            self.data_transfer_length,
        ) + seq![self.flags, self.logical_unit_number, self.command_length] + self.command_data@
    }

    /// Serialize the wrapper for the wire.
    pub fn encode(&self) -> (r: Vec<u8>)
        ensures
            r@ == self.spec_encode(),
            r@.len() == 31,
    {
        let mut buf: Vec<u8> = Vec::new();
        push_bytes(&mut buf, &self.signature);
        push_u32_le(&mut buf, self.tag);
        push_u32_le(&mut buf, self.data_transfer_length);
        buf.push(self.flags);
        buf.push(self.logical_unit_number);
        buf.push(self.command_length);
        push_bytes(&mut buf, &self.command_data);
        proof {
            assert(buf@ =~= self.spec_encode());
        }
        buf
    }

    /// Read a wrapper back from its wire image. Only the length is judged:
    /// anything but exactly 31 bytes is protocol corruption.
    pub fn decode(buf: &[u8]) -> (r: Result<CommandBlockWrapper, Error>)
        ensures
            match r {
                Ok(w) => buf@.len() == 31 && w.spec_encode() == buf@,
                Err(e) => buf@.len() != 31 && e == Error::Protocol,
            },
    {
        if buf.len() != 31 {
            return Err(Error::Protocol);
        }
        let signature: [u8; 4] = [buf[0], buf[1], buf[2], buf[3]];
        let tag = read_u32_le(buf, 4);
        let data_transfer_length = read_u32_le(buf, 8);
        let flags = buf[12];
        let logical_unit_number = buf[13];
        let command_length = buf[14];
        let command_data: [u8; 16] = [
            buf[15],
            buf[16],
            buf[17],
            buf[18],
            buf[19],
            buf[20],
            buf[21],
            buf[22],
            buf[23],
            buf[24],
            buf[25],
            buf[26],
            buf[27],
            buf[28],
            buf[29],
            buf[30],
        ];
        let w = CommandBlockWrapper {
            signature,
            tag,
            data_transfer_length,
            flags,
            logical_unit_number,
            command_length,
            command_data,
        };
        proof {
            crate::wire::lemma_u32_le_round_trip();
            assert(buf@.subrange(4, 8) =~= spec_u32_to_le_bytes(w.tag));
            assert(buf@.subrange(8, 12) =~= spec_u32_to_le_bytes(w.data_transfer_length));
            assert(w.spec_encode() =~= buf@);
        }
        Ok(w)
    }
}

/// The 13-byte record the device answers every operation with.
#[derive(Clone, Debug, PartialEq, Eq)]
pub struct CommandStatusWrapper {
    /// Always `b"USBS"` on the wire.
    pub signature: [u8; 4],
    /// Echo of the command wrapper's tag.
    pub tag: u32,
    /// How many requested bytes were left untransferred.
    pub data_residue: u32,
    /// 0 means the operation succeeded.
    pub status: u8,
}

impl CommandStatusWrapper {
    /// The 13-byte wire image of this wrapper.
    pub open spec fn spec_encode(self) -> Seq<u8> {
        self.signature@ + spec_u32_to_le_bytes(self.tag) + spec_u32_to_le_bytes(self.data_residue)
            + seq![self.status]
    }

    /// Serialize the wrapper as the device would put it on the wire.
    pub fn encode(&self) -> (r: Vec<u8>)
        ensures
            r@ == self.spec_encode(),
            r@.len() == 13,
    {
        let mut buf: Vec<u8> = Vec::new();
        push_bytes(&mut buf, &self.signature);
        push_u32_le(&mut buf, self.tag);
        push_u32_le(&mut buf, self.data_residue);
        buf.push(self.status);
        proof {
            assert(buf@ =~= self.spec_encode());
        }
        buf
    }

    /// Read a status wrapper from the wire. Only the length is judged:
    /// anything but exactly 13 bytes is protocol corruption.
    pub fn decode(buf: &[u8]) -> (r: Result<CommandStatusWrapper, Error>)
        ensures
            match r {
                Ok(w) => buf@.len() == 13 && w.spec_encode() == buf@,
                Err(e) => buf@.len() != 13 && e == Error::Protocol,
            },
    {
        if buf.len() != 13 {
            return Err(Error::Protocol);
        }
        let signature: [u8; 4] = [buf[0], buf[1], buf[2], buf[3]];
        let tag = read_u32_le(buf, 4);
        let data_residue = read_u32_le(buf, 8);
        let status = buf[12];
        let w = CommandStatusWrapper { signature, tag, data_residue, status };
        proof {
            crate::wire::lemma_u32_le_round_trip();
            assert(buf@.subrange(4, 8) =~= spec_u32_to_le_bytes(w.tag));
            assert(buf@.subrange(8, 12) =~= spec_u32_to_le_bytes(w.data_residue));
            assert(w.spec_encode() =~= buf@);
        }
        Ok(w)
    }
}

/// The wire image determines the command block wrapper: two wrappers with
/// the same encoding are equal in every field. With `decode`'s contract
/// (the decoded wrapper re-encodes to the input bytes) this makes decoding
/// a just-encoded wrapper a strict round trip.
pub proof fn lemma_cbw_encode_injective(w1: CommandBlockWrapper, w2: CommandBlockWrapper)
    requires
        w1.spec_encode() == w2.spec_encode(),
    ensures
        w1 == w2,
{
    let e = w1.spec_encode();
    crate::wire::lemma_u32_le_round_trip();
    assert(w1.signature@ =~= e.subrange(0, 4));
    assert(w2.signature@ =~= e.subrange(0, 4));
    assert(w1.signature =~= w2.signature);
    assert(e.subrange(4, 8) =~= spec_u32_to_le_bytes(w1.tag));
    assert(e.subrange(4, 8) =~= spec_u32_to_le_bytes(w2.tag));
    assert(w1.tag == spec_u32_from_le_bytes(spec_u32_to_le_bytes(w1.tag)));
    assert(w2.tag == spec_u32_from_le_bytes(spec_u32_to_le_bytes(w2.tag)));
    assert(e.subrange(8, 12) =~= spec_u32_to_le_bytes(w1.data_transfer_length));
    assert(e.subrange(8, 12) =~= spec_u32_to_le_bytes(w2.data_transfer_length));
    assert(w1.data_transfer_length == spec_u32_from_le_bytes(
        spec_u32_to_le_bytes(w1.data_transfer_length),
    ));
    assert(w2.data_transfer_length == spec_u32_from_le_bytes(
        spec_u32_to_le_bytes(w2.data_transfer_length),
    ));
    assert(w1.flags == e[12] && w2.flags == e[12]);
    assert(w1.logical_unit_number == e[13] && w2.logical_unit_number == e[13]);
    assert(w1.command_length == e[14] && w2.command_length == e[14]);
    assert(w1.command_data@ =~= e.subrange(15, 31));
    assert(w2.command_data@ =~= e.subrange(15, 31));
    assert(w1.command_data =~= w2.command_data);
}

/// The wire image determines the status wrapper in the same way.
pub proof fn lemma_csw_encode_injective(w1: CommandStatusWrapper, w2: CommandStatusWrapper)
    requires
        w1.spec_encode() == w2.spec_encode(),
    ensures
        w1 == w2,
{
    let e = w1.spec_encode();
    crate::wire::lemma_u32_le_round_trip();
    assert(w1.signature@ =~= e.subrange(0, 4));
    assert(w2.signature@ =~= e.subrange(0, 4));
    assert(w1.signature =~= w2.signature);
    assert(e.subrange(4, 8) =~= spec_u32_to_le_bytes(w1.tag));
    assert(e.subrange(4, 8) =~= spec_u32_to_le_bytes(w2.tag));
    assert(w1.tag == spec_u32_from_le_bytes(spec_u32_to_le_bytes(w1.tag)));
    assert(w2.tag == spec_u32_from_le_bytes(spec_u32_to_le_bytes(w2.tag)));
    assert(e.subrange(8, 12) =~= spec_u32_to_le_bytes(w1.data_residue));
    assert(e.subrange(8, 12) =~= spec_u32_to_le_bytes(w2.data_residue));
    assert(w1.data_residue == spec_u32_from_le_bytes(spec_u32_to_le_bytes(w1.data_residue)));
    assert(w2.data_residue == spec_u32_from_le_bytes(spec_u32_to_le_bytes(w2.data_residue)));
    assert(w1.status == e[12] && w2.status == e[12]);
}

} // verus!
