//! The bulk-transport engine: one command/status exchange as a state
//! machine.
//!
//! A `Transfer` owns everything the host must send or expect for one
//! operation: the encoded command wrapper, the data phase, and the status
//! handshake with its stall recovery. The machine never performs I/O itself;
//! the caller asks [`Transfer::next_action`] what to do on the endpoints,
//! does it, and reports what happened through [`Transfer::step`]. This keeps
//! every decision of the engine verified while the bulk reads and writes
//! stay outside.

use vstd::arithmetic::div_mod::{
    lemma_add_mod_noop, lemma_fundamental_div_mod, lemma_mod_division_less_than_divisor,
    lemma_small_mod,
};
use vstd::prelude::*;

use crate::errors::Error;
use crate::wire::spec_u32_to_le_bytes;
use crate::wrappers::{
    spec_cbw_signature, CommandBlockWrapper, CommandStatusWrapper, Direction,
};

verus! {

/// The process-wide source of command-wrapper tags.
///
/// The device matches a command to its status purely by issuance order, so
/// the tag only has to keep moving; it starts at 1 and wraps silently. One
/// counter is shared by every connection a process opens.
pub struct TagCounter {
    /// The tag the next operation will carry.
    pub next: u32,
}

/// The tag that follows `t`: one higher, wrapping silently at the counter's
/// width.
pub open spec fn spec_next_tag(t: u32) -> u32 {
    if t == 0xffff_ffffu32 {
        0
    } else {
        (t + 1) as u32
    }
}

/// The tag issued `i` operations after a counter stood at `start`.
pub open spec fn tag_at(start: u32, i: nat) -> u32 {
    ((start + i) % 0x1_0000_0000) as u32
}

impl TagCounter {
    /// A fresh counter; the first operation carries tag 1.
    pub fn new() -> (c: TagCounter)
        ensures
            c.next == 1,
    {
        TagCounter { next: 1 }
    }

    /// Hand out the next tag and advance the counter.
    pub fn fresh_tag(&mut self) -> (t: u32)
        ensures
            t == old(self).next,
            final(self).next == spec_next_tag(old(self).next),
    {
        let t = self.next;
        self.next = if self.next == 0xffff_ffffu32 {
            0
        } else {
            self.next + 1
        };
        t
    }
}

/// Issuing one more operation moves the tag sequence one step: the counter
/// state after `i` operations is exactly `tag_at(start, i)`.
pub proof fn lemma_tag_step(start: u32, i: nat)
    ensures
        tag_at(start, i + 1) == spec_next_tag(tag_at(start, i)),
{
    let m = 0x1_0000_0000int;
    let a = start + i;
    lemma_mod_division_less_than_divisor(a as int, m);
    let r = a as int % m;
    lemma_add_mod_noop(a as int, 1int, m);
    assert(1int % m == 1) by {
        lemma_small_mod(1nat, m as nat);
    }
    if r == m - 1 {
        assert((r + 1) % m == 0) by {
            lemma_small_mod(0nat, m as nat);
            assert(m % m == 0) by {
                vstd::arithmetic::div_mod::lemma_mod_self_0(m);
            }
        }
    } else {
        assert((r + 1) % m == r + 1) by {
            lemma_small_mod((r + 1) as nat, m as nat);
        }
    }
}

/// Tag monotonicity: two distinct operations among any 2^32 consecutive
/// issuances never carry the same tag, wherever the counter started.
pub proof fn lemma_tags_distinct(start: u32, i: nat, j: nat)
    requires
        i < j,
        j - i < 0x1_0000_0000,
    ensures
        tag_at(start, i) != tag_at(start, j),
{
    let m = 0x1_0000_0000int;
    let a = (start + i) as int;
    let b = (start + j) as int;
    lemma_fundamental_div_mod(a, m);
    lemma_fundamental_div_mod(b, m);
    lemma_mod_division_less_than_divisor(a, m);
    lemma_mod_division_less_than_divisor(b, m);
    if tag_at(start, i) == tag_at(start, j) {
        let qa = a / m;
        let qb = b / m;
        assert(b - a == m * (qb - qa));
        assert(0 < b - a < m);
        assert(false) by (nonlinear_arith)
            requires
                b - a == m * (qb - qa),
                0 < b - a < m,
        ;
    }
}

/// What the host must do next on the bulk endpoints for one transfer.
#[derive(Clone, Copy, Debug, PartialEq, Eq, Structural)]
pub enum BulkAction {
    /// Write the encoded command wrapper to the OUT endpoint.
    WriteWrapper,
    /// Write the transfer's payload to the OUT endpoint.
    WriteData,
    /// Read exactly this many bytes from the IN endpoint.
    ReadData(u32),
    /// Read the 13-byte status wrapper from the IN endpoint.
    ReadStatusWrapper,
    /// Clear the halt condition on the IN endpoint.
    ClearHaltIn,
    /// The transfer completed; its data and status are available.
    Finished,
    /// The transfer failed; its error is available.
    Failed,
}

/// What happened on the endpoints when the pending action was performed.
pub enum BulkEvent {
    /// The write or halt-clear completed (acknowledged).
    Ack,
    /// The read completed with these bytes.
    Read(Vec<u8>),
    /// The endpoint stalled (a pipe error).
    Stall,
    /// Any other transport failure: timeout, disconnect, and the like.
    Fault,
}

/// Where one transfer stands.
#[derive(Clone, Copy, Debug, PartialEq, Eq, Structural)]
pub enum TransferPhase {
    /// The command wrapper has not been written yet.
    SendCommand,
    /// The wrapper is out; the payload write is pending.
    DataOut,
    /// The wrapper is out; the data read is pending.
    DataIn,
    /// The data phase is over; the status read is pending.
    ReadStatus,
    /// The status read stalled; the halt-clear is pending, after which the
    /// same status read is retried. The command wrapper is not re-issued.
    ClearingStall,
    /// The status wrapper arrived; the operation is over.
    Complete,
    /// The operation failed and will not continue.
    Failed,
}

/// The encoded command wrapper for one operation: signature, tag, expected
/// transfer length, direction flags, logical unit 0, command length 16, and
/// the 16-byte command payload.
pub open spec fn spec_command_wrapper(
    tag: u32,
    data_transfer_length: u32,
    direction: Direction,
    command: Seq<u8>,
) -> Seq<u8> {
    spec_cbw_signature() + spec_u32_to_le_bytes(tag) + spec_u32_to_le_bytes(data_transfer_length)
        + seq![direction.spec_flags(), 0u8, 16u8] + command
}

/// Build the wire image of the command wrapper for one operation, drawing a
/// fresh tag from the shared counter.
pub fn get_command_block_wrapper(
    tags: &mut TagCounter,
    command_data: &[u8; 16],
    data_transfer_length: u32,
    direction: Direction,
) -> (r: Vec<u8>)
    ensures
        r@ == spec_command_wrapper(
            old(tags).next,
            data_transfer_length,
            direction,
            command_data@,
        ),
        r@.len() == 31,
        final(tags).next == spec_next_tag(old(tags).next),
{
    let tag = tags.fresh_tag();
    let w = CommandBlockWrapper {
        signature: [0x55, 0x53, 0x42, 0x43],
        tag,
        data_transfer_length,
        flags: direction.flags(),
        logical_unit_number: 0,
        command_length: 16,
        command_data: *command_data,
    };
    let r = w.encode();
    proof {
        assert(w.signature@ =~= spec_cbw_signature());
        assert(r@ =~= spec_command_wrapper(
            old(tags).next,
            data_transfer_length,
            direction,
            command_data@,
        ));
    }
    r
}

/// One command/status exchange with the device.
pub struct Transfer {
    /// Where the exchange stands.
    pub phase: TransferPhase,
    /// The 31-byte encoded command wrapper, fixed at construction.
    pub wrapper: Vec<u8>,
    /// The payload of the data phase when it runs host to device.
    pub payload: Vec<u8>,
    /// The byte count of the data phase when it runs device to host.
    pub expected: u32,
    /// Which way the data phase runs.
    pub direction: Direction,
    /// What the data phase read, once it has.
    pub data: Vec<u8>,
    /// The decoded status wrapper, once it arrived.
    pub status: Option<CommandStatusWrapper>,
    /// Why the transfer failed, once it has.
    pub error: Option<Error>,
}

impl Transfer {
    /// The shape every transfer keeps from construction to completion.
    pub open spec fn wf(self) -> bool {
        &&& self.wrapper@.len() == 31
        &&& self.direction == Direction::IN ==> self.payload@.len() == 0
    }

    /// Begin a device-to-host operation: `expected` bytes will be read in
    /// the data phase.
    pub fn start_read(tags: &mut TagCounter, command: &[u8; 16], expected: u32) -> (t: Transfer)
        ensures
            t.wf(),
            t.phase == TransferPhase::SendCommand,
            t.direction == Direction::IN,
            t.expected == expected,
            t.payload@.len() == 0,
            t.wrapper@ == spec_command_wrapper(old(tags).next, expected, Direction::IN, command@),
            final(tags).next == spec_next_tag(old(tags).next),
    {
        let wrapper = get_command_block_wrapper(tags, command, expected, Direction::IN);
        Transfer {
            phase: TransferPhase::SendCommand,
            wrapper,
            payload: Vec::new(),
            expected,
            direction: Direction::IN,
            data: Vec::new(),
            status: None,
            error: None,
        }
    }

    /// Begin a host-to-device operation: `payload` will be written in the
    /// data phase.
    pub fn start_write(tags: &mut TagCounter, command: &[u8; 16], payload: Vec<u8>) -> (t:
        Transfer)
        requires
            payload@.len() <= u32::MAX,
        ensures
            t.wf(),
            t.phase == TransferPhase::SendCommand,
            t.direction == Direction::OUT,
            t.payload@ == payload@,
            t.wrapper@ == spec_command_wrapper(
                old(tags).next,
                payload@.len() as u32,
                Direction::OUT,
                command@,
            ),
            final(tags).next == spec_next_tag(old(tags).next),
    {
        let len = payload.len() as u32;
        let wrapper = get_command_block_wrapper(tags, command, len, Direction::OUT);
        Transfer {
            phase: TransferPhase::SendCommand,
            wrapper,
            payload,
            expected: 0,
            direction: Direction::OUT,
            data: Vec::new(),
            status: None,
            error: None,
        }
    }

    /// What the host must do next for this transfer.
    pub fn next_action(&self) -> (a: BulkAction)
        ensures
            a == match self.phase {
                TransferPhase::SendCommand => BulkAction::WriteWrapper,
                TransferPhase::DataOut => BulkAction::WriteData,
                TransferPhase::DataIn => BulkAction::ReadData(self.expected),
                TransferPhase::ReadStatus => BulkAction::ReadStatusWrapper,
                TransferPhase::ClearingStall => BulkAction::ClearHaltIn,
                TransferPhase::Complete => BulkAction::Finished,
                TransferPhase::Failed => BulkAction::Failed,
            },
    {
        match self.phase {
            TransferPhase::SendCommand => BulkAction::WriteWrapper,
            TransferPhase::DataOut => BulkAction::WriteData,
            TransferPhase::DataIn => BulkAction::ReadData(self.expected),
            TransferPhase::ReadStatus => BulkAction::ReadStatusWrapper,
            TransferPhase::ClearingStall => BulkAction::ClearHaltIn,
            TransferPhase::Complete => BulkAction::Finished,
            TransferPhase::Failed => BulkAction::Failed,
        }
    }

    /// The bytes of the pending command wrapper, for the `WriteWrapper`
    /// action.
    pub fn wrapper_bytes(&self) -> (r: &Vec<u8>)
        ensures
            r@ == self.wrapper@,
    {
        &self.wrapper
    }

    /// The bytes of the pending payload, for the `WriteData` action.
    pub fn payload_bytes(&self) -> (r: &Vec<u8>)
        ensures
            r@ == self.payload@,
    {
        &self.payload
    }

    /// Feed back what happened on the endpoints and move the machine.
    ///
    /// The contract walks every transition. Two clauses carry the stall
    /// recovery: a status-read stall is answered by exactly one halt-clear
    /// (the machine enters `ClearingStall`, whose only action is
    /// `ClearHaltIn`, and leaves it on the next event), and the retried
    /// read is the same status read — the machine never returns to
    /// `SendCommand`, so the command wrapper is never re-issued.
    pub fn step(&mut self, event: BulkEvent)
        requires
            old(self).wf(),
        ensures
            final(self).wf(),
            final(self).phase != TransferPhase::SendCommand,
            final(self).wrapper@ == old(self).wrapper@,
            final(self).payload@ == old(self).payload@,
            final(self).expected == old(self).expected,
            final(self).direction == old(self).direction,
            (final(self).phase == TransferPhase::ClearingStall <==> (old(self).phase
                == TransferPhase::ReadStatus && event is Stall)),
            old(self).phase == TransferPhase::SendCommand && event is Ack ==> final(self).phase
                == (if old(self).direction == Direction::IN {
                TransferPhase::DataIn
            } else {
                TransferPhase::DataOut
            }),
            old(self).phase == TransferPhase::DataOut && event is Ack ==> final(self).phase
                == TransferPhase::ReadStatus,
            old(self).phase == TransferPhase::DataIn ==> (match event {
                BulkEvent::Read(buf) => {
                    if buf@.len() == old(self).expected {
                        &&& final(self).phase == TransferPhase::ReadStatus
                        &&& final(self).data@ == buf@
                    } else {
                        &&& final(self).phase == TransferPhase::Failed
                        &&& final(self).error == Some(Error::Protocol)
                    }
                },
                _ => true,
            }),
            old(self).phase == TransferPhase::ReadStatus ==> (match event {
                BulkEvent::Read(buf) => {
                    if buf@.len() == 13 {
                        &&& final(self).phase == TransferPhase::Complete
                        &&& (final(self).status matches Some(w) && w.spec_encode() == buf@)
                    } else {
                        &&& final(self).phase == TransferPhase::Failed
                        &&& final(self).error == Some(Error::Protocol)
                    }
                },
                _ => true,
            }),
            old(self).phase == TransferPhase::ClearingStall && event is Ack ==> final(self).phase
                == TransferPhase::ReadStatus,
            (old(self).phase == TransferPhase::SendCommand || old(self).phase
                == TransferPhase::DataOut || old(self).phase == TransferPhase::DataIn || old(
                self,
            ).phase == TransferPhase::ClearingStall) && (event is Stall || event is Fault) ==> (
            final(self).phase == TransferPhase::Failed && final(self).error == Some(
                Error::Transport,
            )),
            old(self).phase == TransferPhase::ReadStatus && event is Fault ==> (final(self).phase
                == TransferPhase::Failed && final(self).error == Some(Error::Transport)),
            old(self).phase == TransferPhase::Complete ==> *final(self) == *old(self),
            old(self).phase == TransferPhase::Failed ==> *final(self) == *old(self),
    {
        match self.phase {
            TransferPhase::SendCommand => match event {
                BulkEvent::Ack => {
                    self.phase = if self.direction == Direction::IN {
                        TransferPhase::DataIn
                    } else {
                        TransferPhase::DataOut
                    };
                },
                BulkEvent::Stall | BulkEvent::Fault => {
                    self.phase = TransferPhase::Failed;
                    self.error = Some(Error::Transport);
                },
                BulkEvent::Read(_) => {
                    self.phase = TransferPhase::Failed;
                    self.error = Some(Error::Protocol);
                },
            },
            TransferPhase::DataOut => match event {
                BulkEvent::Ack => {
                    self.phase = TransferPhase::ReadStatus;
                },
                BulkEvent::Stall | BulkEvent::Fault => {
                    self.phase = TransferPhase::Failed;
                    self.error = Some(Error::Transport);
                },
                BulkEvent::Read(_) => {
                    self.phase = TransferPhase::Failed;
                    self.error = Some(Error::Protocol);
                },
            },
            TransferPhase::DataIn => match event {
                BulkEvent::Read(buf) => {
                    if buf.len() == self.expected as usize {
                        self.data = buf;
                        self.phase = TransferPhase::ReadStatus;
                    } else {
                        self.phase = TransferPhase::Failed;
                        self.error = Some(Error::Protocol);
                    }
                },
                BulkEvent::Stall | BulkEvent::Fault => {
                    self.phase = TransferPhase::Failed;
                    self.error = Some(Error::Transport);
                },
                BulkEvent::Ack => {
                    self.phase = TransferPhase::Failed;
                    self.error = Some(Error::Protocol);
                },
            },
            TransferPhase::ReadStatus => match event {
                BulkEvent::Read(buf) => match CommandStatusWrapper::decode(buf.as_slice()) {
                    Ok(w) => {
                        self.status = Some(w);
                        self.phase = TransferPhase::Complete;
                    },
                    Err(e) => {
                        self.phase = TransferPhase::Failed;
                        self.error = Some(e);
                    },
                },
                BulkEvent::Stall => {
                    self.phase = TransferPhase::ClearingStall;
                },
                BulkEvent::Fault => {
                    self.phase = TransferPhase::Failed;
                    self.error = Some(Error::Transport);
                },
                BulkEvent::Ack => {
                    self.phase = TransferPhase::Failed;
                    self.error = Some(Error::Protocol);
                },
            },
            TransferPhase::ClearingStall => match event {
                BulkEvent::Ack => {
                    self.phase = TransferPhase::ReadStatus;
                },
                BulkEvent::Stall | BulkEvent::Fault => {
                    self.phase = TransferPhase::Failed;
                    self.error = Some(Error::Transport);
                },
                BulkEvent::Read(_) => {
                    self.phase = TransferPhase::Failed;
                    self.error = Some(Error::Protocol);
                },
            },
            TransferPhase::Complete => {},
            TransferPhase::Failed => {},
        }
    }
}

} // verus!
