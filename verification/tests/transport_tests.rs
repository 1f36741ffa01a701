//! The transfer state machine: data phases, status handshake, stall
//! recovery, and tag issuance.

use it8951_video::transport::{BulkAction, BulkEvent, TagCounter, Transfer, TransferPhase};
use it8951_video::wrappers::CommandStatusWrapper;

fn status_bytes(tag: u32) -> Vec<u8> {
    CommandStatusWrapper { signature: [0x55, 0x53, 0x42, 0x53], tag, data_residue: 0, status: 0 }
        .encode()
}

#[test]
fn read_transfer_happy_path() {
    let mut tags = TagCounter::new();
    let mut t = Transfer::start_read(&mut tags, &[0u8; 16], 4);
    assert_eq!(t.next_action(), BulkAction::WriteWrapper);
    assert_eq!(t.wrapper_bytes().len(), 31);
    t.step(BulkEvent::Ack);
    assert_eq!(t.next_action(), BulkAction::ReadData(4));
    t.step(BulkEvent::Read(vec![1, 2, 3, 4]));
    assert_eq!(t.next_action(), BulkAction::ReadStatusWrapper);
    t.step(BulkEvent::Read(status_bytes(1)));
    assert_eq!(t.next_action(), BulkAction::Finished);
    assert_eq!(t.data, vec![1, 2, 3, 4]);
    let status = t.status.expect("status wrapper decoded");
    assert_eq!(status.tag, 1);
    assert_eq!(status.status, 0);
}

#[test]
fn write_transfer_happy_path() {
    let mut tags = TagCounter::new();
    let mut t = Transfer::start_write(&mut tags, &[0u8; 16], vec![9, 9, 9]);
    assert_eq!(t.next_action(), BulkAction::WriteWrapper);
    t.step(BulkEvent::Ack);
    assert_eq!(t.next_action(), BulkAction::WriteData);
    assert_eq!(t.payload_bytes().as_slice(), &[9, 9, 9]);
    t.step(BulkEvent::Ack);
    assert_eq!(t.next_action(), BulkAction::ReadStatusWrapper);
    t.step(BulkEvent::Read(status_bytes(1)));
    assert_eq!(t.next_action(), BulkAction::Finished);
}

#[test]
fn stall_recovery_clears_halt_once_and_retries_status_read() {
    let mut tags = TagCounter::new();
    let mut t = Transfer::start_write(&mut tags, &[0u8; 16], vec![]);
    t.step(BulkEvent::Ack);
    t.step(BulkEvent::Ack);
    assert_eq!(t.next_action(), BulkAction::ReadStatusWrapper);
    let mut clear_halts = 0;
    // Two stalls in a row: each one triggers exactly one halt-clear, and
    // the retried action is the status read, never the command wrapper.
    for _ in 0..2 {
        t.step(BulkEvent::Stall);
        assert_eq!(t.next_action(), BulkAction::ClearHaltIn);
        clear_halts += 1;
        t.step(BulkEvent::Ack);
        assert_eq!(t.next_action(), BulkAction::ReadStatusWrapper);
        assert_ne!(t.phase, TransferPhase::SendCommand);
    }
    assert_eq!(clear_halts, 2);
    t.step(BulkEvent::Read(status_bytes(1)));
    assert_eq!(t.next_action(), BulkAction::Finished);
}

#[test]
fn stall_outside_status_read_is_fatal() {
    let mut tags = TagCounter::new();
    let mut t = Transfer::start_write(&mut tags, &[0u8; 16], vec![1]);
    t.step(BulkEvent::Stall);
    assert_eq!(t.next_action(), BulkAction::Failed);
    assert_eq!(t.error, Some(it8951_video::errors::Error::Transport));
}

#[test]
fn fault_during_status_read_is_fatal() {
    let mut tags = TagCounter::new();
    let mut t = Transfer::start_read(&mut tags, &[0u8; 16], 4);
    t.step(BulkEvent::Ack);
    t.step(BulkEvent::Read(vec![0; 4]));
    t.step(BulkEvent::Fault);
    assert_eq!(t.next_action(), BulkAction::Failed);
    assert_eq!(t.error, Some(it8951_video::errors::Error::Transport));
}

#[test]
fn short_data_read_is_protocol_corruption() {
    let mut tags = TagCounter::new();
    let mut t = Transfer::start_read(&mut tags, &[0u8; 16], 4);
    t.step(BulkEvent::Ack);
    t.step(BulkEvent::Read(vec![0; 3]));
    assert_eq!(t.next_action(), BulkAction::Failed);
    assert_eq!(t.error, Some(it8951_video::errors::Error::Protocol));
}

#[test]
fn malformed_status_wrapper_is_protocol_corruption() {
    let mut tags = TagCounter::new();
    let mut t = Transfer::start_write(&mut tags, &[0u8; 16], vec![]);
    t.step(BulkEvent::Ack);
    t.step(BulkEvent::Ack);
    t.step(BulkEvent::Read(vec![0; 12]));
    assert_eq!(t.next_action(), BulkAction::Failed);
    assert_eq!(t.error, Some(it8951_video::errors::Error::Protocol));
}

#[test]
fn tags_start_at_one_and_increase() {
    let mut tags = TagCounter::new();
    let mut seen = Vec::new();
    for _ in 0..1000 {
        seen.push(tags.fresh_tag());
    }
    for (i, &t) in seen.iter().enumerate() {
        assert_eq!(t, (i + 1) as u32);
    }
    for w in seen.windows(2) {
        assert!(w[1] > w[0]);
    }
}

#[test]
fn tags_wrap_silently_without_repeating_nearby() {
    let mut tags = TagCounter { next: u32::MAX - 2 };
    let issued: Vec<u32> = (0..6).map(|_| tags.fresh_tag()).collect();
    assert_eq!(issued, vec![u32::MAX - 2, u32::MAX - 1, u32::MAX, 0, 1, 2]);
    // No repeats across the wrap.
    for i in 0..issued.len() {
        for j in (i + 1)..issued.len() {
            assert_ne!(issued[i], issued[j]);
        }
    }
}

#[test]
fn consecutive_transfers_carry_increasing_tags() {
    let mut tags = TagCounter::new();
    let t1 = Transfer::start_read(&mut tags, &[0u8; 16], 4);
    let t2 = Transfer::start_write(&mut tags, &[0u8; 16], vec![]);
    let t3 = Transfer::start_read(&mut tags, &[0u8; 16], 112);
    // The tag field sits at bytes 4..8 of the wrapper, little-endian.
    let tag_of = |t: &Transfer| {
        let b = t.wrapper_bytes();
        u32::from_le_bytes([b[4], b[5], b[6], b[7]])
    };
    assert_eq!(tag_of(&t1), 1);
    assert_eq!(tag_of(&t2), 2);
    assert_eq!(tag_of(&t3), 3);
}
