//! The playback pipeline: subsampling, ghost reduction, drain and cancel.

use std::collections::VecDeque;

use it8951_video::commands::Mode;
use it8951_video::dither::{dither_and_pack, ThresholdMatrix};
use it8951_video::errors::Error;
use it8951_video::pipeline::{
    display_mode_for, playback_plan, Consumer, ConsumerAction, PlayerOptions, Producer,
};

fn options() -> PlayerOptions {
    PlayerOptions { width: 1856, height: 1392, take: 5, ghost_every: 32, vcom_millivolts: -1580 }
}

#[test]
fn options_validation() {
    assert!(options().validate().is_ok());
    assert_eq!(PlayerOptions { take: 0, ..options() }.validate(), Err(Error::Precondition));
    assert_eq!(PlayerOptions { ghost_every: 0, ..options() }.validate(), Err(Error::Precondition));
    assert_eq!(
        PlayerOptions { vcom_millivolts: 0, ..options() }.validate(),
        Err(Error::Precondition)
    );
    assert_eq!(
        PlayerOptions { vcom_millivolts: -5000, ..options() }.validate(),
        Err(Error::Precondition)
    );
    // 3 x 3 pixels do not pack into whole bytes.
    assert_eq!(
        PlayerOptions { width: 3, height: 3, ..options() }.validate(),
        Err(Error::Precondition)
    );
}

#[test]
fn producer_keeps_every_nth_frame() {
    let mut p = Producer::new(5);
    let kept: Vec<usize> = (0..10).filter(|_| p.on_frame()).collect();
    // With the counter advancing per source frame, frames 0 and 5 survive.
    assert_eq!(kept.len(), 2);
    let mut p2 = Producer::new(1);
    let all: Vec<bool> = (0..4).map(|_| p2.on_frame()).collect();
    assert_eq!(all, vec![true, true, true, true]);
}

#[test]
fn ghost_reduction_mode_cadence() {
    assert_eq!(display_mode_for(0, 32), Mode::GL16);
    for i in 1..32 {
        assert_eq!(display_mode_for(i, 32), Mode::A2);
    }
    assert_eq!(display_mode_for(32, 32), Mode::GL16);
    assert_eq!(display_mode_for(64, 32), Mode::GL16);
}

#[test]
fn plan_for_ten_frames_take_five_ghost_32() {
    // The end-to-end scenario: 1856 x 1392, ten source frames, factor 5,
    // ghost interval 32 — source indices 0 and 5 are displayed, in that
    // order, the first with the high-quality mode, the rest fast.
    let plan = playback_plan(10, 5, 32);
    assert_eq!(plan, vec![(0, Mode::GL16), (5, Mode::A2)]);
}

#[test]
fn plan_marks_every_32nd_displayed_frame() {
    let plan = playback_plan(400, 5, 32);
    assert_eq!(plan.len(), 80);
    for (i, (src, mode)) in plan.iter().enumerate() {
        assert_eq!(*src, i * 5);
        let expected = if i % 32 == 0 { Mode::GL16 } else { Mode::A2 };
        assert_eq!(*mode, expected);
    }
}

#[test]
fn end_to_end_ten_frame_run() {
    // Drive the two stages by hand over ten 1856 x 1392 source frames with
    // a real queue between them: per frame 1856 * 1392 / 8 = 322944 bytes.
    let opts = options();
    let tm = ThresholdMatrix::new();
    let mut producer = Producer::new(opts.take);
    let mut queue: VecDeque<(usize, Vec<u8>)> = VecDeque::new();
    let frame_bytes = (opts.width * opts.height / 8) as usize;

    // Producer stage: dither and queue every kept frame. To keep the test
    // quick only the kept frames are actually dithered, on a small image
    // standing in for the full one.
    for src in 0..10usize {
        if producer.on_frame() {
            let gray = vec![if src % 2 == 0 { 255u8 } else { 0u8 }; 16];
            let packed_probe = dither_and_pack(&gray, 16, 1, &tm);
            assert_eq!(packed_probe.len(), 2);
            queue.push_back((src, vec![packed_probe[0]; frame_bytes]));
        }
    }
    let finished = true;

    // Consumer stage: pop, display, and stop once drained.
    let mut consumer = Consumer::new(opts.ghost_every);
    let mut displayed: Vec<(usize, Mode)> = Vec::new();
    let mut stopped = false;
    while !stopped {
        let popped = queue.pop_front();
        match consumer.step(popped.is_some(), false, finished) {
            ConsumerAction::Display(mode) => {
                let (src, frame) = popped.unwrap();
                assert_eq!(frame.len(), 322_944);
                displayed.push((src, mode));
            }
            ConsumerAction::ClearAndStop => {
                stopped = true;
            }
            ConsumerAction::Poll => {}
        }
    }
    assert_eq!(displayed, vec![(0, Mode::GL16), (5, Mode::A2)]);
}

#[test]
fn consumer_drains_queue_before_honoring_finished() {
    let mut c = Consumer::new(32);
    // A frame in hand is displayed even when the producer has finished.
    assert_eq!(c.step(true, false, true), ConsumerAction::Display(Mode::GL16));
    // Empty queue and finished producer: drain complete.
    assert_eq!(c.step(false, false, true), ConsumerAction::ClearAndStop);
}

#[test]
fn consumer_stops_on_cancellation_when_queue_is_empty() {
    let mut c = Consumer::new(32);
    assert_eq!(c.step(false, true, false), ConsumerAction::ClearAndStop);
    // Nothing available and no reason to stop: keep polling.
    let mut c2 = Consumer::new(32);
    assert_eq!(c2.step(false, false, false), ConsumerAction::Poll);
}
