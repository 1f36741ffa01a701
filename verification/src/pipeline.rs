//! The two-stage playback pipeline's decisions.
//!
//! Playback runs as two concurrent workers: a producer that decodes,
//! subsamples and dithers source frames, and a consumer that writes each
//! queued frame to the device and triggers a display. The workers, the
//! queue between them and the cancellation signal live outside; everything
//! either worker decides — which source frames to keep, which refresh mode
//! each displayed frame gets, and when to clear the display and stop — is
//! a verified function here, so the drain/cancel behaviour is pinned down
//! exactly.

use vstd::prelude::*;

use crate::commands::Mode;
use crate::errors::Error;

verus! {

/// The playback options the command line must honor, checked before any
/// device I/O happens.
#[derive(Clone, Copy, Debug, PartialEq, Eq, Structural)]
pub struct PlayerOptions {
    /// Target image width in pixels.
    pub width: u32,
    /// Target image height in pixels.
    pub height: u32,
    /// Keep every `take`-th source frame; must be positive.
    pub take: usize,
    /// Every `ghost_every`-th displayed frame uses the high-quality mode
    /// to suppress accumulated ghosting; must be positive.
    pub ghost_every: usize,
    /// VCOM calibration voltage in signed millivolts; must lie strictly
    /// between -5 V and 0 V.
    pub vcom_millivolts: i32,
}

impl PlayerOptions {
    /// Whether the options are acceptable: positive subsampling factor and
    /// ghost-reduction interval, a VCOM voltage strictly inside its range,
    /// and a resolution whose pixel count packs into whole bytes.
    pub open spec fn spec_valid(self) -> bool {
        &&& self.take > 0
        &&& self.ghost_every > 0
        &&& -5000 < self.vcom_millivolts < 0
        &&& (self.width * self.height) % 8 == 0
    }

    /// Reject invalid options before any device I/O.
    pub fn validate(&self) -> (r: Result<(), Error>)
        ensures
            match r {
                Ok(()) => self.spec_valid(),
                Err(e) => e == Error::Precondition && !self.spec_valid(),
            },
    {
        proof {
            assert((self.width as int) * (self.height as int) < 0x1_0000_0000_0000_0000)
                by (nonlinear_arith)
                requires
                    self.width < 0x1_0000_0000,
                    self.height < 0x1_0000_0000,
            ;
            assert((self.width as u64) * (self.height as u64) == (self.width as int) * (
            self.height as int)) by (nonlinear_arith);
        }
        if self.take == 0 || self.ghost_every == 0 {
            return Err(Error::Precondition);
        }
        if self.vcom_millivolts <= -5000 || self.vcom_millivolts >= 0 {
            return Err(Error::Precondition);
        }
        if ((self.width as u64) * (self.height as u64)) % 8 != 0 {
            return Err(Error::Precondition);
        }
        Ok(())
    }
}

/// The refresh mode the consumer gives displayed frame number `displayed`:
/// every `ghost_every`-th one is the slower high-quality mode, the rest
/// the fast partial-refresh mode.
pub open spec fn spec_display_mode(displayed: int, ghost_every: int) -> Mode {
    if displayed % ghost_every == 0 {
        Mode::GL16
    } else {
        Mode::A2
    }
}

/// Pick the refresh mode for one displayed frame.
pub fn display_mode_for(displayed: usize, ghost_every: usize) -> (m: Mode)
    requires
        ghost_every > 0,
    ensures
        m == spec_display_mode(displayed as int, ghost_every as int),
{
    if displayed % ghost_every == 0 {
        Mode::GL16
    } else {
        Mode::A2
    }
}

/// The producer's subsampling state: which source frame comes next and
/// which of them to keep.
pub struct Producer {
    /// Keep every `take`-th source frame.
    pub take: usize,
    /// Index of the next source frame.
    pub frame_counter: usize,
}

impl Producer {
    /// A producer at the start of the source.
    pub fn new(take: usize) -> (p: Producer)
        requires
            take > 0,
        ensures
            p.take == take,
            p.frame_counter == 0,
    {
        Producer { take, frame_counter: 0 }
    }

    /// Decide the next decoded source frame: `true` means dither it and
    /// hand it to the queue, `false` means drop it.
    pub fn on_frame(&mut self) -> (keep: bool)
        requires
            old(self).take > 0,
            old(self).frame_counter < usize::MAX,
        ensures
            keep == (old(self).frame_counter % old(self).take == 0),
            final(self).take == old(self).take,
            final(self).frame_counter == old(self).frame_counter + 1,
    {
        let keep = self.frame_counter % self.take == 0;
        self.frame_counter = self.frame_counter + 1;
        keep
    }
}

/// What the consumer does after one poll of the queue.
#[derive(Clone, Copy, Debug, PartialEq, Eq, Structural)]
pub enum ConsumerAction {
    /// Write the popped frame to the image buffer and display it with
    /// this mode.
    Display(Mode),
    /// Clear the display to white and stop.
    ClearAndStop,
    /// Nothing to do yet; poll again.
    Poll,
}

/// The consumer's state: how many frames it has displayed and how often
/// the high-quality mode recurs.
pub struct Consumer {
    /// Every `ghost_every`-th displayed frame uses the high-quality mode.
    pub ghost_every: usize,
    /// Number of frames displayed so far.
    pub displayed: usize,
}

impl Consumer {
    /// A consumer that has displayed nothing yet.
    pub fn new(ghost_every: usize) -> (c: Consumer)
        requires
            ghost_every > 0,
        ensures
            c.ghost_every == ghost_every,
            c.displayed == 0,
    {
        Consumer { ghost_every, displayed: 0 }
    }

    /// Decide one consumer iteration, after a non-blocking try-pop of the
    /// queue.
    ///
    /// A popped frame is always displayed, with the mode its position
    /// calls for. Only when the queue was empty do the termination flags
    /// matter: an external stop or a naturally finished producer (drain
    /// complete — the queue is empty and no more frames are coming) both
    /// end the run with a clear-to-white; otherwise the consumer just
    /// polls again. This try-then-check order is what keeps the
    /// drain/cancel race sound.
    pub fn step(&mut self, frame_available: bool, cancelled: bool, finished: bool) -> (a:
        ConsumerAction)
        requires
            old(self).ghost_every > 0,
            old(self).displayed < usize::MAX,
        ensures
            final(self).ghost_every == old(self).ghost_every,
            frame_available ==> a == ConsumerAction::Display(
                spec_display_mode(old(self).displayed as int, old(self).ghost_every as int)
            ) && final(self).displayed == old(self).displayed + 1,
            !frame_available && (cancelled || finished) ==> a == ConsumerAction::ClearAndStop
                && final(self).displayed == old(self).displayed,
            !frame_available && !cancelled && !finished ==> a == ConsumerAction::Poll
                && final(self).displayed == old(self).displayed,
    {
        if frame_available {
            let mode = display_mode_for(self.displayed, self.ghost_every);
            self.displayed = self.displayed + 1;
            ConsumerAction::Display(mode)
        } else if cancelled || finished {
            ConsumerAction::ClearAndStop
        } else {
            ConsumerAction::Poll
        }
    }
}

/// The full display plan for a frame set played from the start: the source
/// index and refresh mode of every frame the pipeline will display, in
/// order. Frame `i` of the plan is source frame `i * take`, and its mode
/// alternates as the ghost-reduction interval dictates.
pub fn playback_plan(frame_count: usize, take: usize, ghost_every: usize) -> (plan: Vec<
    (usize, Mode),
>)
    requires
        take > 0,
        ghost_every > 0,
        frame_count + take - 1 <= usize::MAX,
    ensures
        plan@.len() == ((frame_count + take - 1) as int) / (take as int),
        forall|i: int|
            0 <= i < plan@.len() ==> (#[trigger] plan@[i]).0 == i * take && plan@[i].1
                == spec_display_mode(i, ghost_every as int),
        forall|i: int| 0 <= i < plan@.len() ==> (#[trigger] plan@[i]).0 < frame_count,
        forall|i: int, j: int|
            0 <= i < j < plan@.len() ==> (#[trigger] plan@[i]).0 < (#[trigger] plan@[j]).0,
{
    let mut plan: Vec<(usize, Mode)> = Vec::new();
    let mut src: usize = 0;
    let mut displayed: usize = 0;
    while src < frame_count
        invariant
            take > 0,
            ghost_every > 0,
            frame_count + take - 1 <= usize::MAX,
            src == displayed * take,
            displayed == plan@.len(),
            src < frame_count + take,
            forall|i: int|
                0 <= i < plan@.len() ==> (#[trigger] plan@[i]).0 == i * take && plan@[i].1
                    == spec_display_mode(i, ghost_every as int),
            forall|i: int| 0 <= i < plan@.len() ==> (#[trigger] plan@[i]).0 < frame_count,
        decreases frame_count - displayed,
    {
        proof {
            assert(displayed < frame_count) by (nonlinear_arith)
                requires
                    displayed * take == src,
                    src < frame_count,
                    take >= 1,
            ;
        }
        let mode = display_mode_for(displayed, ghost_every);
        plan.push((src, mode));
        proof {
            assert((displayed + 1) * take == displayed * take + take) by (nonlinear_arith);
            assert(displayed < frame_count) by (nonlinear_arith)
                requires
                    displayed * take == src,
                    src < frame_count,
                    take >= 1,
            ;
        }
        src = src + take;
        displayed = displayed + 1;
    }
    proof {
        assert forall|i: int, j: int| 0 <= i < j < plan@.len() implies (#[trigger] plan@[i]).0 < (
        #[trigger] plan@[j]).0 by {
            assert(i * take < j * take) by (nonlinear_arith)
                requires
                    0 <= i < j,
                    take >= 1,
            ;
        }
        assert(plan@.len() == ((frame_count + take - 1) as int) / (take as int)) by {
            let n = frame_count as int;
            let t = take as int;
            let d = plan@.len() as int;
            assert(src == d * t);
            assert(d * t >= n);
            assert((d - 1) * t == d * t - t) by (nonlinear_arith);
            if n > 0 {
                assert(d * t < n + t);
                vstd::arithmetic::div_mod::lemma_fundamental_div_mod_converse(
                    n + t - 1,
                    t,
                    d,
                    n + t - 1 - d * t,
                );
            } else {
                assert(d == 0);
                vstd::arithmetic::div_mod::lemma_fundamental_div_mod_converse(
                    t - 1,
                    t,
                    0,
                    t - 1,
                );
            }
        }
    }
    plan
}

} // verus!
