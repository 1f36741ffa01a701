//! Frame sets and their persisted format.
//!
//! A raw frame is a packed 1-bit-per-pixel image (1 = white, 0 = black); a
//! frame set bundles the target width and height with an ordered sequence
//! of such frames. On disk a frame set is a little-endian, fixed-width
//! record: the two dimensions as 32-bit fields, the frame count as a
//! 64-bit field, then each frame as a 64-bit byte length followed by its
//! bytes. The codec here round-trips exactly: decoding accepts precisely
//! the encodings and gives back the value that was encoded.

use vstd::prelude::*;

use crate::errors::Error;
use crate::wire::{
    push_u32_le, push_u64_le, read_u32_le, read_u64_le, spec_u32_to_le_bytes,
    spec_u64_from_le_bytes, spec_u64_to_le_bytes,
};

verus! {

/// One packed 1-bit-per-pixel frame.
pub type RawFrame = Vec<u8>;

/// The wire image of one frame: its byte length as a little-endian 64-bit
/// field, then its bytes.
pub open spec fn spec_encode_frame(f: Seq<u8>) -> Seq<u8> {
    spec_u64_to_le_bytes(f.len() as u64) + f
}

/// The wire image of a sequence of frames, in order.
pub open spec fn spec_encode_frame_seq(frames: Seq<Seq<u8>>) -> Seq<u8>
    decreases frames.len(),
{
    if frames.len() == 0 {
        Seq::<u8>::empty()
    } else {
        spec_encode_frame(frames.first()) + spec_encode_frame_seq(frames.drop_first())
    }
}

/// The wire image of a whole frame set.
pub open spec fn spec_frameset_bytes(width: u32, height: u32, frames: Seq<Seq<u8>>) -> Seq<u8> {
    spec_u32_to_le_bytes(width) + spec_u32_to_le_bytes(height) + spec_u64_to_le_bytes(
        frames.len() as u64,
    ) + spec_encode_frame_seq(frames)
}

/// Every frame costs at least its 8-byte length field on the wire.
pub proof fn lemma_encode_frame_seq_len(frames: Seq<Seq<u8>>)
    ensures
        spec_encode_frame_seq(frames).len() >= 8 * frames.len(),
    decreases frames.len(),
{
    if frames.len() > 0 {
        lemma_encode_frame_seq_len(frames.drop_first());
    }
}

/// Appending a frame extends the wire image by that frame's encoding.
pub proof fn lemma_encode_frame_seq_push(frames: Seq<Seq<u8>>, f: Seq<u8>)
    ensures
        spec_encode_frame_seq(frames.push(f)) == spec_encode_frame_seq(frames)
            + spec_encode_frame(f),
    decreases frames.len(),
{
    let p = frames.push(f);
    if frames.len() == 0 {
        assert(p.first() == f);
        assert(p.drop_first() =~= Seq::<Seq<u8>>::empty());
        assert(spec_encode_frame_seq(p.drop_first()) == Seq::<u8>::empty());
        assert(spec_encode_frame_seq(p) == spec_encode_frame(f) + Seq::<u8>::empty());
        assert(spec_encode_frame_seq(frames) == Seq::<u8>::empty());
        assert(spec_encode_frame_seq(p) =~= spec_encode_frame_seq(frames) + spec_encode_frame(f));
    } else {
        assert(p.first() == frames.first());
        assert(p.drop_first() =~= frames.drop_first().push(f));
        assert(spec_encode_frame_seq(p) == spec_encode_frame(frames.first())
            + spec_encode_frame_seq(frames.drop_first().push(f)));
        lemma_encode_frame_seq_push(frames.drop_first(), f);
        assert(spec_encode_frame_seq(frames) == spec_encode_frame(frames.first())
            + spec_encode_frame_seq(frames.drop_first()));
        assert(spec_encode_frame_seq(p) =~= spec_encode_frame_seq(frames) + spec_encode_frame(f));
    }
}

/// Reading the wire image of a non-empty frame sequence: the first eight
/// bytes carry the first frame's length, the frame's bytes follow, and the
/// rest of the image encodes the remaining frames.
pub proof fn lemma_encode_frame_seq_first(frames: Seq<Seq<u8>>, bytes: Seq<u8>)
    requires
        frames.len() > 0,
        spec_encode_frame_seq(frames) == bytes,
        bytes.len() <= u64::MAX,
    ensures
        bytes.len() >= 8,
        frames.first().len() == spec_u64_from_le_bytes(bytes.subrange(0, 8)),
        8 + frames.first().len() <= bytes.len(),
        frames.first() == bytes.subrange(8, 8 + frames.first().len() as int),
        spec_encode_frame_seq(frames.drop_first()) == bytes.subrange(
            8 + frames.first().len() as int,
            bytes.len() as int,
        ),
{
    let f = frames.first();
    let rest = spec_encode_frame_seq(frames.drop_first());
    assert(bytes == (spec_u64_to_le_bytes(f.len() as u64) + f) + rest);
    assert(bytes.len() == 8 + f.len() + rest.len());
    assert(f.len() <= u64::MAX);
    assert(f.len() as u64 as int == f.len());
    crate::wire::lemma_u64_le_round_trip();
    assert(bytes.subrange(0, 8) =~= spec_u64_to_le_bytes(f.len() as u64));
    assert(spec_u64_from_le_bytes(spec_u64_to_le_bytes(f.len() as u64)) == f.len() as u64);
    assert(f =~= bytes.subrange(8, 8 + f.len() as int));
    assert(rest =~= bytes.subrange(8 + f.len() as int, bytes.len() as int));
}

/// One parsing step against a candidate frame sequence: when the frames
/// from position `i` on encode to the bytes from offset `pos` on, the
/// length field at `pos` is frame `i`'s byte length, the frame's bytes
/// follow in full, and the remaining frames encode to the remaining bytes.
pub proof fn lemma_candidate_step(buf: Seq<u8>, pos: int, i: int, fr: Seq<Seq<u8>>)
    requires
        0 <= i < fr.len(),
        0 <= pos <= buf.len(),
        buf.len() <= u64::MAX,
        spec_encode_frame_seq(fr.skip(i)) == buf.subrange(pos, buf.len() as int),
    ensures
        pos + 8 <= buf.len(),
        fr[i].len() == spec_u64_from_le_bytes(buf.subrange(pos, pos + 8)),
        pos + 8 + fr[i].len() <= buf.len(),
        fr[i] == buf.subrange(pos + 8, pos + 8 + fr[i].len() as int),
        spec_encode_frame_seq(fr.skip(i + 1)) == buf.subrange(
            pos + 8 + fr[i].len() as int,
            buf.len() as int,
        ),
{
    let tail = fr.skip(i);
    let tail_bytes = buf.subrange(pos, buf.len() as int);
    lemma_encode_frame_seq_first(tail, tail_bytes);
    assert(tail.first() == fr[i]);
    assert(tail_bytes.subrange(0, 8) =~= buf.subrange(pos, pos + 8));
    assert(tail.drop_first() =~= fr.skip(i + 1));
    assert(tail_bytes.subrange(8, 8 + fr[i].len() as int) =~= buf.subrange(
        pos + 8,
        pos + 8 + fr[i].len() as int,
    ));
    assert(tail_bytes.subrange(8 + fr[i].len() as int, tail_bytes.len() as int) =~= buf.subrange(
        pos + 8 + fr[i].len() as int,
        buf.len() as int,
    ));
}

/// The wire image determines the frame sequence: two sequences of the same
/// length with the same image hold the same frames.
pub proof fn lemma_encode_frame_seq_injective(a: Seq<Seq<u8>>, b: Seq<Seq<u8>>)
    requires
        a.len() == b.len(),
        spec_encode_frame_seq(a) == spec_encode_frame_seq(b),
        spec_encode_frame_seq(a).len() <= u64::MAX,
    ensures
        a == b,
    decreases a.len(),
{
    if a.len() == 0 {
        assert(a =~= b);
    } else {
        let bytes = spec_encode_frame_seq(a);
        lemma_encode_frame_seq_first(a, bytes);
        lemma_encode_frame_seq_first(b, bytes);
        assert(a.first() == b.first());
        lemma_encode_frame_seq_injective(a.drop_first(), b.drop_first());
        assert forall|i: int| 0 <= i < a.len() implies a[i] == b[i] by {
            if i > 0 {
                assert(a.drop_first()[i - 1] == a[i]);
                assert(b.drop_first()[i - 1] == b[i]);
            }
        }
        assert(a =~= b);
    }
}

/// A frame set: the target width and height, and the frames in display
/// order. The shape mirrors the record on disk; whether every frame has
/// the right byte length for the dimensions is checked separately, before
/// playback, by [`RawFrames::matches_target`].
#[derive(Clone, Debug, PartialEq, Eq)]
pub struct RawFrames(pub u32, pub u32, pub Vec<RawFrame>);

impl RawFrames {
    /// Bundle a target size and frames into a frame set.
    pub fn new(width: u32, height: u32, data: Vec<RawFrame>) -> (r: RawFrames)
        ensures
            r.0 == width,
            r.1 == height,
            r.2 == data,
    {
        RawFrames(width, height, data)
    }

    /// Number of frames.
    pub fn len(&self) -> (n: usize)
        ensures
            n == self.2@.len(),
    {
        self.2.len()
    }

    /// The frames, in display order.
    pub fn iter(&self) -> (r: &Vec<RawFrame>)
        ensures
            r == &self.2,
    {
        &self.2
    }

    /// The frame at `index`, if there is one.
    pub fn get(&self, index: usize) -> (r: Option<&Vec<u8>>)
        ensures
            match r {
                Some(f) => index < self.2@.len() && f == &self.2@[index as int],
                None => index >= self.2@.len(),
            },
    {
        if index < self.2.len() {
            Some(&self.2[index])
        } else {
            None
        }
    }

    /// Target width in pixels.
    pub fn width(&self) -> (w: u32)
        ensures
            w == self.0,
    {
        self.0
    }

    /// Target height in pixels.
    pub fn height(&self) -> (h: u32)
        ensures
            h == self.1,
    {
        self.1
    }

    /// The frame-set invariant against a playback target: the stored
    /// dimensions are the target's, the set is not empty, and every frame
    /// holds exactly `width * height / 8` packed bytes.
    pub open spec fn spec_matches_target(self, width: u32, height: u32) -> bool {
        &&& self.0 == width
        &&& self.1 == height
        &&& self.2@.len() > 0
        &&& forall|i: int|
            0 <= i < self.2@.len() ==> ((#[trigger] self.2@[i])@.len() as int) == width * height
                / 8
    }

    /// Re-check the frame-set invariant before playback.
    pub fn matches_target(&self, width: u32, height: u32) -> (ok: bool)
        ensures
            ok == self.spec_matches_target(width, height),
    {
        if self.0 != width || self.1 != height || self.2.len() == 0 {
            return false;
        }
        proof {
            assert((width as int) * (height as int) < 0x1_0000_0000_0000_0000) by (nonlinear_arith)
                requires
                    width < 0x1_0000_0000,
                    height < 0x1_0000_0000,
            ;
        }
        let expected: u64 = (width as u64) * (height as u64) / 8;
        let mut i: usize = 0;
        while i < self.2.len()
            invariant
                i <= self.2@.len(),
                expected == (width as int) * (height as int) / 8,
                forall|j: int| 0 <= j < i ==> ((#[trigger] self.2@[j])@.len() as int) == expected,
            decreases self.2@.len() - i,
        {
            if self.2[i].len() as u64 != expected {
                return false;
            }
            i = i + 1;
        }
        true
    }

    /// The wire image of this frame set.
    pub open spec fn spec_encode(self) -> Seq<u8> {
        spec_frameset_bytes(self.0, self.1, self.2.deep_view())
    }

    /// Serialize the frame set for disk.
    pub fn encode(&self) -> (r: Vec<u8>)
        ensures
            r@ == self.spec_encode(),
    {
        let mut buf: Vec<u8> = Vec::new();
        push_u32_le(&mut buf, self.0);
        push_u32_le(&mut buf, self.1);
        push_u64_le(&mut buf, self.2.len() as u64);
        let ghost header = buf@;
        let mut i: usize = 0;
        proof {
            assert(self.2.deep_view().take(0) =~= Seq::<Seq<u8>>::empty());
            assert(buf@ =~= header + spec_encode_frame_seq(self.2.deep_view().take(0)));
        }
        while i < self.2.len()
            invariant
                i <= self.2@.len(),
                header == spec_u32_to_le_bytes(self.0) + spec_u32_to_le_bytes(self.1)
                    + spec_u64_to_le_bytes(self.2@.len() as u64),
                buf@ == header + spec_encode_frame_seq(self.2.deep_view().take(i as int)),
            decreases self.2@.len() - i,
        {
            let f = &self.2[i];
            push_u64_le(&mut buf, f.len() as u64);
            crate::wire::push_bytes(&mut buf, f.as_slice());
            proof {
                let dv = self.2.deep_view();
                assert(dv[i as int] == self.2@[i as int].deep_view());
                assert(self.2@[i as int].deep_view() =~= f@);
                assert(dv.take(i + 1) =~= dv.take(i as int).push(dv[i as int]));
                lemma_encode_frame_seq_push(dv.take(i as int), dv[i as int]);
                assert(spec_encode_frame(f@) =~= spec_u64_to_le_bytes(f@.len() as u64) + f@);
                assert(buf@ =~= header + spec_encode_frame_seq(dv.take(i + 1)));
            }
            i = i + 1;
        }
        proof {
            assert(self.2.deep_view().take(self.2@.len() as int) =~= self.2.deep_view());
            assert(self.spec_encode() == header + spec_encode_frame_seq(self.2.deep_view()));
        }
        buf
    }

    /// Read a frame set back from its wire image.
    ///
    /// Decoding succeeds exactly on the encodings: it returns `Ok` with a
    /// frame set whose image is `buf`, and `Err` only when no frame set at
    /// all encodes to `buf` — a short buffer, a frame that overruns the
    /// end, or trailing bytes.
    #[verifier::rlimit(100)]
    pub fn decode(buf: &[u8]) -> (r: Result<RawFrames, Error>)
        ensures
            match r {
                Ok(fs) => fs.spec_encode() == buf@,
                Err(e) => {
                    &&& e == Error::Protocol
                    &&& forall|w: u32, h: u32, fr: Seq<Seq<u8>>|
                        buf@ != #[trigger] spec_frameset_bytes(w, h, fr)
                },
            },
    {
        proof {
            crate::wire::lemma_u32_le_round_trip();
            crate::wire::lemma_u64_le_round_trip();
        }
        if buf.len() < 16 {
            proof {
                assert forall|w: u32, h: u32, fr: Seq<Seq<u8>>|
                    buf@ != #[trigger] spec_frameset_bytes(w, h, fr) by {
                    assert(spec_frameset_bytes(w, h, fr).len() >= 16);
                }
            }
            return Err(Error::Protocol);
        }
        let width = read_u32_le(buf, 0);
        let height = read_u32_le(buf, 4);
        let count = read_u64_le(buf, 8);
        proof {
            assert forall|w: u32, h: u32, fr: Seq<Seq<u8>>|
                buf@ == #[trigger] spec_frameset_bytes(w, h, fr) implies w == width && h == height
                && fr.len() == count && spec_encode_frame_seq(fr.skip(0)) == buf@.subrange(
                16,
                buf@.len() as int,
            ) by {
                assert(buf@.subrange(0, 4) =~= spec_u32_to_le_bytes(w));
                assert(buf@.subrange(4, 8) =~= spec_u32_to_le_bytes(h));
                assert(buf@.subrange(8, 16) =~= spec_u64_to_le_bytes(fr.len() as u64));
                assert(spec_u64_from_le_bytes(spec_u64_to_le_bytes(fr.len() as u64)) == fr.len()
                    as u64);
                lemma_encode_frame_seq_len(fr);
                assert(spec_encode_frame_seq(fr).len() == buf@.len() - 16);
                assert(8 * fr.len() <= buf@.len());
                assert(fr.len() as u64 as int == fr.len());
                assert(fr.skip(0) =~= fr);
                assert(spec_encode_frame_seq(fr) =~= buf@.subrange(16, buf@.len() as int));
            }
        }
        let mut frames: Vec<RawFrame> = Vec::new();
        let mut pos: usize = 16;
        let mut i: u64 = 0;
        proof {
            assert(frames.deep_view() =~= Seq::<Seq<u8>>::empty());
            assert(spec_encode_frame_seq(frames.deep_view()) =~= buf@.subrange(16, 16));
        }
        while i < count
            invariant
                16 <= pos <= buf@.len(),
                i <= count,
                i == frames@.len(),
                buf@.len() >= 16,
                width == crate::wire::spec_u32_from_le_bytes(buf@.subrange(0, 4)),
                height == crate::wire::spec_u32_from_le_bytes(buf@.subrange(4, 8)),
                count == spec_u64_from_le_bytes(buf@.subrange(8, 16)),
                spec_encode_frame_seq(frames.deep_view()) == buf@.subrange(16, pos as int),
                forall|w: u32, h: u32, fr: Seq<Seq<u8>>|
                    buf@ == #[trigger] spec_frameset_bytes(w, h, fr) ==> (fr.len() == count
                        && spec_encode_frame_seq(fr.skip(i as int)) == buf@.subrange(
                        pos as int,
                        buf@.len() as int,
                    )),
            decreases count - i,
        {
            if pos > buf.len() - 8 {
                proof {
                    assert forall|w: u32, h: u32, fr: Seq<Seq<u8>>|
                        buf@ != #[trigger] spec_frameset_bytes(w, h, fr) by {
                        if buf@ == spec_frameset_bytes(w, h, fr) {
                            lemma_candidate_step(buf@, pos as int, i as int, fr);
                        }
                    }
                }
                return Err(Error::Protocol);
            }
            let flen = read_u64_le(buf, pos);
            let remaining = buf.len() - pos - 8;
            if flen > remaining as u64 {
                proof {
                    assert forall|w: u32, h: u32, fr: Seq<Seq<u8>>|
                        buf@ != #[trigger] spec_frameset_bytes(w, h, fr) by {
                        if buf@ == spec_frameset_bytes(w, h, fr) {
                            lemma_candidate_step(buf@, pos as int, i as int, fr);
                        }
                    }
                }
                return Err(Error::Protocol);
            }
            let flen_us = flen as usize;
            let frame = vstd::slice::slice_to_vec(
                vstd::slice::slice_subrange(buf, pos + 8, pos + 8 + flen_us),
            );
            let ghost dv = frames.deep_view();
            let ghost fv = frame@;
            proof {
                assert(fv =~= buf@.subrange(pos + 8, pos + 8 + flen_us));
            }
            frames.push(frame);
            proof {
                assert(frames@[i as int]@ == fv);
                assert forall|j: int| 0 <= j < frames@.len() implies frames.deep_view()[j] == (
                if j < i as int {
                    dv[j]
                } else {
                    fv
                }) by {
                    assert(frames.deep_view()[j] == frames@[j].deep_view());
                    assert(frames@[j].deep_view() =~= frames@[j]@);
                }
                assert(frames.deep_view() =~= dv.push(fv));
                lemma_encode_frame_seq_push(dv, fv);
                crate::wire::lemma_u64_le_round_trip();
                assert(spec_u64_to_le_bytes(flen) =~= buf@.subrange(pos as int, pos + 8));
                assert(fv.len() as u64 == flen);
                assert(spec_encode_frame(fv) =~= buf@.subrange(pos as int, pos + 8 + flen_us));
                assert(spec_encode_frame_seq(dv.push(fv)) =~= buf@.subrange(16, pos + 8 + flen_us));
                assert forall|w: u32, h: u32, fr: Seq<Seq<u8>>|
                    buf@ == #[trigger] spec_frameset_bytes(w, h, fr) implies (fr.len() == count
                    && spec_encode_frame_seq(fr.skip(i + 1)) == buf@.subrange(
                    pos + 8 + flen_us,
                    buf@.len() as int,
                )) by {
                    lemma_candidate_step(buf@, pos as int, i as int, fr);
                }
            }
            pos = pos + 8 + flen_us;
            i = i + 1;
        }
        if pos != buf.len() {
            proof {
                assert forall|w: u32, h: u32, fr: Seq<Seq<u8>>|
                    buf@ != #[trigger] spec_frameset_bytes(w, h, fr) by {
                    if buf@ == spec_frameset_bytes(w, h, fr) {
                        let tail = fr.skip(i as int);
                        assert(tail.len() == 0);
                        assert(spec_encode_frame_seq(tail) == Seq::<u8>::empty());
                        assert(buf@.subrange(pos as int, buf@.len() as int).len() == 0);
                    }
                }
            }
            return Err(Error::Protocol);
        }
        let fs = RawFrames(width, height, frames);
        proof {
            crate::wire::lemma_u32_le_round_trip();
            crate::wire::lemma_u64_le_round_trip();
            assert(buf@.subrange(0, 4) =~= spec_u32_to_le_bytes(width));
            assert(buf@.subrange(4, 8) =~= spec_u32_to_le_bytes(height));
            assert(frames.deep_view().len() as u64 == count);
            assert(buf@.subrange(8, 16) =~= spec_u64_to_le_bytes(
                frames.deep_view().len() as u64,
            ));
            assert(spec_encode_frame_seq(frames.deep_view()) =~= buf@.subrange(
                16,
                buf@.len() as int,
            ));
            assert(fs.spec_encode() == spec_u32_to_le_bytes(width) + spec_u32_to_le_bytes(height)
                + spec_u64_to_le_bytes(frames.deep_view().len() as u64) + spec_encode_frame_seq(
                frames.deep_view(),
            ));
            assert(fs.spec_encode() =~= buf@);
        }
        Ok(fs)
    }
}

/// The wire image determines the frame set: decoding a just-encoded frame
/// set gives back the same dimensions and the same frames.
pub proof fn lemma_frameset_encode_injective(a: RawFrames, b: RawFrames)
    requires
        a.spec_encode() == b.spec_encode(),
        a.spec_encode().len() <= u64::MAX,
    ensures
        a.0 == b.0,
        a.1 == b.1,
        a.2.deep_view() == b.2.deep_view(),
{
    let bytes = a.spec_encode();
    let adv = a.2.deep_view();
    let bdv = b.2.deep_view();
    crate::wire::lemma_u32_le_round_trip();
    crate::wire::lemma_u64_le_round_trip();
    assert(bytes == spec_u32_to_le_bytes(a.0) + spec_u32_to_le_bytes(a.1) + spec_u64_to_le_bytes(
        adv.len() as u64,
    ) + spec_encode_frame_seq(adv));
    assert(bytes == spec_u32_to_le_bytes(b.0) + spec_u32_to_le_bytes(b.1) + spec_u64_to_le_bytes(
        bdv.len() as u64,
    ) + spec_encode_frame_seq(bdv));
    assert(bytes.subrange(0, 4) =~= spec_u32_to_le_bytes(a.0));
    assert(bytes.subrange(0, 4) =~= spec_u32_to_le_bytes(b.0));
    assert(a.0 == crate::wire::spec_u32_from_le_bytes(bytes.subrange(0, 4)));
    assert(b.0 == crate::wire::spec_u32_from_le_bytes(bytes.subrange(0, 4)));
    assert(bytes.subrange(4, 8) =~= spec_u32_to_le_bytes(a.1));
    assert(bytes.subrange(4, 8) =~= spec_u32_to_le_bytes(b.1));
    assert(a.1 == crate::wire::spec_u32_from_le_bytes(bytes.subrange(4, 8)));
    assert(b.1 == crate::wire::spec_u32_from_le_bytes(bytes.subrange(4, 8)));
    assert(bytes.subrange(8, 16) =~= spec_u64_to_le_bytes(adv.len() as u64));
    assert(bytes.subrange(8, 16) =~= spec_u64_to_le_bytes(bdv.len() as u64));
    assert(adv.len() as u64 == spec_u64_from_le_bytes(bytes.subrange(8, 16)));
    assert(bdv.len() as u64 == spec_u64_from_le_bytes(bytes.subrange(8, 16)));
    lemma_encode_frame_seq_len(adv);
    lemma_encode_frame_seq_len(bdv);
    assert(adv.len() as u64 as int == adv.len());
    assert(bdv.len() as u64 as int == bdv.len());
    assert(adv.len() == bdv.len());
    assert(spec_encode_frame_seq(adv) =~= bytes.subrange(16, bytes.len() as int));
    assert(spec_encode_frame_seq(bdv) =~= bytes.subrange(16, bytes.len() as int));
    lemma_encode_frame_seq_injective(adv, bdv);
}

} // verus!
