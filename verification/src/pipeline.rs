use vstd::prelude::*;
use crate::filename::{render_filename, spec_filename};
use crate::frame::VideoFrame;
use crate::sampler::{effective_pts, emit_spec, should_emit};
use crate::stream::StreamDescriptor;
use crate::writer::{encode_frame, png_encoding};

verus! {

/// Where the pipeline stands. Packets are accepted only while reading;
/// after the input is exhausted the decoder is drained; once drained the
/// pipeline is terminal and accepts nothing further.
#[derive(Clone, Copy, Debug, PartialEq, Eq, Structural)]
pub enum Phase {
    Reading,
    Draining,
    Terminated,
}

/// One output image, ready to be written to disk: its filename within
/// the output directory, and the encoded bytes.
pub struct Emission {
    pub filename: String,
    pub png: Vec<u8>,
}

/// The decision core of a run. A driver feeds it each decoded-and-
/// converted frame; it applies the sampling policy, numbers the emitted
/// images and names their files, and tracks the run's phase.
pub struct Pipeline {
    /// Index of the chosen video stream; packets of other streams are
    /// discarded.
    pub video_stream_index: usize,
    /// Time-base numerator of the chosen stream.
    pub tb_num: i32,
    /// Time-base denominator of the chosen stream.
    pub tb_den: i32,
    /// Frame width the decoder reports for the stream.
    pub width: u32,
    /// Frame height the decoder reports for the stream.
    pub height: u32,
    /// Number of images emitted so far; names the next output file.
    pub frame_index: u32,
    pub phase: Phase,
    /// The names of the images emitted so far, in emission order.
    pub emitted: Ghost<Seq<Seq<char>>>,
}

impl Pipeline {
    /// A positive time base, nonzero dimensions, and one name recorded
    /// per emitted image: the i-th image carries the name for sequence
    /// number i.
    pub open spec fn wf(&self) -> bool {
        &&& self.tb_den > 0
        &&& self.width > 0
        &&& self.height > 0
        &&& self.emitted@.len() == self.frame_index
        &&& forall|i: int|
            0 <= i < self.emitted@.len() ==> self.emitted@[i] == spec_filename(i as nat)
    }

    /// Starts a run on the chosen stream, with the frame dimensions the
    /// decoder reports. No image has been emitted yet.
    pub fn new(desc: &StreamDescriptor, width: u32, height: u32) -> (p: Pipeline)
        requires
            desc.tb_den > 0,
            width > 0,
            height > 0,
        ensures
            p.wf(),
            p.video_stream_index == desc.index,
            p.tb_num == desc.tb_num,
            p.tb_den == desc.tb_den,
            p.width == width,
            p.height == height,
            p.frame_index == 0,
            p.phase is Reading,
            p.emitted@ == Seq::<Seq<char>>::empty(),
    {
        Pipeline {
            video_stream_index: desc.index,
            tb_num: desc.tb_num,
            tb_den: desc.tb_den,
            width,
            height,
            frame_index: 0,
            phase: Phase::Reading,
            emitted: Ghost(Seq::empty()),
        }
    }

    /// Whether a packet belongs to the chosen video stream and must be
    /// submitted to the decoder; all other packets are discarded. Only
    /// permitted while reading: submitting after end-of-input is a
    /// protocol error.
    pub fn wants_packet(&self, stream_index: usize) -> (r: bool)
        requires
            self.phase is Reading,
        ensures
            r == (stream_index == self.video_stream_index),
    {
        stream_index == self.video_stream_index
    }

    /// Handles one converted frame: emits it as an image exactly when the
    /// sampling policy holds of its timestamp. On emission the image is
    /// encoded, named after the current counter value, and the counter
    /// advances; otherwise nothing changes.
    pub fn process_frame(&mut self, frame: &VideoFrame) -> (r: Option<Emission>)
        requires
            old(self).wf(),
            !(old(self).phase is Terminated),
            frame.wf(),
            frame.width == old(self).width,
            frame.height == old(self).height,
            old(self).frame_index < u32::MAX,
        ensures
            final(self).wf(),
            final(self).video_stream_index == old(self).video_stream_index,
            final(self).tb_num == old(self).tb_num,
            final(self).tb_den == old(self).tb_den,
            final(self).width == old(self).width,
            final(self).height == old(self).height,
            final(self).phase == old(self).phase,
            !emit_spec(effective_pts(frame.pts), old(self).tb_num as int, old(self).tb_den as int)
                ==> (r is None && final(self).frame_index == old(self).frame_index
                && final(self).emitted@ == old(self).emitted@),
            emit_spec(effective_pts(frame.pts), old(self).tb_num as int, old(self).tb_den as int)
                ==> (r matches Some(e) && e.filename@ == spec_filename(
                old(self).frame_index as nat,
            ) && e.png@ == png_encoding(frame.width as int, frame.height as int, frame.data@)
                && final(self).frame_index == old(self).frame_index + 1 && final(self).emitted@
                == old(self).emitted@.push(e.filename@)),
    {
        if should_emit(frame.pts, self.tb_num, self.tb_den) {
            let png = encode_frame(frame);
            let filename = render_filename(self.frame_index);
            self.emitted = Ghost(self.emitted@.push(filename@));
            self.frame_index = self.frame_index + 1;
            proof {
                assert forall|i: int| 0 <= i < self.emitted@.len() implies self.emitted@[i]
                    == spec_filename(i as nat) by {
                    if i < old(self).emitted@.len() {
                        assert(self.emitted@[i] == old(self).emitted@[i]);
                    }
                }
            }
            Some(Emission { filename, png })
        } else {
            None
        }
    }

    /// The input is exhausted: stop reading packets and start draining
    /// the decoder's buffered frames.
    pub fn finish_input(&mut self)
        requires
            old(self).wf(),
            old(self).phase is Reading,
        ensures
            final(self).wf(),
            final(self).phase is Draining,
            *final(self) == (Pipeline { phase: Phase::Draining, ..*old(self) }),
    {
        self.phase = Phase::Draining;
    }

    /// The decoder has no frames left: the run is complete and the
    /// pipeline is terminal.
    pub fn finish_drain(&mut self)
        requires
            old(self).wf(),
            old(self).phase is Draining,
        ensures
            final(self).wf(),
            final(self).phase is Terminated,
            *final(self) == (Pipeline { phase: Phase::Terminated, ..*old(self) }),
    {
        self.phase = Phase::Terminated;
    }

    /// How many images the run has emitted so far.
    pub fn frames_emitted(&self) -> (n: u32)
        ensures
            n == self.frame_index,
    {
        self.frame_index
    }

    /// The run's current phase.
    pub fn current_phase(&self) -> (p: Phase)
        ensures
            p == self.phase,
    {
        self.phase
    }
}

/// Output filenames are contiguous from sequence number zero, with no
/// gaps: a run that has emitted N images has recorded exactly N names,
/// and the i-th of them is the name for sequence number i.
pub proof fn lemma_output_contiguous(p: &Pipeline)
    requires
        p.wf(),
    ensures
        p.emitted@.len() == p.frame_index,
        forall|i: int| 0 <= i < p.frame_index ==> p.emitted@[i] == spec_filename(i as nat),
{
}

} // verus!
