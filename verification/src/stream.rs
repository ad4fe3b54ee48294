use vstd::prelude::*;
use crate::errors::PipelineError;

verus! {

/// Metadata of one stream in the container, as the demuxer reports it.
#[derive(Clone, Copy, Debug, PartialEq, Eq, Structural)]
pub struct StreamInfo {
    /// The stream's index within the container.
    pub index: usize,
    /// Whether the stream is of video type.
    pub is_video: bool,
    /// Frame width from the stream's codec parameters (zero if unknown).
    pub width: u32,
    /// Frame height from the stream's codec parameters (zero if unknown).
    pub height: u32,
    /// Time-base numerator.
    pub tb_num: i32,
    /// Time-base denominator.
    pub tb_den: i32,
}

/// The chosen video stream, fixed once at pipeline start.
#[derive(Clone, Copy, Debug, PartialEq, Eq, Structural)]
pub struct StreamDescriptor {
    pub index: usize,
    pub width: u32,
    pub height: u32,
    pub tb_num: i32,
    pub tb_den: i32,
}

/// The pixel area of a stream's frames.
pub open spec fn area(s: StreamInfo) -> int {
    s.width * s.height
}

/// The descriptor carries exactly the stream's identifying fields.
pub open spec fn matches_stream(d: StreamDescriptor, s: StreamInfo) -> bool {
    &&& d.index == s.index
    &&& d.width == s.width
    &&& d.height == s.height
    &&& d.tb_num == s.tb_num
    &&& d.tb_den == s.tb_den
}

/// No stream of the container is a video stream.
pub open spec fn no_video(ss: Seq<StreamInfo>) -> bool {
    forall|i: int| 0 <= i < ss.len() ==> !(#[trigger] ss[i]).is_video
}

/// Position `i` holds the best video stream: a video stream of maximal
/// pixel area, and the first with that area.
pub open spec fn is_best_at(ss: Seq<StreamInfo>, i: int) -> bool
    recommends
        0 <= i < ss.len(),
{
    &&& ss[i].is_video
    &&& forall|j: int|
        0 <= j < ss.len() && (#[trigger] ss[j]).is_video ==> area(ss[j]) <= area(ss[i])
    &&& forall|j: int| 0 <= j < i && (#[trigger] ss[j]).is_video ==> area(ss[j]) < area(ss[i])
}

/// Selects the best video stream of the container: the video stream with
/// the largest pixel area, the earliest one among equals. Fails with
/// `NoVideoStreamError` exactly when no stream is of video type.
pub fn best_video_stream(streams: &Vec<StreamInfo>) -> (r: Result<
    StreamDescriptor,
    PipelineError,
>)
    ensures
        r is Err <==> no_video(streams@),
        r is Err ==> r->Err_0 == PipelineError::NoVideoStreamError,
        r matches Ok(d) ==> exists|i: int|
            0 <= i < streams@.len() && #[trigger] is_best_at(streams@, i) && matches_stream(
                d,
                streams@[i],
            ),
{
    let mut best: Option<usize> = None;
    let mut best_area: u64 = 0;
    let mut k: usize = 0;
    while k < streams.len()
        invariant
            0 <= k <= streams@.len(),
            best is None <==> no_video(streams@.take(k as int)),
            best matches Some(b) ==> 0 <= b < k && is_best_at(streams@.take(k as int), b as int)
                && best_area == area(streams@[b as int]),
        decreases streams@.len() - k,
    {
        let s = streams[k];
        if s.is_video {
            proof {
                assert((s.width as int) * (s.height as int) <= 0xffff_ffff * 0xffff_ffff)
                    by (nonlinear_arith)
                    requires
                        0 <= s.width as int <= 0xffff_ffff,
                        0 <= s.height as int <= 0xffff_ffff,
                ;
            }
            let a: u64 = (s.width as u64) * (s.height as u64);
            let replace: bool = match best {
                None => true,
                Some(_) => a > best_area,
            };
            if replace {
                best = Some(k);
                best_area = a;
            }
        }
        proof {
            assert(streams@.take(k + 1 as int).drop_last() =~= streams@.take(k as int));
            assert(streams@.take(k + 1 as int).last() == streams@[k as int]);
        }
        k = k + 1;
    }
    proof {
        assert(streams@.take(streams@.len() as int) =~= streams@);
    }
    match best {
        None => Err(PipelineError::NoVideoStreamError),
        Some(b) => {
            let s = streams[b];
            Ok(
                StreamDescriptor {
                    index: s.index,
                    width: s.width,
                    height: s.height,
                    tb_num: s.tb_num,
                    tb_den: s.tb_den,
                },
            )
        },
    }
}

} // verus!
