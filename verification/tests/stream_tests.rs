use frame_sampler::errors::PipelineError;
use frame_sampler::stream::{best_video_stream, StreamInfo};

fn video(index: usize, width: u32, height: u32) -> StreamInfo {
    StreamInfo { index, is_video: true, width, height, tb_num: 1, tb_den: 25 }
}

fn audio(index: usize) -> StreamInfo {
    StreamInfo { index, is_video: false, width: 0, height: 0, tb_num: 1, tb_den: 48000 }
}

// An empty container has no video stream.
#[test]
fn empty_container_has_no_video_stream() {
    let r = best_video_stream(&vec![]);
    assert_eq!(r, Err(PipelineError::NoVideoStreamError));
}

// A container with only audio streams fails with NoVideoStreamError, at
// stream resolution, before any decoder is built.
#[test]
fn audio_only_container_has_no_video_stream() {
    let r = best_video_stream(&vec![audio(0), audio(1)]);
    assert_eq!(r, Err(PipelineError::NoVideoStreamError));
}

#[test]
fn single_video_stream_is_chosen() {
    let d = best_video_stream(&vec![audio(0), video(1, 640, 480)]).unwrap();
    assert_eq!(d.index, 1);
    assert_eq!(d.width, 640);
    assert_eq!(d.height, 480);
    assert_eq!(d.tb_num, 1);
    assert_eq!(d.tb_den, 25);
}

// Among several video streams the one with the largest pixel area wins.
#[test]
fn largest_area_wins() {
    let d = best_video_stream(&vec![
        video(0, 640, 480),
        video(1, 1920, 1080),
        video(2, 1280, 720),
    ])
    .unwrap();
    assert_eq!(d.index, 1);
}

// Equal areas: the earliest such stream wins.
#[test]
fn first_of_equal_areas_wins() {
    let d = best_video_stream(&vec![
        audio(0),
        video(1, 1280, 720),
        video(2, 720, 1280),
    ])
    .unwrap();
    assert_eq!(d.index, 1);
}
