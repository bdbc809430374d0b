use video_engine::backend::{BusEvent, PipelineState};
use video_engine::binary64::Binary64;
use video_engine::color::yuv_to_rgba;
use video_engine::error::{Error, Framerate};
use video_engine::position::{Position, SeekEdge, SeekFormat, SeekRequest};
use video_engine::subtitles::SubtitleFontDescription;
use video_engine::thumbnail::{Prepare, Restore, Snapshot, Thumbnail, ThumbnailJob};
use video_engine::video::{Negotiation, StreamCaps, TickCommand, Video};

fn b(x: f64) -> Binary64 {
    Binary64::from_bits(x.to_bits())
}

fn video(width: i32, height: i32) -> Video<u8> {
    let report = Negotiation {
        initialised: true,
        play_accepted: true,
        settled: true,
        caps: Some(StreamCaps {
            width: Some(width),
            height: Some(height),
            framerate: Some(Framerate { numer: 25, denom: 1 }),
        }),
        duration: Some(10),
        av_offset: false,
    };
    Video::from_gst_pipeline(0, &report, false, SubtitleFontDescription::default())
        .video
        .unwrap()
}

fn jump(position: Position, count: u64) -> SeekRequest {
    SeekRequest {
        rate: b(1.0),
        flush: true,
        accurate: true,
        format: match position {
            Position::Time(_) => SeekFormat::Time,
            Position::Frame(_) => SeekFormat::Frames,
        },
        start_edge: SeekEdge::Start,
        start: Some(count),
        stop_edge: SeekEdge::Start,
        stop: None,
    }
}

fn frame(fill: u8) -> Vec<u8> {
    let mut f = vec![fill; 8];
    f.extend_from_slice(&[128, 128, 128, 128]);
    f
}

const PLAYING_AT_P: Snapshot = Snapshot { paused: false, muted: false, position: 1234 };

#[test]
fn job_unpauses_and_mutes_first() {
    let mut v = video(4, 2);
    let (job, prepare) = ThumbnailJob::begin(&mut v, PLAYING_AT_P, vec![], 1);
    assert_eq!(prepare, Prepare { state: PipelineState::Playing, muted: true });
    assert_eq!(job.next(), None);
}

#[test]
fn job_captures_positions_in_order() {
    let mut v = video(4, 2);
    let positions = vec![Position::Time(10), Position::Frame(3), Position::Time(0)];
    let (mut job, _) = ThumbnailJob::begin(&mut v, PLAYING_AT_P, positions, 1);
    assert_eq!(job.next(), Some(jump(Position::Time(10), 10)));
    job = job.capture(Ok(&frame(16)));
    assert_eq!(job.next(), Some(jump(Position::Frame(3), 3)));
    job = job.capture(Ok(&frame(235)));
    assert_eq!(job.next(), Some(jump(Position::Time(0), 0)));
    job = job.capture(Ok(&frame(100)));
    assert_eq!(job.next(), None);
    let _ = job.restore(&mut v);
    let thumbnails = job.finish(true).unwrap();
    assert_eq!(
        thumbnails,
        vec![
            Thumbnail { width: 4, height: 2, rgba: yuv_to_rgba(&frame(16), 4, 2, 1) },
            Thumbnail { width: 4, height: 2, rgba: yuv_to_rgba(&frame(235), 4, 2, 1) },
            Thumbnail { width: 4, height: 2, rgba: yuv_to_rgba(&frame(100), 4, 2, 1) },
        ]
    );
    assert_eq!(&thumbnails[0].rgba[0..4], &[0, 0, 0, 255]);
    assert_eq!(&thumbnails[1].rgba[0..4], &[254, 254, 254, 255]);
}

#[test]
fn thumbnails_are_downscaled() {
    let mut v = video(4, 2);
    let (job, _) = ThumbnailJob::begin(&mut v, PLAYING_AT_P, vec![Position::Frame(0)], 2);
    assert!(job.covered_by(12));
    assert!(!job.covered_by(11));
    let job = job.capture(Ok(&frame(16)));
    let thumbnails = job.finish(true).unwrap();
    assert_eq!(
        thumbnails,
        vec![Thumbnail { width: 2, height: 1, rgba: vec![0, 0, 0, 255, 0, 0, 0, 255] }]
    );
}

#[test]
fn job_restores_the_transport_after_success() {
    let mut v = video(4, 2);
    let (job, _) = ThumbnailJob::begin(&mut v, PLAYING_AT_P, vec![Position::Frame(0)], 1);
    let job = job.capture(Ok(&frame(16)));
    let restore = job.restore(&mut v);
    assert_eq!(
        restore,
        Restore {
            state: PipelineState::Playing,
            muted: false,
            seek: jump(Position::Time(1234), 1234),
        }
    );
    assert!(job.finish(true).is_ok());
}

#[test]
fn job_restores_the_transport_after_failure() {
    for failure in [Error::Seek, Error::Lock] {
        let mut v = video(4, 2);
        let positions = vec![Position::Frame(0), Position::Frame(1), Position::Frame(2)];
        let (mut job, _) = ThumbnailJob::begin(&mut v, PLAYING_AT_P, positions, 1);
        job = job.capture(Ok(&frame(16)));
        job = job.capture(Err(failure));
        // the capture is over at the first failure
        assert_eq!(job.next(), None);
        let restore = job.restore(&mut v);
        assert_eq!(
            restore,
            Restore {
                state: PipelineState::Playing,
                muted: false,
                seek: jump(Position::Time(1234), 1234),
            }
        );
        assert_eq!(job.finish(true), Err(failure));
    }
}

#[test]
fn job_restores_a_paused_and_muted_transport() {
    let saved = Snapshot { paused: true, muted: true, position: 0 };
    let mut v = video(4, 2);
    let (job, prepare) = ThumbnailJob::begin(&mut v, saved, vec![], 1);
    assert_eq!(prepare, Prepare { state: PipelineState::Playing, muted: true });
    let restore = job.restore(&mut v);
    assert_eq!(
        restore,
        Restore { state: PipelineState::Paused, muted: true, seek: jump(Position::Time(0), 0) }
    );
    assert_eq!(job.finish(true), Ok(vec![]));
}

#[test]
fn rejected_seek_back_fails_the_job() {
    let mut v = video(4, 2);
    let (job, _) = ThumbnailJob::begin(&mut v, PLAYING_AT_P, vec![Position::Frame(0)], 1);
    let job = job.capture(Ok(&frame(16)));
    assert_eq!(job.finish(false), Err(Error::Seek));
    let (job, _) = ThumbnailJob::begin(&mut v, PLAYING_AT_P, vec![Position::Frame(0)], 1);
    let job = job.capture(Err(Error::Lock));
    assert_eq!(job.finish(false), Err(Error::Seek));
}

#[test]
fn job_keeps_the_rate_of_the_stream() {
    let mut v = video(4, 2);
    v.set_speed(b(-0.5), Some(0), true).unwrap();
    let (job, _) = ThumbnailJob::begin(&mut v, PLAYING_AT_P, vec![Position::Frame(9)], 1);
    assert_eq!(job.next().unwrap().rate, b(-0.5));
    assert_eq!(job.restore(&mut v).seek.rate, b(-0.5));
}

#[test]
fn job_on_an_ended_stream_arms_a_restart() {
    let mut v = video(4, 2);
    let tick = v.tick(false, &[BusEvent::Eos], false);
    assert_eq!(tick.command, TickCommand::Pause);
    let saved = Snapshot { paused: true, muted: false, position: 10 };
    let (job, _) = ThumbnailJob::begin(&mut v, saved, vec![], 1);
    assert!(v.restart_pending());
    let restore = job.restore(&mut v);
    assert_eq!(restore.state, PipelineState::Paused);
    assert!(v.restart_pending());
}

#[test]
fn job_begins_through_the_stream() {
    let mut v = video(4, 2);
    let (job, prepare) = v.thumbnails(PLAYING_AT_P, vec![Position::Frame(1)], 1);
    assert_eq!(prepare, Prepare { state: PipelineState::Playing, muted: true });
    assert_eq!(job.next(), Some(jump(Position::Frame(1), 1)));
}

#[test]
fn capture_without_a_pending_position_changes_nothing() {
    let mut v = video(4, 2);
    let (job, _) = ThumbnailJob::begin(&mut v, PLAYING_AT_P, vec![Position::Frame(0)], 1);
    let job = job.capture(Ok(&frame(16)));
    assert_eq!(job.next(), None);
    let job = job.capture(Ok(&frame(235)));
    let job = job.capture(Err(Error::Lock));
    assert_eq!(job.next(), None);
    assert_eq!(
        job.finish(true),
        Ok(vec![Thumbnail { width: 4, height: 2, rgba: yuv_to_rgba(&frame(16), 4, 2, 1) }])
    );
    let (job, _) = ThumbnailJob::begin(&mut v, PLAYING_AT_P, vec![Position::Frame(0)], 1);
    let job = job.capture(Err(Error::Seek));
    let job = job.capture(Err(Error::Lock));
    assert_eq!(job.finish(true), Err(Error::Seek));
}

#[test]
fn empty_image_needs_no_bytes() {
    let mut v = video(4, 2);
    let (job, _) = ThumbnailJob::begin(&mut v, PLAYING_AT_P, vec![Position::Frame(0)], 5);
    assert!(job.covered_by(0));
    let job = job.capture(Ok(&[]));
    assert_eq!(job.finish(true), Ok(vec![Thumbnail { width: 0, height: 0, rgba: vec![] }]));
}
