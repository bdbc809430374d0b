//! Extraction of thumbnails through the live pipeline.
//!
//! Extraction borrows the pipeline of a stream: it unpauses and mutes it,
//! then for each position jumps there, waits for the frame that the jump
//! brings and converts it, and at last puts the pipeline back as it found
//! it. A [`ThumbnailJob`] makes every decision of that run. Whoever owns the
//! pipeline asks the job for the next request, performs it and hands the
//! frame, or the failure, back.

use crate::backend::PipelineState;
use crate::binary64::Binary64;
use crate::color::{frame_covers, frame_is_covered, rgba_image, yuv_to_rgba};
use crate::error::Error;
use crate::position::{Position, SeekEdge, SeekFormat, SeekRequest, NO_COUNT};
use crate::video::{Video, VideoView};
use vstd::prelude::*;

verus! {

/// What the consumer observes of the transport: whether it is paused and
/// muted, and the playback position in nanoseconds.
#[derive(Debug, Clone, Copy, PartialEq, Eq, Structural)]
pub struct Snapshot {
    pub paused: bool,
    pub muted: bool,
    pub position: u64,
}

/// What is asked of the backend before the first capture.
#[derive(Debug, Clone, Copy, PartialEq, Eq, Structural)]
pub struct Prepare {
    pub state: PipelineState,
    pub muted: bool,
}

/// What is asked of the backend after the last capture: the state and the
/// muting to go back to, and then the seek to the earlier position.
#[derive(Debug, Clone, Copy, PartialEq, Eq, Structural)]
pub struct Restore {
    pub state: PipelineState,
    pub muted: bool,
    pub seek: SeekRequest,
}

impl Restore {
    /// The transport after the backend has done what is asked. A seek that
    /// the backend rejects leaves the position where it was.
    pub open spec fn applied(self, before: Snapshot, seek_accepted: bool) -> Snapshot {
        Snapshot {
            paused: self.state.is_paused(),
            muted: self.muted,
            position: if seek_accepted && self.seek.format == SeekFormat::Time
                && self.seek.start_edge == SeekEdge::Start && self.seek.start is Some {
                self.seek.start->0
            } else {
                before.position
            },
        }
    }
}

/// A picture dimension as an unsigned number of 32 bits.
pub open spec fn unsigned(v: i32) -> u32 {
    if v >= 0 {
        v as u32
    } else {
        (v + 0x1_0000_0000) as u32
    }
}

/// Reads a picture dimension as an unsigned number of 32 bits.
fn to_unsigned(v: i32) -> (u: u32)
    ensures
        u == unsigned(v),
{
    if v >= 0 {
        v as u32
    } else {
        (v as i64 + 0x1_0000_0000) as u32
    }
}

/// What a [`Thumbnail`] stands for.
pub struct ThumbnailView {
    pub width: u32,
    pub height: u32,
    pub rgba: Seq<u8>,
}

/// A downscaled RGBA image of one frame.
#[derive(Debug, Clone, PartialEq, Eq)]
pub struct Thumbnail {
    /// The number of columns.
    pub width: u32,
    /// The number of rows.
    pub height: u32,
    /// The pixels, four bytes each, rows first.
    pub rgba: Vec<u8>,
}

impl View for Thumbnail {
    type V = ThumbnailView;

    open spec fn view(&self) -> ThumbnailView {
        ThumbnailView { width: self.width, height: self.height, rgba: self.rgba@ }
    }
}

/// The views of a list of thumbnails.
pub open spec fn thumbnail_views(thumbnails: Seq<Thumbnail>) -> Seq<ThumbnailView> {
    thumbnails.map_values(|t: Thumbnail| t@)
}

/// What a [`ThumbnailJob`] stands for.
pub struct JobView {
    /// The transport as it was before the job began.
    pub saved: Snapshot,
    /// The positions to capture, in order.
    pub positions: Seq<Position>,
    /// The factor by which each frame is scaled down.
    pub downscale: u32,
    /// The width of the frames.
    pub width: u32,
    /// The height of the frames.
    pub height: u32,
    /// The playback rate, which every seek of the job keeps.
    pub rate: Binary64,
    /// The thumbnails captured so far.
    pub taken: Seq<ThumbnailView>,
    /// The failure that ended the capture, if one did.
    pub failure: Option<Error>,
}

impl JobView {
    /// The job as it begins.
    pub open spec fn started<E>(
        video: VideoView<E>,
        saved: Snapshot,
        positions: Seq<Position>,
        downscale: u8,
    ) -> JobView {
        JobView {
            saved,
            positions,
            downscale: downscale as u32,
            width: unsigned(video.width),
            height: unsigned(video.height),
            rate: video.speed,
            taken: Seq::empty(),
            failure: None,
        }
    }

    /// The position to capture next. There is none once a capture failed
    /// or every position is captured.
    pub open spec fn pending(self) -> Option<Position> {
        if self.failure is None && self.taken.len() < self.positions.len() {
            Some(self.positions[self.taken.len() as int])
        } else {
            None
        }
    }

    /// The seek of the next capture: an accurate jump to the pending
    /// position.
    pub open spec fn next_request(self) -> Option<SeekRequest> {
        match self.pending() {
            Some(position) => Some(SeekRequest::jump(self.rate, position, true)),
            None => None,
        }
    }

    /// The thumbnail of a frame.
    pub open spec fn thumbnail_of(self, frame: Seq<u8>) -> ThumbnailView {
        ThumbnailView {
            width: self.width / self.downscale,
            height: self.height / self.downscale,
            rgba: rgba_image(frame, self.width as int, self.height as int, self.downscale as int),
        }
    }

    /// Whether a frame of `len` bytes holds every byte that its thumbnail
    /// is made of.
    pub open spec fn covers(self, len: int) -> bool {
        frame_covers(len, self.width as int, self.height as int, self.downscale as int)
    }

    /// The job after a capture that gave `frame`.
    pub open spec fn captured(self, frame: Result<Seq<u8>, Error>) -> JobView {
        match frame {
            Ok(bytes) => JobView { taken: self.taken.push(self.thumbnail_of(bytes)), ..self },
            Err(e) => JobView { failure: Some(e), ..self },
        }
    }

    /// The job after a capture that gave `frame`, or the job as it is where
    /// no position is pending.
    pub open spec fn stepped(self, frame: Result<Seq<u8>, Error>) -> JobView {
        if self.pending() is Some {
            self.captured(frame)
        } else {
            self
        }
    }

    /// The job after a run of captures, each of which gave one of `frames`.
    pub open spec fn ran(self, frames: Seq<Result<Seq<u8>, Error>>) -> JobView
        decreases frames.len(),
    {
        if frames.len() == 0 {
            self
        } else {
            self.ran(frames.drop_last()).stepped(frames.last())
        }
    }

    /// What puts the transport back as it was before the job.
    pub open spec fn restore(self) -> Restore {
        Restore {
            state: PipelineState::target(self.saved.paused),
            muted: self.saved.muted,
            seek: SeekRequest::jump(self.rate, Position::Time(self.saved.position), true),
        }
    }

    /// The result of the job. A seek back that the backend rejects fails
    /// the job, a failed capture fails it otherwise, and else the job
    /// gives the thumbnails of all its positions.
    pub open spec fn outcome(self, restored: bool) -> Result<Seq<ThumbnailView>, Error> {
        if !restored {
            Err(Error::Seek)
        } else {
            match self.failure {
                Some(e) => Err(e),
                None => Ok(self.taken),
            }
        }
    }
}

/// One run of thumbnail extraction.
#[derive(Debug)]
pub struct ThumbnailJob {
    saved: Snapshot,
    positions: Vec<Position>,
    downscale: u32,
    width: u32,
    height: u32,
    rate: Binary64,
    taken: Vec<Thumbnail>,
    failure: Option<Error>,
}

impl View for ThumbnailJob {
    type V = JobView;

    closed spec fn view(&self) -> JobView {
        JobView {
            saved: self.saved,
            positions: self.positions@,
            downscale: self.downscale,
            width: self.width,
            height: self.height,
            rate: self.rate,
            taken: thumbnail_views(self.taken@),
            failure: self.failure,
        }
    }
}

impl ThumbnailJob {
    #[verifier::type_invariant]
    spec fn well_formed(self) -> bool {
        &&& self.downscale >= 1
        &&& self.saved.position != NO_COUNT
        &&& self.taken@.len() <= self.positions@.len()
        &&& forall|i: int|
            0 <= i < self.positions@.len() ==> (#[trigger] self.positions@[i]).is_seekable()
    }

    /// Begins a job on `video`. `saved` is the transport as the backend
    /// shows it now, `positions` are the positions to capture and
    /// `downscale` is the factor by which frames are scaled down. The
    /// stream is unpaused and muted for the length of the job.
    pub fn begin<E>(
        video: &mut Video<E>,
        saved: Snapshot,
        positions: Vec<Position>,
        downscale: u8,
    ) -> (started: (ThumbnailJob, Prepare))
        requires
            downscale >= 1,
            saved.position != NO_COUNT,
            forall|i: int| 0 <= i < positions@.len() ==> (#[trigger] positions@[i]).is_seekable(),
        ensures
            started.0@ == JobView::started(old(video)@, saved, positions@, downscale),
            started.1 == (Prepare { state: PipelineState::Playing, muted: true }),
            final(video)@ == old(video)@.paused_set(false),
    {
        let (width, height) = video.size();
        let rate = video.speed();
        let state = video.set_paused(false);
        let taken: Vec<Thumbnail> = Vec::new();
        assert(thumbnail_views(taken@) =~= Seq::empty());
        let job = ThumbnailJob {
            saved,
            positions,
            downscale: downscale as u32,
            width: to_unsigned(width),
            height: to_unsigned(height),
            rate,
            taken,
            failure: None,
        };
        (job, Prepare { state, muted: true })
    }

    /// The seek of the next capture, or `None` when the capture is over.
    pub fn next(&self) -> (request: Option<SeekRequest>)
        ensures
            request == self@.next_request(),
            request matches Some(r) ==> r.well_formed(),
    {
        proof {
            use_type_invariant(self);
        }
        if self.failure.is_none() && self.taken.len() < self.positions.len() {
            let position = self.positions[self.taken.len()];
            let (format, count) = match position {
                Position::Time(t) => (SeekFormat::Time, t),
                Position::Frame(f) => (SeekFormat::Frames, f),
            };
            Some(
                SeekRequest {
                    rate: self.rate,
                    flush: true,
                    accurate: true,
                    format,
                    start_edge: SeekEdge::Start,
                    start: Some(count),
                    stop_edge: SeekEdge::Start,
                    stop: None,
                },
            )
        } else {
            None
        }
    }

    /// Tells whether a frame of `len` bytes holds every byte that its
    /// thumbnail is made of.
    pub fn covered_by(&self, len: usize) -> (covered: bool)
        ensures
            covered == self@.covers(len as int),
    {
        proof {
            use_type_invariant(self);
        }
        frame_is_covered(len, self.width, self.height, self.downscale)
    }

    /// Ends a capture. `frame` holds the bytes of the frame that the seek
    /// brought, or why there is none: the backend rejected the seek, or the
    /// frame could not be read. Where no position is pending, the job stays
    /// as it is.
    pub fn capture(self, frame: Result<&[u8], Error>) -> (job: ThumbnailJob)
        requires
            self@.pending() is Some ==> (frame matches Ok(bytes) ==> self@.covers(
                bytes@.len() as int,
            )),
        ensures
            job@ == self@.stepped(
                match frame {
                    Ok(bytes) => Ok(bytes@),
                    Err(e) => Err(e),
                },
            ),
    {
        proof {
            use_type_invariant(&self);
        }
        if self.failure.is_some() || self.taken.len() >= self.positions.len() {
            return self;
        }
        let ThumbnailJob { saved, positions, downscale, width, height, rate, taken, failure } =
            self;
        let mut taken = taken;
        let mut failure = failure;
        match frame {
            Ok(bytes) => {
                let thumbnail = Thumbnail {
                    width: width / downscale,
                    height: height / downscale,
                    rgba: yuv_to_rgba(bytes, width, height, downscale),
                };
                let ghost before = taken@;
                taken.push(thumbnail);
                assert(thumbnail_views(taken@) =~= thumbnail_views(before).push(thumbnail@));
            },
            Err(e) => {
                failure = Some(e);
            },
        }
        ThumbnailJob { saved, positions, downscale, width, height, rate, taken, failure }
    }

    /// What puts the transport back as it was before the job. The stream is
    /// paused, or not, as it was.
    pub fn restore<E>(&self, video: &mut Video<E>) -> (restore: Restore)
        ensures
            restore == self@.restore(),
            restore.seek.well_formed(),
            final(video)@ == old(video)@.paused_set(self@.saved.paused),
    {
        proof {
            use_type_invariant(self);
        }
        let state = video.set_paused(self.saved.paused);
        Restore {
            state,
            muted: self.saved.muted,
            seek: SeekRequest {
                rate: self.rate,
                flush: true,
                accurate: true,
                format: SeekFormat::Time,
                start_edge: SeekEdge::Start,
                start: Some(self.saved.position),
                stop_edge: SeekEdge::Start,
                stop: None,
            },
        }
    }

    /// Ends the job. `restored` says whether the backend accepted the seek
    /// back to the earlier position.
    pub fn finish(self, restored: bool) -> (result: Result<Vec<Thumbnail>, Error>)
        ensures
            match result {
                Ok(thumbnails) => self@.outcome(restored) == Ok::<Seq<ThumbnailView>, Error>(
                    thumbnail_views(thumbnails@),
                ),
                Err(e) => self@.outcome(restored) == Err::<Seq<ThumbnailView>, Error>(e),
            },
    {
        if !restored {
            return Err(Error::Seek);
        }
        match self.failure {
            Some(e) => Err(e),
            None => Ok(self.taken),
        }
    }
}

impl<E> Video<E> {
    /// Generates a list of thumbnails based on a set of positions in the
    /// media, downscaled by a given factor: begins the job that does so. See
    /// [`ThumbnailJob::begin`].
    pub fn thumbnails(&mut self, saved: Snapshot, positions: Vec<Position>, downscale: u8) -> (started:
        (ThumbnailJob, Prepare))
        requires
            downscale >= 1,
            saved.position != NO_COUNT,
            forall|i: int| 0 <= i < positions@.len() ==> (#[trigger] positions@[i]).is_seekable(),
        ensures
            started.0@ == JobView::started(old(self)@, saved, positions@, downscale),
            started.1 == (Prepare { state: PipelineState::Playing, muted: true }),
            final(self)@ == old(self)@.paused_set(false),
    {
        ThumbnailJob::begin(self, saved, positions, downscale)
    }
}

/// Whatever the positions of a job are, whatever its captures bring and
/// whether or not one of them fails, what the job asks of the backend at its
/// end puts the transport back as it was before the job: paused and muted as
/// before, at the earlier position. If the backend rejects the last seek,
/// the transport is still paused and muted as before.
pub proof fn lemma_job_restores_transport<E>(
    video: VideoView<E>,
    saved: Snapshot,
    positions: Seq<Position>,
    downscale: u8,
    frames: Seq<Result<Seq<u8>, Error>>,
    before: Snapshot,
)
    ensures
        ({
            let job = JobView::started(video, saved, positions, downscale).ran(frames);
            &&& job.restore().applied(before, true) == saved
            &&& job.restore().applied(before, false) == (Snapshot {
                position: before.position,
                ..saved
            })
        }),
{
    lemma_run_keeps_restore(JobView::started(video, saved, positions, downscale), frames);
}

/// A run of captures does not touch what the job puts back at its end, and
/// never captures more than the job has positions.
pub proof fn lemma_run_keeps_restore(job: JobView, frames: Seq<Result<Seq<u8>, Error>>)
    ensures
        job.ran(frames).restore() == job.restore(),
        job.ran(frames).saved == job.saved,
        job.ran(frames).positions == job.positions,
        job.taken.len() <= job.positions.len() ==> job.ran(frames).taken.len()
            <= job.positions.len(),
    decreases frames.len(),
{
    if frames.len() > 0 {
        lemma_run_keeps_restore(job, frames.drop_last());
    }
}

/// A job captures its positions in order and stops at the first failure: a
/// capture that succeeds moves the job on to the next position, and after a
/// capture that fails nothing is pending.
pub proof fn lemma_capture_order(job: JobView, frame: Result<Seq<u8>, Error>)
    requires
        job.pending() is Some,
    ensures
        frame is Err ==> job.captured(frame).pending() is None,
        frame is Ok ==> job.captured(frame).taken.len() == job.taken.len() + 1,
        frame is Ok && job.taken.len() + 1 < job.positions.len() ==> job.captured(
            frame,
        ).pending() == Some(job.positions[job.taken.len() as int + 1]),
        frame is Ok && job.taken.len() + 1 == job.positions.len() ==> job.captured(
            frame,
        ).pending() is None,
{
}

} // verus!
