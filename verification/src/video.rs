//! The playback state of one media stream and the operations that change it.
//!
//! A [`Video`] holds what the engine knows of a stream apart from the backend
//! pipeline itself: its geometry, its transport flags, its subtitle settings,
//! its latency estimate and the handles of its filter elements. An operation
//! takes what the backend reported, updates the state and returns what the
//! backend is to do. The owner of the pipeline performs that and reports back.

use crate::backend::{BusEvent, PipelineState};
use crate::binary64::{Binary64, ONE_BITS, ZERO_BITS};
use crate::error::{Error, Framerate};
use crate::filters::{FiltersView, Level, LevelRead, LevelWrite, VideoFilters};
use crate::position::{Position, SeekEdge, SeekFormat, SeekRequest, NO_COUNT};
use crate::subtitles::{selected_track, text_tracks, tag_views, tagged_tracks};
use crate::subtitles::{SubtitleFontDescription, TextTag, TextTagView};
use crate::sync::{SyncSmoother, SyncView};
use vstd::prelude::*;

verus! {

/// How long an idle consumer waits before it polls again, in milliseconds.
pub const IDLE_REDRAW_MILLIS: u64 = 32;

/// How long opening a stream waits for the backend to settle, in seconds.
pub const OPEN_TIMEOUT_SECONDS: u64 = 5;

/// The capabilities that the backend negotiated for the video stream. A part
/// is `None` where the backend does not report it.
#[derive(Debug, Clone, Copy, PartialEq, Eq, Structural)]
pub struct StreamCaps {
    pub width: Option<i32>,
    pub height: Option<i32>,
    pub framerate: Option<Framerate>,
}

/// What the backend reported while the pipeline of a stream was built.
#[derive(Debug, Clone, Copy, PartialEq, Eq, Structural)]
pub struct Launch {
    /// Whether the backend could be initialised.
    pub initialised: bool,
    /// Whether the backend could build what the description describes.
    pub parsed: bool,
    /// Whether what it built is a pipeline.
    pub is_pipeline: bool,
}

impl Launch {
    /// Whether the pipeline was built, or why it was not. Nothing plays
    /// yet at this stage, so no failure leaves anything to stop.
    pub open spec fn result(self) -> Result<(), Error> {
        if !self.initialised || !self.parsed {
            Err(Error::Init)
        } else if !self.is_pipeline {
            Err(Error::Cast)
        } else {
            Ok(())
        }
    }

    /// Tells whether the pipeline was built, or why it was not.
    pub fn check(&self) -> (result: Result<(), Error>)
        ensures
            result == self.result(),
    {
        if !self.initialised || !self.parsed {
            Err(Error::Init)
        } else if !self.is_pipeline {
            Err(Error::Cast)
        } else {
            Ok(())
        }
    }
}

/// What the backend reported while a stream was opened.
#[derive(Debug, Clone, Copy, PartialEq, Eq, Structural)]
pub struct Negotiation {
    /// Whether the backend could be initialised.
    pub initialised: bool,
    /// Whether the backend accepted the request to play.
    pub play_accepted: bool,
    /// Whether the change of state settled within the wait.
    pub settled: bool,
    /// The capabilities of the video sink, if it has any.
    pub caps: Option<StreamCaps>,
    /// The length of the stream in nanoseconds, if the backend knows it.
    pub duration: Option<u64>,
    /// Whether the backend lets the audio be moved against the video.
    pub av_offset: bool,
}

/// The picture geometry of a stream.
#[derive(Debug, Clone, Copy, PartialEq, Eq, Structural)]
pub struct Geometry {
    pub width: i32,
    pub height: i32,
    pub framerate: Framerate,
}

/// `width` rounded to a multiple of four: up where it is not negative, and
/// toward zero where it is.
pub open spec fn round_to_four(width: int) -> int {
    if width + 3 >= 0 {
        ((width + 3) / 4) * 4
    } else {
        -((-(width + 3)) / 4) * 4
    }
}

/// The rounded width is a multiple of four. For a width that is not
/// negative it is the least multiple of four that is no less.
pub proof fn lemma_round_to_four(width: int)
    ensures
        round_to_four(width) % 4 == 0,
        0 <= width ==> width <= round_to_four(width) < width + 4,
{
}

impl Negotiation {
    /// The geometry that the report yields, or the reason why the stream
    /// cannot be opened. A stream opens when the backend is initialised,
    /// took up playing and settled, reports a width, a height and a frame
    /// rate, and the frame rate is a finite number above zero.
    pub open spec fn geometry(self) -> Result<Geometry, Error> {
        if !self.initialised {
            Err(Error::Init)
        } else if !self.play_accepted || !self.settled {
            Err(Error::StateChange)
        } else {
            match self.caps {
                Some(StreamCaps { width: Some(w), height: Some(h), framerate: Some(f) }) => {
                    if f.is_valid() {
                        Ok(Geometry { width: round_to_four(w as int) as i32, height: h, framerate: f })
                    } else {
                        Err(Error::Framerate(f))
                    }
                },
                _ => Err(Error::Caps),
            }
        }
    }

    /// Whether the pipeline has to be stopped: the stream did not open
    /// after the pipeline was asked to play.
    pub open spec fn must_stop(self) -> bool {
        self.initialised && self.geometry() is Err
    }

    /// Whether the reported width can be rounded within 32 bits.
    pub open spec fn width_fits(self) -> bool {
        self.caps matches Some(caps) ==> (caps.width matches Some(w) ==> w <= i32::MAX - 3)
    }

    /// Tells whether the reported width can be rounded within 32 bits.
    pub fn check_width(&self) -> (fits: bool)
        ensures
            fits == self.width_fits(),
    {
        match self.caps {
            Some(caps) => match caps.width {
                Some(w) => w <= i32::MAX - 3,
                None => true,
            },
            None => true,
        }
    }
}

/// The two requests that restart a stream: play, then jump to the first
/// frame.
#[derive(Debug, Clone, Copy, PartialEq, Eq, Structural)]
pub struct Restart {
    pub state: PipelineState,
    pub seek: SeekRequest,
}

/// Something for the consumer to hear of after a poll.
#[derive(Debug, Clone, Copy, PartialEq, Eq, Structural)]
pub enum Notice {
    /// The bus event at this index is an error.
    Error(usize),
    /// The stream has ended.
    EndOfStream,
    /// A new frame is ready.
    NewFrame,
}

/// What the backend is to do after a poll.
#[derive(Debug, Clone, Copy, PartialEq, Eq, Structural)]
pub enum TickCommand {
    /// Nothing.
    Nothing,
    /// Restart the stream. A seek that the backend rejects is not an error
    /// of the poll.
    Restart(Restart),
    /// Pause at the end of the stream.
    Pause,
}

/// When the consumer is to poll again.
#[derive(Debug, Clone, Copy, PartialEq, Eq, Structural)]
pub enum Redraw {
    /// With the next frame.
    NextFrame,
    /// After this many milliseconds.
    After(u64),
}

/// The outcome of a poll.
#[derive(Debug)]
pub struct Tick {
    /// What the consumer is to hear of, in order.
    pub notices: Vec<Notice>,
    /// What the backend is to do.
    pub command: TickCommand,
    /// When to poll again.
    pub redraw: Redraw,
}

/// The outcome of opening a stream.
#[derive(Debug)]
pub struct Opening<E> {
    /// The opened stream, or why it did not open.
    pub video: Result<Video<E>, Error>,
    /// Whether the pipeline has to be stopped because the stream did not
    /// open.
    pub stop_pipeline: bool,
}

/// Whether the stream ended: the bus holds an end-of-stream event.
pub open spec fn stream_ended(events: Seq<BusEvent>) -> bool {
    exists|i: int| 0 <= i < events.len() && events[i] == BusEvent::Eos
}

/// The notice that the bus event at index `i` gives rise to.
pub open spec fn notice_of(events: Seq<BusEvent>, i: int) -> Notice {
    match events[i] {
        BusEvent::Error => Notice::Error(i as usize),
        BusEvent::Eos => Notice::EndOfStream,
    }
}

/// The notices of a poll that found `events` on the bus: one for each event,
/// in order, and then one for the new frame if there is one.
pub open spec fn notices_of(events: Seq<BusEvent>, frame_ready: bool) -> Seq<Notice> {
    let heard = Seq::new(events.len(), |i: int| notice_of(events, i));
    if frame_ready {
        heard.push(Notice::NewFrame)
    } else {
        heard
    }
}

/// What a [`Video`] stands for.
pub struct VideoView<E> {
    /// A number that tells this stream from every other of the process.
    pub id: u64,
    /// The width of the picture in pixels, a multiple of four.
    pub width: i32,
    /// The height of the picture in pixels.
    pub height: i32,
    pub framerate: Framerate,
    /// The length of the stream in nanoseconds; zero for a live source.
    pub duration: u64,
    /// The playback rate; negative plays in reverse.
    pub speed: Binary64,
    pub sync: SyncView,
    pub show_subtitles: bool,
    pub subtitle_description: SubtitleFontDescription,
    pub looping: bool,
    /// Whether the stream has ended.
    pub is_eos: bool,
    /// Whether the next poll is to restart the stream.
    pub restart_stream: bool,
    pub filters: FiltersView<E>,
}

impl<E> VideoView<E> {
    /// The stream that a report opens, or why it does not open.
    pub open spec fn opened(
        id: u64,
        report: Negotiation,
        show_subtitles: bool,
        subtitle_description: SubtitleFontDescription,
    ) -> Result<VideoView<E>, Error> {
        match report.geometry() {
            Ok(geometry) => Ok(
                VideoView {
                    id,
                    width: geometry.width,
                    height: geometry.height,
                    framerate: geometry.framerate,
                    duration: match report.duration {
                        Some(d) => d,
                        None => 0,
                    },
                    speed: Binary64 { bits: ONE_BITS },
                    sync: SyncView { enabled: report.av_offset, average: 0, count: 0 },
                    show_subtitles,
                    subtitle_description,
                    looping: false,
                    is_eos: false,
                    restart_stream: false,
                    filters: FiltersView { balance: None, gamma: None },
                },
            ),
            Err(e) => Err(e),
        }
    }

    /// The state after a request to pause or to resume. Resuming a stream
    /// that has ended arms a restart.
    pub open spec fn paused_set(self, paused: bool) -> VideoView<E> {
        VideoView { restart_stream: self.restart_stream || (self.is_eos && !paused), ..self }
    }

    /// The seek that jumps to `position` at the current rate.
    pub open spec fn seek(self, position: Position, accurate: bool) -> SeekRequest {
        SeekRequest::jump(self.speed, position, accurate)
    }

    /// The requests that restart the stream.
    pub open spec fn restart(self) -> Restart {
        Restart { state: PipelineState::Playing, seek: self.seek(Position::Frame(0), false) }
    }

    /// The state after a restart.
    pub open spec fn restarted(self) -> VideoView<E> {
        VideoView { is_eos: false, ..self }
    }

    /// The seek that sets the rate to `speed`, given the playback position
    /// that the backend reported.
    pub open spec fn speed_request(speed: Binary64, position: Option<u64>) -> Result<
        SeekRequest,
        Error,
    > {
        match position {
            Some(p) => Ok(SeekRequest::change_rate(speed, p)),
            None => Err(Error::Caps),
        }
    }

    /// The result of setting the rate: it fails where the backend reported
    /// no position, and where it rejected the seek.
    pub open spec fn speed_result(position: Option<u64>, accepted: bool) -> Result<(), Error> {
        if position is None {
            Err(Error::Caps)
        } else if !accepted {
            Err(Error::Seek)
        } else {
            Ok(())
        }
    }

    /// The state after an attempt to set the rate to `speed`: the rate
    /// changes only where the attempt succeeds.
    pub open spec fn speed_set(
        self,
        speed: Binary64,
        position: Option<u64>,
        accepted: bool,
    ) -> VideoView<E> {
        if Self::speed_result(position, accepted) is Ok {
            VideoView { speed, ..self }
        } else {
            self
        }
    }

    /// Whether a poll has work to do: a restart is armed, or the stream
    /// neither ended nor is paused.
    pub open spec fn is_active(self, paused: bool) -> bool {
        self.restart_stream || (!self.is_eos && !paused)
    }

    /// What a poll asks of the backend. An armed restart and the end of a
    /// looping stream restart the stream; the end of any other stream pauses
    /// it.
    pub open spec fn tick_command(self, paused: bool, events: Seq<BusEvent>) -> TickCommand {
        if !self.is_active(paused) {
            TickCommand::Nothing
        } else if self.restart_stream || (self.looping && stream_ended(events)) {
            TickCommand::Restart(self.restart())
        } else if stream_ended(events) {
            TickCommand::Pause
        } else {
            TickCommand::Nothing
        }
    }

    /// The state after a poll.
    pub open spec fn ticked(self, paused: bool, events: Seq<BusEvent>) -> VideoView<E> {
        match self.tick_command(paused, events) {
            TickCommand::Nothing => self,
            TickCommand::Restart(_) => VideoView { restart_stream: false, is_eos: false, ..self },
            TickCommand::Pause => VideoView { is_eos: true, ..self },
        }
    }

    /// What the consumer is to hear of after a poll.
    pub open spec fn tick_notices(
        self,
        paused: bool,
        events: Seq<BusEvent>,
        frame_ready: bool,
    ) -> Seq<Notice> {
        if self.is_active(paused) {
            notices_of(events, frame_ready)
        } else {
            Seq::empty()
        }
    }

    /// When the consumer is to poll again.
    pub open spec fn tick_redraw(self, paused: bool) -> Redraw {
        if self.is_active(paused) {
            Redraw::NextFrame
        } else {
            Redraw::After(IDLE_REDRAW_MILLIS)
        }
    }

    /// The state after an attempt to point the backend at a subtitle file.
    /// Where the backend went to the ready state, the earlier paused or
    /// playing state is asked for again.
    pub open spec fn subtitle_url_set(self, paused: bool, ready: bool) -> VideoView<E> {
        if ready {
            self.paused_set(paused)
        } else {
            self
        }
    }
}

/// A media stream as the engine knows it.
#[derive(Debug)]
pub struct Video<E> {
    id: u64,
    width: i32,
    height: i32,
    framerate: Framerate,
    duration: u64,
    speed: Binary64,
    sync: SyncSmoother,
    show_subtitles: bool,
    subtitle_description: SubtitleFontDescription,
    looping: bool,
    is_eos: bool,
    restart_stream: bool,
    video_filters: VideoFilters<E>,
}

impl<E> View for Video<E> {
    type V = VideoView<E>;

    closed spec fn view(&self) -> VideoView<E> {
        VideoView {
            id: self.id,
            width: self.width,
            height: self.height,
            framerate: self.framerate,
            duration: self.duration,
            speed: self.speed,
            sync: self.sync@,
            show_subtitles: self.show_subtitles,
            subtitle_description: self.subtitle_description,
            looping: self.looping,
            is_eos: self.is_eos,
            restart_stream: self.restart_stream,
            filters: self.video_filters@,
        }
    }
}

impl<E> Video<E> {
    #[verifier::type_invariant]
    spec fn well_formed(self) -> bool {
        self.framerate.is_valid() && self.width as int % 4 == 0
    }
}

/// Rounds a width to a multiple of four.
fn round_width(width: i32) -> (rounded: i32)
    requires
        width <= i32::MAX - 3,
    ensures
        rounded == round_to_four(width as int),
{
    let w: i32 = width + 3;
    if w >= 0 {
        (w / 4) * 4
    } else {
        let m: i32 = -w;
        -(m / 4) * 4
    }
}

/// Reads the geometry off a report.
fn negotiate(report: &Negotiation) -> (geometry: Result<Geometry, Error>)
    requires
        report.width_fits(),
    ensures
        geometry == report.geometry(),
{
    if !report.initialised {
        return Err(Error::Init);
    }
    if !report.play_accepted || !report.settled {
        return Err(Error::StateChange);
    }
    let caps = match report.caps {
        Some(caps) => caps,
        None => {
            return Err(Error::Caps);
        },
    };
    let width = match caps.width {
        Some(w) => w,
        None => {
            return Err(Error::Caps);
        },
    };
    let height = match caps.height {
        Some(h) => h,
        None => {
            return Err(Error::Caps);
        },
    };
    // resolution should be mod4
    let width = round_width(width);
    let framerate = match caps.framerate {
        Some(f) => f,
        None => {
            return Err(Error::Caps);
        },
    };
    if !framerate.valid() {
        return Err(Error::Framerate(framerate));
    }
    Ok(Geometry { width, height, framerate })
}

impl<E> Video<E> {
    /// Opens the stream of a pipeline that was built from a description:
    /// the stream of [`Video::from_gst_pipeline`] without subtitles, with
    /// the default font, and with both the balance and the gamma filter of
    /// the pipeline.
    pub fn new(id: u64, balance: E, gamma: E, report: &Negotiation) -> (opening: Opening<E>)
        requires
            report.width_fits(),
        ensures
            match opening.video {
                Ok(video) => VideoView::<E>::opened(
                    id,
                    *report,
                    false,
                    SubtitleFontDescription::standard(),
                ) matches Ok(opened) && video@ == (VideoView {
                    filters: FiltersView { balance: Some(balance), gamma: Some(gamma) },
                    ..opened
                }),
                Err(e) => report.geometry() == Err::<Geometry, Error>(e),
            },
            opening.stop_pipeline == report.must_stop(),
    {
        let opening = Video::from_gst_pipeline(
            id,
            report,
            false,
            SubtitleFontDescription::default(),
        );
        let Opening { video, stop_pipeline } = opening;
        match video {
            Ok(video) => {
                let mut video = video;
                video.set_video_filters(VideoFilters::all(balance, gamma));
                Opening { video: Ok(video), stop_pipeline }
            },
            Err(e) => Opening { video: Err(e), stop_pipeline },
        }
    }

    /// Opens a stream from what the backend reported after it was asked to
    /// play. The stream starts at rate one, without filters, not looping.
    /// Whenever the stream does not open after the pipeline was asked to
    /// play, the outcome asks for the pipeline to be stopped.
    pub fn from_gst_pipeline(
        id: u64,
        report: &Negotiation,
        show_subtitles: bool,
        subtitle_description: SubtitleFontDescription,
    ) -> (opening: Opening<E>)
        requires
            report.width_fits(),
        ensures
            match opening.video {
                Ok(video) => VideoView::<E>::opened(id, *report, show_subtitles, subtitle_description)
                    == Ok::<VideoView<E>, Error>(video@),
                Err(e) => VideoView::<E>::opened(id, *report, show_subtitles, subtitle_description)
                    == Err::<VideoView<E>, Error>(e),
            },
            opening.stop_pipeline == report.must_stop(),
            opening.video is Err && report.initialised ==> opening.stop_pipeline,
    {
        match negotiate(report) {
            Ok(geometry) => {
                let duration: u64 = match report.duration {
                    Some(d) => d,
                    None => 0,
                };
                let video = Video {
                    id,
                    width: geometry.width,
                    height: geometry.height,
                    framerate: geometry.framerate,
                    duration,
                    speed: Binary64::from_bits(ONE_BITS),
                    sync: SyncSmoother::new(report.av_offset),
                    show_subtitles,
                    subtitle_description,
                    looping: false,
                    is_eos: false,
                    restart_stream: false,
                    video_filters: VideoFilters::none(),
                };
                Opening { video: Ok(video), stop_pipeline: false }
            },
            Err(e) => Opening { video: Err(e), stop_pipeline: report.initialised },
        }
    }

    /// Sets the [`VideoFilters`] of the [`Video`].
    pub fn set_video_filters(&mut self, filters: VideoFilters<E>)
        ensures
            final(self)@ == (VideoView { filters: filters@, ..old(self)@ }),
    {
        proof {
            use_type_invariant(&*self);
        }
        self.video_filters = filters;
    }

    /// Sets only the balance filter of the [`Video`].
    pub fn set_video_balance_filter(&mut self, video_balance: E)
        ensures
            final(self)@ == (VideoView {
                filters: FiltersView {
                    balance: Some(video_balance),
                    gamma: old(self)@.filters.gamma,
                },
                ..old(self)@
            }),
    {
        proof {
            use_type_invariant(&*self);
        }
        self.video_filters.set_balance(video_balance);
    }

    /// Sets only the gamma filter of the [`Video`].
    pub fn set_gamma_filter(&mut self, gamma_bin: E)
        ensures
            final(self)@ == (VideoView {
                filters: FiltersView {
                    balance: old(self)@.filters.balance,
                    gamma: Some(gamma_bin),
                },
                ..old(self)@
            }),
    {
        proof {
            use_type_invariant(&*self);
        }
        self.video_filters.set_gamma(gamma_bin);
    }

    /// The number that tells this stream from every other of the process.
    pub fn id(&self) -> (id: u64)
        ensures
            id == self@.id,
    {
        self.id
    }

    /// Get the size/resolution of the video as `(width, height)`. The
    /// width is a multiple of four.
    pub fn size(&self) -> (size: (i32, i32))
        ensures
            size == (self@.width, self@.height),
            size.0 as int % 4 == 0,
    {
        proof {
            use_type_invariant(self);
        }
        (self.width, self.height)
    }

    /// Get the framerate of the video, in frames per second, as a fraction.
    /// It is a finite number above zero.
    pub fn framerate(&self) -> (framerate: Framerate)
        ensures
            framerate == self@.framerate,
            framerate.is_valid(),
    {
        proof {
            use_type_invariant(self);
        }
        self.framerate
    }

    /// Where the value of `level` comes from: the filter element to ask, or
    /// the default of the level where the element is absent.
    pub fn level(&self, level: Level) -> (read: LevelRead<'_, E>)
        ensures
            match read {
                LevelRead::Ask(e) => self@.filters.element(level) == Some(*e),
                LevelRead::Fixed(value) => self@.filters.element(level) is None && value
                    == level.fallback(),
            },
    {
        self.video_filters.read(level)
    }

    /// What to store for a request to set `level` to `value`: the value,
    /// clamped to the domain of the level, in the filter element that holds
    /// the level, or nothing where the element is absent.
    pub fn set_level(&self, level: Level, value: Binary64) -> (write: Option<LevelWrite<'_, E>>)
        ensures
            match write {
                Some(w) => self@.filters.element(level) == Some(*w.element) && w.value
                    == level.stored(value),
                None => self@.filters.element(level) is None,
            },
    {
        self.video_filters.write(level, value)
    }

    /// Returns the gamma level of the playback. The default gamma level is 1.0.
    pub fn gamma(&self) -> (read: LevelRead<'_, E>)
        ensures
            match read {
                LevelRead::Ask(e) => self@.filters.gamma == Some(*e),
                LevelRead::Fixed(value) => self@.filters.gamma is None && value
                    == Level::Gamma.fallback(),
            },
    {
        self.level(Level::Gamma)
    }

    /// Sets the gamma level of the playback.
    /// The gamma is clamped to the range `[1.0, 3.0]`.
    pub fn set_gamma(&self, gamma: Binary64) -> (write: Option<LevelWrite<'_, E>>)
        ensures
            match write {
                Some(w) => self@.filters.gamma == Some(*w.element) && w.value
                    == Level::Gamma.stored(gamma),
                None => self@.filters.gamma is None,
            },
    {
        self.set_level(Level::Gamma, gamma)
    }

    /// Returns the brightness of the playback. The default brightness is 0.0.
    pub fn brightness(&self) -> (read: LevelRead<'_, E>)
        ensures
            match read {
                LevelRead::Ask(e) => self@.filters.balance == Some(*e),
                LevelRead::Fixed(value) => self@.filters.balance is None && value
                    == Level::Brightness.fallback(),
            },
    {
        self.level(Level::Brightness)
    }

    /// Sets the brightness of the playback. The brightness is clamped to the
    /// range `[-1.0, 1.0]`.
    pub fn set_brightness(&self, brightness: Binary64) -> (write: Option<LevelWrite<'_, E>>)
        ensures
            match write {
                Some(w) => self@.filters.balance == Some(*w.element) && w.value
                    == Level::Brightness.stored(brightness),
                None => self@.filters.balance is None,
            },
    {
        self.set_level(Level::Brightness, brightness)
    }

    /// Returns the contrast of the playback. The default contrast is 1.0.
    pub fn contrast(&self) -> (read: LevelRead<'_, E>)
        ensures
            match read {
                LevelRead::Ask(e) => self@.filters.balance == Some(*e),
                LevelRead::Fixed(value) => self@.filters.balance is None && value
                    == Level::Contrast.fallback(),
            },
    {
        self.level(Level::Contrast)
    }

    /// Sets the contrast of the playback. The contrast is clamped to the range
    /// `[0.0, 2.0]`.
    pub fn set_contrast(&self, contrast: Binary64) -> (write: Option<LevelWrite<'_, E>>)
        ensures
            match write {
                Some(w) => self@.filters.balance == Some(*w.element) && w.value
                    == Level::Contrast.stored(contrast),
                None => self@.filters.balance is None,
            },
    {
        self.set_level(Level::Contrast, contrast)
    }

    /// Returns the hue of the playback. The default hue is 0.0.
    pub fn hue(&self) -> (read: LevelRead<'_, E>)
        ensures
            match read {
                LevelRead::Ask(e) => self@.filters.balance == Some(*e),
                LevelRead::Fixed(value) => self@.filters.balance is None && value
                    == Level::Hue.fallback(),
            },
    {
        self.level(Level::Hue)
    }

    /// Sets the hue of the playback. The hue is clamped to the range `[-1.0,
    /// 1.0]`.
    pub fn set_hue(&self, hue: Binary64) -> (write: Option<LevelWrite<'_, E>>)
        ensures
            match write {
                Some(w) => self@.filters.balance == Some(*w.element) && w.value
                    == Level::Hue.stored(hue),
                None => self@.filters.balance is None,
            },
    {
        self.set_level(Level::Hue, hue)
    }

    /// Returns the saturation of the playback. The default saturation is 1.0.
    pub fn saturation(&self) -> (read: LevelRead<'_, E>)
        ensures
            match read {
                LevelRead::Ask(e) => self@.filters.balance == Some(*e),
                LevelRead::Fixed(value) => self@.filters.balance is None && value
                    == Level::Saturation.fallback(),
            },
    {
        self.level(Level::Saturation)
    }

    /// Sets the saturation of the playback. Saturation is clamped to the range
    /// `[0.0, 2.0]`.
    pub fn set_saturation(&self, saturation: Binary64) -> (write: Option<LevelWrite<'_, E>>)
        ensures
            match write {
                Some(w) => self@.filters.balance == Some(*w.element) && w.value
                    == Level::Saturation.stored(saturation),
                None => self@.filters.balance is None,
            },
    {
        self.set_level(Level::Saturation, saturation)
    }

    /// Get if the stream ended or not.
    pub fn eos(&self) -> (eos: bool)
        ensures
            eos == self@.is_eos,
    {
        self.is_eos
    }

    /// Whether the next poll is to restart the stream.
    pub fn restart_pending(&self) -> (pending: bool)
        ensures
            pending == self@.restart_stream,
    {
        self.restart_stream
    }

    /// Get if the media will loop or not.
    pub fn looping(&self) -> (looping: bool)
        ensures
            looping == self@.looping,
    {
        self.looping
    }

    /// Set if the media will loop or not.
    pub fn set_looping(&mut self, looping: bool)
        ensures
            final(self)@ == (VideoView { looping, ..old(self)@ }),
    {
        proof {
            use_type_invariant(&*self);
        }
        self.looping = looping;
    }

    /// Set if the media is paused or not. Returns the state to ask of the
    /// backend. Resuming a stream that has ended makes the next poll restart
    /// it.
    pub fn set_paused(&mut self, paused: bool) -> (state: PipelineState)
        ensures
            state == PipelineState::target(paused),
            final(self)@ == old(self)@.paused_set(paused),
    {
        proof {
            use_type_invariant(&*self);
        }
        // Set restart_stream flag to make the stream restart on the next poll
        if self.is_eos && !paused {
            self.restart_stream = true;
        }
        PipelineState::for_paused(paused)
    }

    /// Get if the media is paused or not, given the state of the backend.
    pub fn paused(&self, state: PipelineState) -> (paused: bool)
        ensures
            paused == state.is_paused(),
    {
        state.paused()
    }

    /// Jumps to a specific position in the media: returns the seek to ask of
    /// the backend, at the current rate.
    /// Passing `true` to the `accurate` parameter will result in more accurate seeking,
    /// however, it is also slower. For most seeks (e.g., scrubbing) this is not needed.
    pub fn seek(&self, position: Position, accurate: bool) -> (request: SeekRequest)
        requires
            position.is_seekable(),
        ensures
            request == self@.seek(position, accurate),
            request.well_formed(),
    {
        let (format, count) = match position {
            Position::Time(t) => (SeekFormat::Time, t),
            Position::Frame(f) => (SeekFormat::Frames, f),
        };
        SeekRequest {
            rate: self.speed,
            flush: true,
            accurate,
            format,
            start_edge: SeekEdge::Start,
            start: Some(count),
            stop_edge: SeekEdge::Start,
            stop: None,
        }
    }

    /// The seek that sets the playback speed to `speed`, given the position
    /// that the backend reported: from there to the end of the stream for a
    /// speed above zero, from the start of the stream to there for any
    /// other. Fails where the backend reported no position.
    pub fn speed_request(speed: Binary64, position: Option<u64>) -> (request: Result<
        SeekRequest,
        Error,
    >)
        requires
            position != Some(NO_COUNT),
        ensures
            request == VideoView::<E>::speed_request(speed, position),
            request matches Ok(r) ==> r.well_formed(),
    {
        let position = match position {
            Some(p) => p,
            None => {
                return Err(Error::Caps);
            },
        };
        if speed.is_positive() {
            Ok(
                SeekRequest {
                    rate: speed,
                    flush: true,
                    accurate: true,
                    format: SeekFormat::Time,
                    start_edge: SeekEdge::Start,
                    start: Some(position),
                    stop_edge: SeekEdge::End,
                    stop: Some(0),
                },
            )
        } else {
            Ok(
                SeekRequest {
                    rate: speed,
                    flush: true,
                    accurate: true,
                    format: SeekFormat::Time,
                    start_edge: SeekEdge::Start,
                    start: Some(0),
                    stop_edge: SeekEdge::Start,
                    stop: Some(position),
                },
            )
        }
    }

    /// Set the playback speed of the media, given the position that the
    /// backend reported and whether it accepted the seek of
    /// [`Video::speed_request`]. The speed changes only on success.
    /// The default speed is `1.0`.
    pub fn set_speed(&mut self, speed: Binary64, position: Option<u64>, accepted: bool) -> (result:
        Result<(), Error>)
        ensures
            result == VideoView::<E>::speed_result(position, accepted),
            final(self)@ == old(self)@.speed_set(speed, position, accepted),
    {
        proof {
            use_type_invariant(&*self);
        }
        if position.is_none() {
            return Err(Error::Caps);
        }
        if !accepted {
            return Err(Error::Seek);
        }
        self.speed = speed;
        Ok(())
    }

    /// Get the current playback speed.
    pub fn speed(&self) -> (speed: Binary64)
        ensures
            speed == self@.speed,
    {
        self.speed
    }

    /// Get the current playback position in nanoseconds, given what the
    /// backend reported: zero where it reported none.
    pub fn position(&self, reported: Option<u64>) -> (position: u64)
        ensures
            position == match reported {
                Some(p) => p,
                None => 0,
            },
    {
        match reported {
            Some(p) => p,
            None => 0,
        }
    }

    /// Get the media duration in nanoseconds.
    pub fn duration(&self) -> (duration: u64)
        ensures
            duration == self@.duration,
    {
        self.duration
    }

    /// Restarts a stream; seeks to the first frame and unpauses, sets the `eos` flag to false.
    pub fn restart_stream(&mut self) -> (restart: Restart)
        ensures
            restart == old(self)@.restart(),
            restart.seek.well_formed(),
            final(self)@ == old(self)@.restarted(),
    {
        proof {
            use_type_invariant(&*self);
        }
        self.is_eos = false;
        let state = self.set_paused(false);
        let seek = self.seek(Position::Frame(0), false);
        Restart { state, seek }
    }

    /// Shows/Hides the subtitles on the media. Returns whether the backend
    /// is to render text from now on.
    pub fn toggle_subtitle(&mut self) -> (text: bool)
        ensures
            text == !old(self)@.show_subtitles,
            final(self)@ == (VideoView { show_subtitles: text, ..old(self)@ }),
    {
        proof {
            use_type_invariant(&*self);
        }
        self.show_subtitles = !self.show_subtitles;
        self.show_subtitles
    }

    /// Returns whether the subtitles is being shown or not.
    pub fn show_subtitles(&self) -> (shown: bool)
        ensures
            shown == self@.show_subtitles,
    {
        self.show_subtitles
    }

    /// Returns the [`SubtitleFontDescription`] of the media.
    pub fn subtitle_description(&self) -> (description: SubtitleFontDescription)
        ensures
            description == self@.subtitle_description,
    {
        self.subtitle_description
    }

    /// Sets the [`SubtitleFontDescription`] of the media. Returns the
    /// description as the backend reads it.
    pub fn set_subtitle_description(&mut self, description: SubtitleFontDescription) -> (text:
        String)
        ensures
            text@ == description.text(),
            final(self)@ == (VideoView { subtitle_description: description, ..old(self)@ }),
    {
        proof {
            use_type_invariant(&*self);
        }
        self.subtitle_description = description;
        description.to_string()
    }

    /// Returns a list of available subtitles for the media. `languages[i]`
    /// is the language that the media reports for its text track `i`, if
    /// any; a track without a language is left out.
    pub fn available_subtitles(&self, languages: &Vec<Option<String>>) -> (tags: Vec<TextTag>)
        requires
            languages@.len() <= i32::MAX,
        ensures
            tag_views(tags@) == tagged_tracks(languages@),
    {
        text_tracks(languages)
    }

    /// Sets the subtitle to be shown for the media: returns the number of
    /// the track to select.
    pub fn set_text(&self, text: &TextTag) -> (id: i32)
        ensures
            id == text@.id,
    {
        text.id()
    }

    /// Gets the current subtitle of the media, if any, given the number of
    /// the selected track and the language that the media reports for it.
    pub fn get_text(&self, id: i32, language: Option<String>) -> (tag: Option<TextTag>)
        ensures
            match language {
                Some(code) => tag matches Some(t) && t@ == (TextTagView {
                    id: id as int,
                    language_code: code@,
                }),
                None => tag is None,
            },
    {
        selected_track(id, language)
    }

    /// Set the subtitle URL to display. The backend takes the address only
    /// while it is in the ready state. `paused` says whether the media was
    /// paused before, `ready` whether the backend went to the ready state.
    /// On success the address is to be stored and the returned state asked
    /// for.
    pub fn set_subtitle_url(&mut self, paused: bool, ready: bool) -> (result: Result<
        PipelineState,
        Error,
    >)
        ensures
            result == if ready {
                Ok::<PipelineState, Error>(PipelineState::target(paused))
            } else {
                Err::<PipelineState, Error>(Error::StateChange)
            },
            final(self)@ == old(self)@.subtitle_url_set(paused, ready),
    {
        if !ready {
            return Err(Error::StateChange);
        }
        Ok(self.set_paused(paused))
    }

    /// Syncs audio with video when there is (inevitably) latency presenting
    /// the frame. Takes the latency of one frame in nanoseconds and returns
    /// the offset to hand to the backend, if this frame brings one about.
    pub fn set_av_offset(&mut self, offset: u64) -> (push: Option<i64>)
        requires
            old(self)@.sync.count < u64::MAX,
        ensures
            push == old(self)@.sync.correction_after(offset),
            final(self)@ == (VideoView { sync: old(self)@.sync.recorded(offset), ..old(self)@ }),
    {
        proof {
            use_type_invariant(&*self);
        }
        self.sync.record(offset)
    }

    /// How many latency samples the stream has taken.
    pub fn sync_count(&self) -> (count: u64)
        ensures
            count == self@.sync.count,
    {
        self.sync.count()
    }

    /// Whether a poll has work to do. Only then is the bus to be drained.
    pub fn is_active(&self, paused: bool) -> (active: bool)
        ensures
            active == self@.is_active(paused),
    {
        self.restart_stream || (!self.is_eos && !paused)
    }

    /// Polls the stream once. `paused` says whether the backend is paused,
    /// `events` holds what was on the bus, in order, and `frame_ready`
    /// whether a new frame waits for the consumer.
    pub fn tick(&mut self, paused: bool, events: &[BusEvent], frame_ready: bool) -> (tick: Tick)
        ensures
            tick.command == old(self)@.tick_command(paused, events@),
            tick.notices@ == old(self)@.tick_notices(paused, events@, frame_ready),
            tick.redraw == old(self)@.tick_redraw(paused),
            final(self)@ == old(self)@.ticked(paused, events@),
    {
        proof {
            use_type_invariant(&*self);
        }
        let mut notices: Vec<Notice> = Vec::new();
        if !self.is_active(paused) {
            return Tick {
                notices,
                command: TickCommand::Nothing,
                redraw: Redraw::After(IDLE_REDRAW_MILLIS),
            };
        }
        let mut restart_stream = false;
        if self.restart_stream {
            restart_stream = true;
            // Set flag to false to avoid potentially multiple seeks
            self.restart_stream = false;
        }
        let mut eos_pause = false;
        let mut i: usize = 0;
        while i < events.len()
            invariant
                i <= events@.len(),
                notices@ == Seq::new(i as nat, |k: int| notice_of(events@, k)),
                restart_stream == (old(self)@.restart_stream || (old(self)@.looping
                    && stream_ended(events@.take(i as int)))),
                eos_pause == (!old(self)@.looping && stream_ended(events@.take(i as int))),
                self@ == (VideoView { restart_stream: false, ..old(self)@ }),
            decreases events@.len() - i,
        {
            let ghost seen = events@.take(i as int);
            let ghost next = events@.take(i + 1);
            match events[i] {
                BusEvent::Error => {
                    notices.push(Notice::Error(i));
                    proof {
                        assert forall|k: int| 0 <= k < next.len() && next[k] == BusEvent::Eos
                            implies 0 <= k < seen.len() && seen[k] == BusEvent::Eos by {}
                        assert(stream_ended(next) == stream_ended(seen)) by {
                            if stream_ended(seen) {
                                let k = choose|k: int|
                                    0 <= k < seen.len() && seen[k] == BusEvent::Eos;
                                assert(next[k] == BusEvent::Eos);
                            }
                        }
                    }
                },
                BusEvent::Eos => {
                    notices.push(Notice::EndOfStream);
                    if self.looping {
                        restart_stream = true;
                    } else {
                        eos_pause = true;
                    }
                    proof {
                        assert(next[i as int] == BusEvent::Eos);
                    }
                },
            }
            proof {
                assert(notices@ =~= Seq::new((i + 1) as nat, |k: int| notice_of(events@, k)));
            }
            i = i + 1;
        }
        proof {
            assert(events@.take(i as int) =~= events@);
        }
        // Don't pause at the end if the stream restarts
        let command = if restart_stream {
            TickCommand::Restart(self.restart_stream())
        } else if eos_pause {
            self.is_eos = true;
            self.set_paused(true);
            TickCommand::Pause
        } else {
            TickCommand::Nothing
        };
        if frame_ready {
            notices.push(Notice::NewFrame);
        }
        Tick { notices, command, redraw: Redraw::NextFrame }
    }
}

/// When a looping stream ends, the poll that finds the end restarts the
/// stream: it asks the backend to play and to jump to the first frame, never
/// to pause, and after it the stream has not ended and no restart is armed.
pub proof fn lemma_loop_restarts_at_end<E>(
    video: VideoView<E>,
    paused: bool,
    events: Seq<BusEvent>,
)
    requires
        video.looping,
        video.is_active(paused),
        stream_ended(events),
    ensures
        video.tick_command(paused, events) == TickCommand::Restart(video.restart()),
        video.tick_command(paused, events) != TickCommand::Pause,
        video.restart().state == PipelineState::Playing,
        video.restart().seek.start == Some(0u64),
        !video.ticked(paused, events).is_eos,
        !video.ticked(paused, events).restart_stream,
{
}

/// When a stream that does not loop ends, and no restart is armed, the poll
/// that finds the end pauses the stream and marks it as ended.
pub proof fn lemma_end_pauses<E>(video: VideoView<E>, paused: bool, events: Seq<BusEvent>)
    requires
        !video.looping,
        !video.restart_stream,
        video.is_active(paused),
        stream_ended(events),
    ensures
        video.tick_command(paused, events) == TickCommand::Pause,
        video.ticked(paused, events).is_eos,
{
}

/// After a poll no restart is armed, whatever the poll found.
pub proof fn lemma_poll_disarms_restart<E>(
    video: VideoView<E>,
    paused: bool,
    events: Seq<BusEvent>,
)
    ensures
        !video.ticked(paused, events).restart_stream,
{
}

/// Resuming a stream that has ended restarts it: the next poll asks for a
/// restart whatever it finds, and clears the end-of-stream flag and the
/// armed restart together.
pub proof fn lemma_resume_at_end_restarts<E>(
    video: VideoView<E>,
    paused: bool,
    events: Seq<BusEvent>,
)
    requires
        video.is_eos,
    ensures
        video.paused_set(false).restart_stream,
        video.paused_set(false).tick_command(paused, events) == TickCommand::Restart(
            video.restart(),
        ),
        !video.paused_set(false).ticked(paused, events).is_eos,
        !video.paused_set(false).ticked(paused, events).restart_stream,
{
}

/// A change of rate that fails leaves the state as it was, and one that
/// succeeds changes the rate and nothing else.
pub proof fn lemma_speed_changes_only_on_success<E>(
    video: VideoView<E>,
    speed: Binary64,
    position: Option<u64>,
    accepted: bool,
)
    ensures
        VideoView::<E>::speed_result(position, accepted) is Err ==> video.speed_set(
            speed,
            position,
            accepted,
        ) == video,
        VideoView::<E>::speed_result(position, accepted) is Ok ==> video.speed_set(
            speed,
            position,
            accepted,
        ) == (VideoView { speed, ..video }),
{
}

/// The rate changes through a change of rate alone: pausing, resuming,
/// restarting, polling and pointing the backend at a subtitle file all keep
/// it.
pub proof fn lemma_rate_is_kept<E>(
    video: VideoView<E>,
    paused: bool,
    ready: bool,
    events: Seq<BusEvent>,
)
    ensures
        video.paused_set(paused).speed == video.speed,
        video.restarted().speed == video.speed,
        video.ticked(paused, events).speed == video.speed,
        video.subtitle_url_set(paused, ready).speed == video.speed,
{
}

/// A change to a rate above zero plays on from the current position to the
/// end of the stream. A change to a rate below zero plays from the current
/// position back toward the start: the stretch of the seek begins at zero
/// and ends at the current position.
pub proof fn lemma_rate_change_anchors(speed: Binary64, position: u64)
    ensures
        ({
            let request = SeekRequest::change_rate(speed, position);
            let zero = Binary64 { bits: ZERO_BITS };
            &&& request.rate == speed
            &&& request.accurate
            &&& zero.lt(speed) ==> request.start == Some(position) && request.stop_edge
                == SeekEdge::End && request.stop == Some(0u64)
            &&& speed.lt(zero) ==> request.start == Some(0u64) && request.stop_edge
                == SeekEdge::Start && request.stop == Some(position)
        }),
{
}

} // verus!
