//! Addresses of media and the description of the pipeline that plays one.

use crate::video::Video;
use vstd::prelude::*;
use vstd::string::*;

verus! {

/// The name of the sink that hands decoded frames to the engine.
pub const VIDEO_SINK_NAME: &'static str = "iced_video";

/// The name of the balance filter in the pipeline.
pub const BALANCE_FILTER_NAME: &'static str = "balance";

/// The name of the gamma filter in the pipeline.
pub const GAMMA_FILTER_NAME: &'static str = "gamma";

/// What stands before the address in the description of a pipeline.
pub const LAUNCH_HEAD: &'static str = "playbin uri=\"";

/// What stands after the address in the description of a pipeline: the
/// video sink, which scales, converts and hands out NV12 frames, dropping
/// those that come too late, the video filters and the audio filter.
pub const LAUNCH_TAIL: &'static str =
    "\"  video-sink=\"videoscale ! videoconvert ! appsink name=iced_video drop=true caps=video/x-raw,format=NV12,pixel-aspect-ratio=1/1\" video-filter=\"videobalance name=balance ! gamma name=gamma\" audio-filter= \"pitch name=pitch\"";

/// The serialization of the URL that `input` parses to, or `None` where
/// `input` is not an absolute URL.
pub uninterp spec fn parsed_url(input: Seq<char>) -> Option<Seq<char>>;

/// Parses `input` with `url::Url::parse` and hands out the serialization of
/// the URL, which is the text that `Url::as_str` shows. The contract claims
/// that the outcome depends on `input` alone: the serialization where the
/// parser accepts `input`, nothing where it reports an error.
#[verifier::external_body]
fn parse_url(input: &str) -> (text: Option<String>)
    ensures
        match text {
            Some(t) => parsed_url(input@) == Some(t@),
            None => parsed_url(input@) is None,
        },
{
    match url::Url::parse(input) {
        Ok(parsed) => Some(String::from(parsed)),
        Err(_) => None,
    }
}

/// The address of a media resource: an absolute URL, held in its serialized
/// form.
#[derive(Debug, Clone, PartialEq, Eq)]
pub struct Uri {
    text: String,
}

impl View for Uri {
    type V = Seq<char>;

    closed spec fn view(&self) -> Seq<char> {
        self.text@
    }
}

impl Uri {
    /// Parses an address. Gives `None` where `input` is not an absolute URL.
    pub fn parse(input: &str) -> (uri: Option<Uri>)
        ensures
            match uri {
                Some(u) => parsed_url(input@) == Some(u@),
                None => parsed_url(input@) is None,
            },
    {
        match parse_url(input) {
            Some(text) => Some(Uri { text }),
            None => None,
        }
    }

    /// The address in its serialized form.
    pub fn as_str(&self) -> (text: &str)
        ensures
            text@ == self@,
    {
        self.text.as_str()
    }
}

/// The description of the pipeline that plays the media at the address
/// `uri`.
pub open spec fn launch_text(uri: Seq<char>) -> Seq<char> {
    LAUNCH_HEAD@ + uri + LAUNCH_TAIL@
}

/// Describes the pipeline that plays the media at `uri`: a `playbin` with a
/// sink named [`VIDEO_SINK_NAME`] and filters named [`BALANCE_FILTER_NAME`]
/// and [`GAMMA_FILTER_NAME`].
pub fn launch_description(uri: &Uri) -> (description: String)
    ensures
        description@ == launch_text(uri@),
{
    let mut description = String::from_str(LAUNCH_HEAD);
    description.append(uri.as_str());
    description.append(LAUNCH_TAIL);
    description
}

impl<E> Video<E> {
    /// Get the current subtitle URL, given the text that the backend stores
    /// for it: the address that the text parses to, if it is one.
    pub fn subtitle_url(&self, stored: &str) -> (uri: Option<Uri>)
        ensures
            match uri {
                Some(u) => parsed_url(stored@) == Some(u@),
                None => parsed_url(stored@) is None,
            },
    {
        Uri::parse(stored)
    }
}

} // verus!
