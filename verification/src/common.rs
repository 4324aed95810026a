//! Timecodes, scene cuts and the error type.

use vstd::prelude::*;
use crate::float64::Float64;
use crate::text::{decimal, decimal_text};

verus! {

/// A point in a video: a frame index and the frame rate it is counted at.
#[derive(Clone, Copy, Debug, PartialEq)]
pub struct FrameTimecode {
    frame_number: u32,
    fps: Float64,
}

impl FrameTimecode {
    #[verifier::type_invariant]
    spec fn positive_rate(self) -> bool {
        self.fps.spec_is_positive()
    }

    /// The index of the frame, counted from the start of the video.
    pub closed spec fn spec_frame_number(&self) -> u32 {
        self.frame_number
    }

    /// The frame rate that the frame is counted at.
    pub closed spec fn spec_fps(&self) -> Float64 {
        self.fps
    }

    /// The timecode of frame `frame_number` at `fps` frames per second. The
    /// frame rate is greater than zero.
    pub fn new(frame_number: u32, fps: Float64) -> (tc: FrameTimecode)
        requires
            fps.is_positive(),
        ensures
            tc.frame_number() == frame_number,
            tc.fps() == fps,
    {
        FrameTimecode { frame_number, fps }
    }

    /// The timecode of frame `frame_number` at `fps` frames per second, or a
    /// configuration error where `fps` is not greater than zero.
    pub fn try_new(frame_number: u32, fps: Float64) -> (result: Result<
        FrameTimecode,
        SceneDetectError,
    >)
        ensures
            fps.is_positive() ==> (result matches Ok(tc) && tc.frame_number() == frame_number
                && tc.fps() == fps),
            !fps.is_positive() ==> (result matches Err(error) && error.is_config_error(
                "FPS must be positive"@,
            )),
            // A frame rate of zero or less is never accepted, and neither is
            // a NaN.
            fps.spec_le(Float64::spec_zero()) || fps.spec_is_nan() ==> result.is_err(),
    {
        if fps.is_positive() {
            Ok(FrameTimecode { frame_number, fps })
        } else {
            Err(SceneDetectError::config_error("FPS must be positive"))
        }
    }

    /// The index of the frame, counted from the start of the video.
    #[verifier::when_used_as_spec(spec_frame_number)]
    pub fn frame_number(&self) -> (n: u32)
        ensures
            n == self.frame_number(),
    {
        self.frame_number
    }

    /// The frame rate, which is always greater than zero.
    #[verifier::when_used_as_spec(spec_fps)]
    pub fn fps(&self) -> (fps: Float64)
        ensures
            fps == self.fps(),
            fps.is_positive(),
    {
        proof {
            use_type_invariant(self);
        }
        self.fps
    }
}

/// A timecode is its frame number and its frame rate, nothing more.
pub proof fn lemma_timecode_equality(a: FrameTimecode, b: FrameTimecode)
    requires
        a.frame_number() == b.frame_number(),
        a.fps() == b.fps(),
    ensures
        a == b,
{
}

/// A scene boundary: where the scene starts and, once known, where it ends.
#[derive(Clone, Copy, Debug)]
pub struct SceneCut {
    pub start: FrameTimecode,
    pub end: Option<FrameTimecode>,
}

impl SceneCut {
    /// A scene with an end is bounded correctly when the end is counted at
    /// the start's frame rate and lies after the start.
    pub open spec fn well_formed(&self) -> bool {
        match self.end {
            None => true,
            Some(end) => end.fps() == self.start.fps() && end.frame_number()
                > self.start.frame_number(),
        }
    }

    /// The length of the scene in frames, where it has an end.
    pub open spec fn spec_duration_frames(&self) -> Option<u32> {
        match self.end {
            None => None,
            Some(end) => Some((end.frame_number() - self.start.frame_number()) as u32),
        }
    }

    /// A scene that starts at `start` and has no end yet.
    pub fn new(start: FrameTimecode) -> (cut: SceneCut)
        ensures
            cut.start == start,
            cut.end.is_none(),
            cut.well_formed(),
    {
        SceneCut { start, end: None }
    }

    /// A scene from `start` to `end`.
    pub fn new_complete(start: FrameTimecode, end: FrameTimecode) -> (cut: SceneCut)
        requires
            start.fps().spec_equals(end.fps()),
            end.frame_number() > start.frame_number(),
        ensures
            cut.start == start,
            cut.end == Some(end),
            cut.well_formed(),
    {
        proof {
            use_type_invariant(&start);
            use_type_invariant(&end);
        }
        SceneCut { start, end: Some(end) }
    }

    /// The number of frames from the start to the end, or `None` while the
    /// scene has no end.
    #[verifier::when_used_as_spec(spec_duration_frames)]
    pub fn duration_frames(&self) -> (frames: Option<u32>)
        requires
            self.end matches Some(end) ==> end.frame_number() >= self.start.frame_number(),
        ensures
            frames == self.spec_duration_frames(),
            frames.is_some() == self.end.is_some(),
    {
        match &self.end {
            None => None,
            Some(end) => Some(end.frame_number() - self.start.frame_number()),
        }
    }
}

/// Everything that can go wrong while a video is opened, read and analysed.
#[derive(Debug)]
pub enum SceneDetectError {
    VideoOpenFailed { path: String },
    VideoNotFound { path: String },
    InvalidVideoFormat { path: String },
    /// A failure inside the imaging backend, in the backend's own words.
    OpenCvError { message: String },
    InvalidConfig { message: String },
    FrameProcessingFailed { frame: u32, reason: String },
    EmptyVideo,
    UnsupportedFormat,
    /// A condition that the library's own checks should have made
    /// impossible.
    InternalError { message: String },
}

impl SceneDetectError {
    /// The text that describes the error to a reader.
    pub open spec fn message(self) -> Seq<char> {
        match self {
            SceneDetectError::VideoOpenFailed { path } => "Failed to open video file: "@ + path@,
            SceneDetectError::VideoNotFound { path } => "Video file not found: "@ + path@,
            SceneDetectError::InvalidVideoFormat { path } => "Invalid video format or corrupted file: "@
                + path@,
            SceneDetectError::OpenCvError { message } => "OpenCV error: "@ + message@,
            SceneDetectError::InvalidConfig { message } => "Invalid configuration: "@ + message@,
            SceneDetectError::FrameProcessingFailed { frame, reason } => frame_error_text(
                frame,
                reason@,
            ),
            SceneDetectError::EmptyVideo => "No frames found in video"@,
            SceneDetectError::UnsupportedFormat => "Unsupported video codec or format"@,
            SceneDetectError::InternalError { message } => internal_error_text(message@),
        }
    }

    /// Whether this is the configuration error with the given message.
    pub open spec fn is_config_error(self, text: Seq<char>) -> bool {
        self matches SceneDetectError::InvalidConfig { message } && message@ == text
    }

    /// Whether this is the failure of frame `number` for the given reason.
    pub open spec fn is_frame_error(self, number: u32, text: Seq<char>) -> bool {
        self matches SceneDetectError::FrameProcessingFailed { frame, reason } && frame == number
            && reason@ == text
    }

    /// Whether this is the internal error with the given message.
    pub open spec fn is_internal_error(self, text: Seq<char>) -> bool {
        self matches SceneDetectError::InternalError { message } && message@ == text
    }

    /// A configuration error.
    pub fn config_error(message: &str) -> (error: SceneDetectError)
        ensures
            error.is_config_error(message@),
    {
        SceneDetectError::InvalidConfig { message: String::from_str(message) }
    }

    /// The failure of one frame.
    pub fn frame_error(frame: u32, reason: &str) -> (error: SceneDetectError)
        ensures
            error.is_frame_error(frame, reason@),
    {
        SceneDetectError::FrameProcessingFailed { frame, reason: String::from_str(reason) }
    }

    /// An internal error.
    pub fn internal_error(message: &str) -> (error: SceneDetectError)
        ensures
            error.is_internal_error(message@),
    {
        SceneDetectError::InternalError { message: String::from_str(message) }
    }

    /// Writes the error out for a reader.
    pub fn to_string(&self) -> (text: String)
        ensures
            text@ == self.message(),
    {
        match self {
            SceneDetectError::VideoOpenFailed { path } => String::from_str(
                "Failed to open video file: ",
            ).concat(path.as_str()),
            SceneDetectError::VideoNotFound { path } => String::from_str(
                "Video file not found: ",
            ).concat(path.as_str()),
            SceneDetectError::InvalidVideoFormat { path } => String::from_str(
                "Invalid video format or corrupted file: ",
            ).concat(path.as_str()),
            SceneDetectError::OpenCvError { message } => String::from_str("OpenCV error: ").concat(
                message.as_str(),
            ),
            SceneDetectError::InvalidConfig { message } => String::from_str(
                "Invalid configuration: ",
            ).concat(message.as_str()),
            SceneDetectError::FrameProcessingFailed { frame, reason } => {
                let number: String = decimal(*frame as u128);
                String::from_str("Frame processing failed at frame ").concat(
                    number.as_str(),
                ).concat(": ").concat(reason.as_str())
            },
            SceneDetectError::EmptyVideo => String::from_str("No frames found in video"),
            SceneDetectError::UnsupportedFormat => String::from_str(
                "Unsupported video codec or format",
            ),
            SceneDetectError::InternalError { message } => String::from_str(
                "Internal error: ",
            ).concat(message.as_str()),
        }
    }
}

/// The text of the failure of frame `frame` for the reason `reason`.
pub open spec fn frame_error_text(frame: u32, reason: Seq<char>) -> Seq<char> {
    "Frame processing failed at frame "@ + decimal_text(frame as nat) + ": "@ + reason
}

/// The text of the internal error with the message `message`.
pub open spec fn internal_error_text(message: Seq<char>) -> Seq<char> {
    "Internal error: "@ + message
}

} // verus!
