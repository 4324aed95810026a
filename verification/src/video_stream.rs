//! What is known of a video: whether it can be read at all, how large it
//! is, and how far reading has come.

use vstd::prelude::*;
use crate::common::SceneDetectError;
use crate::float64::Float64;

verus! {

/// What the backend reported when a video file was opened. A property that
/// could not be read is `None`.
#[derive(Clone, Copy, Debug)]
pub struct VideoProbe {
    /// Whether there is a file at the path.
    pub exists: bool,
    /// Whether the backend opened it as a video.
    pub opened: bool,
    pub fps: Option<Float64>,
    pub frame_count: Option<i32>,
    pub width: Option<i32>,
    pub height: Option<i32>,
}

/// Why a video cannot be read.
#[derive(Clone, Copy, Debug, PartialEq, Eq, Structural)]
pub enum OpenFault {
    NotFound,
    OpenFailed,
    InvalidFormat,
    Empty,
}

impl VideoProbe {
    /// The first thing that is wrong with the video, if anything is: there
    /// is no file; it was not opened; a property could not be read; the
    /// frame rate is zero or less; there are no frames; the width or the
    /// height is zero or less.
    pub open spec fn fault(self) -> Option<OpenFault> {
        if !self.exists {
            Some(OpenFault::NotFound)
        } else if !self.opened {
            Some(OpenFault::OpenFailed)
        } else if self.fps.is_none() || self.frame_count.is_none() || self.width.is_none()
            || self.height.is_none() {
            Some(OpenFault::InvalidFormat)
        } else if self.fps.unwrap().spec_le(Float64::spec_zero()) {
            Some(OpenFault::InvalidFormat)
        } else if self.frame_count.unwrap() <= 0 {
            Some(OpenFault::Empty)
        } else if self.width.unwrap() <= 0 || self.height.unwrap() <= 0 {
            Some(OpenFault::InvalidFormat)
        } else {
            None
        }
    }
}

/// Whether `error` is the error that stands for `fault` on the video at
/// `path`.
pub open spec fn error_matches(error: SceneDetectError, fault: OpenFault, path: Seq<char>) -> bool {
    match fault {
        OpenFault::NotFound => error matches SceneDetectError::VideoNotFound { path: p } && p@
            == path,
        OpenFault::OpenFailed => error matches SceneDetectError::VideoOpenFailed { path: p } && p@
            == path,
        OpenFault::InvalidFormat => error matches SceneDetectError::InvalidVideoFormat { path: p }
            && p@ == path,
        OpenFault::Empty => error is EmptyVideo,
    }
}

/// What a [`VideoStream`] is made of.
pub struct StreamState {
    pub path: Seq<char>,
    pub fps: Float64,
    pub frame_count: i32,
    pub current_frame: i32,
    pub width: i32,
    pub height: i32,
}

/// An open video: its properties, and the number of frames read so far.
#[derive(Debug)]
pub struct VideoStream {
    fps: Float64,
    frame_count: i32,
    current_frame: i32,
    width: i32,
    height: i32,
    path: String,
}

impl View for VideoStream {
    type V = StreamState;

    closed spec fn view(&self) -> StreamState {
        StreamState {
            path: self.path@,
            fps: self.fps,
            frame_count: self.frame_count,
            current_frame: self.current_frame,
            width: self.width,
            height: self.height,
        }
    }
}

impl VideoStream {
    #[verifier::type_invariant]
    spec fn readable(self) -> bool {
        &&& !self.fps.spec_le(Float64::spec_zero())
        &&& self.frame_count > 0
        &&& self.width > 0
        &&& self.height > 0
        &&& self.current_frame >= 0
    }

    /// The stream over the video at `path` of which the backend reported
    /// `probe`, before any frame is read; or the error that says what is
    /// wrong with the video.
    pub fn open(path: &str, probe: VideoProbe) -> (result: Result<VideoStream, SceneDetectError>)
        ensures
            match probe.fault() {
                Some(fault) => result matches Err(error) && error_matches(error, fault, path@),
                None => result matches Ok(stream) && stream@ == (StreamState {
                    path: path@,
                    fps: probe.fps.unwrap(),
                    frame_count: probe.frame_count.unwrap(),
                    current_frame: 0,
                    width: probe.width.unwrap(),
                    height: probe.height.unwrap(),
                }),
            },
    {
        if !probe.exists {
            return Err(SceneDetectError::VideoNotFound { path: String::from_str(path) });
        }
        if !probe.opened {
            return Err(SceneDetectError::VideoOpenFailed { path: String::from_str(path) });
        }
        match (probe.fps, probe.frame_count, probe.width, probe.height) {
            (Some(fps), Some(frame_count), Some(width), Some(height)) => {
                if fps.le(Float64::zero()) {
                    return Err(
                        SceneDetectError::InvalidVideoFormat { path: String::from_str(path) },
                    );
                }
                if frame_count <= 0 {
                    return Err(SceneDetectError::EmptyVideo);
                }
                if width <= 0 || height <= 0 {
                    return Err(
                        SceneDetectError::InvalidVideoFormat { path: String::from_str(path) },
                    );
                }
                Ok(
                    VideoStream {
                        fps,
                        frame_count,
                        current_frame: 0,
                        width,
                        height,
                        path: String::from_str(path),
                    },
                )
            },
            _ => Err(SceneDetectError::InvalidVideoFormat { path: String::from_str(path) }),
        }
    }

    /// Takes note of what a read gave. A frame was read where the read
    /// succeeded and the frame has pixels; anything else is the end of the
    /// video. A frame that was read counts, and is of the video's size.
    pub fn read_frame(&mut self, success: bool, frame_empty: bool, rows: i32, cols: i32) -> (read:
        bool)
        requires
            success && !frame_empty ==> rows == old(self)@.height && cols == old(self)@.width
                && old(self)@.current_frame < i32::MAX,
        ensures
            read == (success && !frame_empty),
            final(self)@ == (StreamState {
                current_frame: if read {
                    (old(self)@.current_frame + 1) as i32
                } else {
                    old(self)@.current_frame
                },
                ..old(self)@
            }),
    {
        proof {
            use_type_invariant(&*self);
        }
        if success && !frame_empty {
            self.current_frame = self.current_frame + 1;
            true
        } else {
            false
        }
    }

    /// The frame rate.
    pub fn fps(&self) -> (fps: Float64)
        ensures
            fps == self@.fps,
            !fps.spec_le(Float64::spec_zero()),
    {
        proof {
            use_type_invariant(self);
        }
        self.fps
    }

    /// The number of frames in the video, which is more than zero.
    pub fn frame_count(&self) -> (count: i32)
        ensures
            count == self@.frame_count,
            count > 0,
    {
        proof {
            use_type_invariant(self);
        }
        self.frame_count
    }

    /// The number of frames read so far, which is the number of the frame
    /// that was read last.
    pub fn current_frame(&self) -> (frame: i32)
        ensures
            frame == self@.current_frame,
            frame >= 0,
    {
        proof {
            use_type_invariant(self);
        }
        self.current_frame
    }

    /// The width of a frame in pixels, which is more than zero.
    pub fn width(&self) -> (width: i32)
        ensures
            width == self@.width,
            width > 0,
    {
        proof {
            use_type_invariant(self);
        }
        self.width
    }

    /// The height of a frame in pixels, which is more than zero.
    pub fn height(&self) -> (height: i32)
        ensures
            height == self@.height,
            height > 0,
    {
        proof {
            use_type_invariant(self);
        }
        self.height
    }

    pub fn path(&self) -> (path: &str)
        ensures
            path@ == self@.path,
    {
        self.path.as_str()
    }

    /// Whether fewer frames were read than the video has.
    pub fn has_more_frames(&self) -> (more: bool)
        ensures
            more == (self@.current_frame < self@.frame_count),
    {
        self.current_frame < self.frame_count
    }
}

/// What is known of a video without looking at its frames.
#[derive(Clone, Debug, PartialEq)]
pub struct VideoInfo {
    pub path: String,
    pub fps: Float64,
    pub frame_count: u32,
    pub width: u32,
    pub height: u32,
    pub duration_seconds: Float64,
}

impl VideoInfo {
    /// Every number is greater than zero.
    pub open spec fn spec_is_valid(&self) -> bool {
        &&& self.fps.spec_is_positive()
        &&& self.frame_count > 0
        &&& self.width > 0
        &&& self.height > 0
        &&& self.duration_seconds.spec_is_positive()
    }

    /// Whether this can be a video: every number is greater than zero.
    #[verifier::when_used_as_spec(spec_is_valid)]
    pub fn is_valid(&self) -> (valid: bool)
        ensures
            valid == self.is_valid(),
    {
        self.fps.is_positive() && self.frame_count > 0 && self.width > 0 && self.height > 0
            && self.duration_seconds.is_positive()
    }
}

/// What is known of the video behind `stream`, which lasts
/// `duration_seconds`.
pub fn get_video_info(stream: &VideoStream, duration_seconds: Float64) -> (info: VideoInfo)
    ensures
        info.path@ == stream@.path,
        info.fps == stream@.fps,
        info.frame_count == stream@.frame_count,
        info.width == stream@.width,
        info.height == stream@.height,
        info.duration_seconds == duration_seconds,
{
    VideoInfo {
        path: String::from_str(stream.path()),
        fps: stream.fps(),
        frame_count: stream.frame_count() as u32,
        width: stream.width() as u32,
        height: stream.height() as u32,
        duration_seconds,
    }
}

} // verus!
