//! Scene-cut detection for decoded video.
//!
//! A frame is scored against its predecessor by the mean absolute difference
//! of its hue, saturation and luminance planes; a frame whose score reaches
//! the threshold is a candidate cut, and a small state machine confirms
//! candidates so that confirmed cuts respect a minimum scene length.
//!
//! Real numbers (frame rates, thresholds, weights, scores) are carried as
//! IEEE-754 bit patterns in [`Float64`]: this crate classifies and compares
//! them, and leaves arithmetic on them to its callers.

pub mod float64;
pub mod text;
pub mod common;
pub mod flash_filter;
pub mod frame_data;
pub mod content_detector;
pub mod scenes;
pub mod detection;
pub mod video_stream;
pub mod options;
pub mod report;

pub use crate::common::{FrameTimecode, SceneCut, SceneDetectError};
pub use crate::content_detector::{
    ComponentWeights,
    ContentDetector,
    FrameInput,
    FrameProgress,
    FrameScore,
};
pub use crate::detection::Detection;
pub use crate::flash_filter::{FilterMode, FlashFilter};
pub use crate::float64::Float64;
pub use crate::frame_data::{
    ChannelDeltas,
    ConversionStage,
    FrameData,
    HsvConversion,
    PixelDistance,
    Plane,
};
pub use crate::options::{parse_args, Args, Argument, OutputFormat};
pub use crate::report::{detailed_report, simple_report};
pub use crate::scenes::{complete_scene_cuts, scene_start_frames};
pub use crate::video_stream::{get_video_info, VideoInfo, VideoProbe, VideoStream};
