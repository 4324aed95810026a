//! The detector: scores each frame against the one before it and hands the
//! verdict to the cut filter.

use vstd::prelude::*;
use crate::common::{frame_error_text, internal_error_text, FrameTimecode, SceneDetectError};
use crate::flash_filter::{FilterMode, FilterState, FlashFilter};
use crate::float64::{Float64, ONE_BITS};
use crate::frame_data::{
    channel_count_text,
    channel_size_mismatch_text,
    distance_between,
    size_text,
    sum_abs_diff,
    ChannelDeltas,
    FrameData,
    HsvConversion,
    PixelDistance,
    Plane,
};

verus! {

/// The minimum scene length of a detector that is made without one.
pub const DEFAULT_MIN_SCENE_LENGTH: u32 = 15;

/// How much each channel's distance counts in a frame's score.
#[derive(Clone, Copy, Debug, PartialEq)]
pub struct ComponentWeights {
    pub delta_hue: Float64,
    pub delta_sat: Float64,
    pub delta_lum: Float64,
    /// Reserved: no edge distance is measured, so this weight multiplies
    /// zero. It still counts in the sum that the score is divided by.
    pub delta_edges: Float64,
}

impl ComponentWeights {
    /// Hue, saturation and luminance count alike, edges not at all.
    pub open spec fn spec_default() -> ComponentWeights {
        ComponentWeights {
            delta_hue: Float64 { bits: ONE_BITS },
            delta_sat: Float64 { bits: ONE_BITS },
            delta_lum: Float64 { bits: ONE_BITS },
            delta_edges: Float64 { bits: 0 },
        }
    }

    /// Only luminance counts.
    pub open spec fn spec_luma_only() -> ComponentWeights {
        ComponentWeights {
            delta_hue: Float64 { bits: 0 },
            delta_sat: Float64 { bits: 0 },
            delta_lum: Float64 { bits: ONE_BITS },
            delta_edges: Float64 { bits: 0 },
        }
    }

    /// Whether every weight is a zero, so that their absolute values add up
    /// to zero. (A sum with a NaN in it is a NaN, which is not "at most
    /// zero"; any other weight that is not a zero makes the sum positive.)
    pub open spec fn all_zero(&self) -> bool {
        &&& self.delta_hue.spec_is_zero()
        &&& self.delta_sat.spec_is_zero()
        &&& self.delta_lum.spec_is_zero()
        &&& self.delta_edges.spec_is_zero()
    }

    /// Only luminance counts: for video without reliable colour.
    #[verifier::when_used_as_spec(spec_luma_only)]
    pub fn luma_only() -> (weights: ComponentWeights)
        ensures
            weights == ComponentWeights::spec_luma_only(),
            !weights.all_zero(),
    {
        ComponentWeights {
            delta_hue: Float64::from_bits(0),
            delta_sat: Float64::from_bits(0),
            delta_lum: Float64::from_bits(ONE_BITS),
            delta_edges: Float64::from_bits(0),
        }
    }

    /// Rejects weights that are all zero: a score could not be divided by
    /// their sum.
    pub fn validate(&self) -> (result: Result<(), SceneDetectError>)
        ensures
            result.is_err() == self.all_zero(),
            result matches Err(error) ==> error.is_config_error(
                "All component weights cannot be zero"@,
            ),
    {
        if self.delta_hue.is_zero() && self.delta_sat.is_zero() && self.delta_lum.is_zero()
            && self.delta_edges.is_zero() {
            return Err(SceneDetectError::config_error("All component weights cannot be zero"));
        }
        Ok(())
    }
}

impl Default for ComponentWeights {
    fn default() -> (weights: ComponentWeights)
        ensures
            weights == ComponentWeights::spec_default(),
            !weights.all_zero(),
    {
        ComponentWeights {
            delta_hue: Float64::from_bits(ONE_BITS),
            delta_sat: Float64::from_bits(ONE_BITS),
            delta_lum: Float64::from_bits(ONE_BITS),
            delta_edges: Float64::from_bits(0),
        }
    }
}

/// What is known of a frame's score before any arithmetic on real numbers.
#[derive(Clone, Copy, Debug, PartialEq, Eq, Structural)]
pub enum FrameScore {
    /// There is no frame before this one: the score is zero.
    Zero,
    /// The score is the sum of the three mean distances, each times its
    /// weight, divided by the sum of the absolute values of all four weights.
    Weighted(ChannelDeltas),
}

impl FrameScore {
    /// The score, where it is known without arithmetic.
    pub open spec fn spec_value(&self) -> Option<Float64> {
        match self {
            FrameScore::Zero => Some(Float64::spec_zero()),
            FrameScore::Weighted(_) => None,
        }
    }

    /// The score, where it is known without arithmetic.
    #[verifier::when_used_as_spec(spec_value)]
    pub fn value(&self) -> (score: Option<Float64>)
        ensures
            score == self.value(),
    {
        match self {
            FrameScore::Zero => Some(Float64::zero()),
            FrameScore::Weighted(_) => None,
        }
    }
}

/// A frame as the detector takes it.
#[derive(Debug)]
pub enum FrameInput {
    /// A frame without pixels.
    Empty,
    /// A frame with pixels, and what its conversion into planes gave.
    Converted(HsvConversion),
}

/// How far the detector got with a frame.
#[derive(Clone, Copy, Debug)]
pub enum FrameProgress {
    /// The frame is dealt with: this is the cut that it confirmed, if any.
    Decided(Option<FrameTimecode>),
    /// The frame's score has to be worked out from these distances and
    /// handed to [`ContentDetector::apply_score`].
    NeedsScore(ChannelDeltas),
}

/// What is said where two planes that are to be compared differ in size.
pub open spec fn image_size_mismatch_text(left: &Plane, right: &Plane) -> Seq<char> {
    "Image size mismatch: left="@ + size_text(left.rows(), left.cols()) + ", right="@ + size_text(
        right.rows(),
        right.cols(),
    )
}

/// The feature set that a conversion yields, or the reason why the frame
/// fails: the conversion failed, it gave other than three channels, or the
/// three are not of one size.
pub open spec fn features(conversion: HsvConversion) -> Result<FrameData, Seq<char>> {
    match conversion {
        HsvConversion::Failed { stage, detail } => Err(
            "Frame analysis failed: "@ + frame_error_text(0, stage.text() + detail@),
        ),
        HsvConversion::Channels(channels) => if channels@.len() != 3 {
            Err(
                "Frame analysis failed: "@ + frame_error_text(
                    0,
                    channel_count_text(channels@.len()),
                ),
            )
        } else {
            let data = FrameData { hue: channels@[0], sat: channels@[1], lum: channels@[2] };
            if data.consistent() {
                Ok(data)
            } else {
                Err(
                    "Frame validation failed: "@ + internal_error_text(
                        channel_size_mismatch_text(&data),
                    ),
                )
            }
        },
    }
}

/// The distances between two feature sets, or the reason why they cannot be
/// compared: the first channel, in the order hue, saturation, luminance,
/// whose planes differ in size.
pub open spec fn comparison(current: &FrameData, previous: &FrameData) -> Result<
    ChannelDeltas,
    Seq<char>,
> {
    if !current.hue.same_size(&previous.hue) {
        Err(
            "Hue difference calculation failed: "@ + internal_error_text(
                image_size_mismatch_text(&current.hue, &previous.hue),
            ),
        )
    } else if !current.sat.same_size(&previous.sat) {
        Err(
            "Saturation difference calculation failed: "@ + internal_error_text(
                image_size_mismatch_text(&current.sat, &previous.sat),
            ),
        )
    } else if !current.lum.same_size(&previous.lum) {
        Err(
            "Luminance difference calculation failed: "@ + internal_error_text(
                image_size_mismatch_text(&current.lum, &previous.lum),
            ),
        )
    } else {
        Ok(
            ChannelDeltas {
                hue: distance_between(&current.hue, &previous.hue),
                sat: distance_between(&current.sat, &previous.sat),
                lum: distance_between(&current.lum, &previous.lum),
            },
        )
    }
}

/// What is known of the score of the frame that `conversion` came from,
/// where `retained` is the feature set of the frame before it; or the
/// reason why the frame fails.
pub open spec fn frame_score(conversion: HsvConversion, retained: Option<FrameData>) -> Result<
    FrameScore,
    Seq<char>,
> {
    match features(conversion) {
        Err(reason) => Err(reason),
        Ok(current) => match retained {
            None => Ok(FrameScore::Zero),
            Some(previous) => match comparison(&current, &previous) {
                Err(reason) => Err(reason),
                Ok(deltas) => Ok(FrameScore::Weighted(deltas)),
            },
        },
    }
}

/// The feature set that is kept for the next frame: that of this frame as
/// soon as it has one, whether or not it could be compared.
pub open spec fn retained_after(conversion: HsvConversion, retained: Option<FrameData>) -> Option<
    FrameData,
> {
    match features(conversion) {
        Err(_) => retained,
        Ok(current) => Some(current),
    }
}

/// What a [`ContentDetector`] is made of.
pub struct DetectorState {
    pub threshold: Float64,
    pub weights: ComponentWeights,
    /// The feature set of the last frame that had one.
    pub retained: Option<FrameData>,
    pub filter: FilterState,
    /// The number of frames handed to the detector.
    pub frame_count: u32,
}

impl DetectorState {
    /// The state before any frame.
    pub open spec fn initial(
        threshold: Float64,
        weights: ComponentWeights,
        min_scene_length: u32,
        mode: FilterMode,
    ) -> DetectorState {
        DetectorState {
            threshold,
            weights,
            retained: None,
            filter: FilterState::initial(mode, min_scene_length),
            frame_count: 0,
        }
    }

    /// The state before any frame, with the settings of this one.
    pub open spec fn pristine(self) -> DetectorState {
        DetectorState::initial(
            self.threshold,
            self.weights,
            self.filter.min_scene_length,
            self.filter.mode,
        )
    }

    /// The threshold is zero or more, the weights are not all zero, and the
    /// filter's state is well formed. Every detector that this library hands
    /// out is so, and stays so.
    pub open spec fn well_formed(self) -> bool {
        &&& self.threshold.spec_is_non_negative()
        &&& !self.weights.all_zero()
        &&& self.filter.well_formed()
    }

    /// Whether a score reaches the threshold.
    pub open spec fn above_threshold(self, score: Float64) -> bool {
        score.spec_ge(self.threshold)
    }

    /// The state after the frame at `frame` got the score `score`.
    pub open spec fn scored(self, score: Float64, frame: u32) -> DetectorState {
        DetectorState { filter: self.filter.next(frame, self.above_threshold(score)), ..self }
    }

    /// The frame of the cut that is confirmed when the frame at `frame` gets
    /// the score `score`.
    pub open spec fn confirmed(self, score: Float64, frame: u32) -> Option<u32> {
        self.filter.emitted(frame, self.above_threshold(score))
    }

    /// What comes of the frame `frame`, which is at frame number `number`:
    /// an empty frame fails; so does one without a feature set, or one that
    /// cannot be measured against the frame before it; a first frame has the
    /// score zero and is decided by it; any other waits for its score.
    pub open spec fn outcome(self, frame: FrameInput, number: u32) -> FrameOutcome {
        match frame {
            FrameInput::Empty => FrameOutcome::Failed { reason: "Empty frame provided"@ },
            FrameInput::Converted(conversion) => match frame_score(conversion, self.retained) {
                Err(reason) => FrameOutcome::Failed { reason },
                Ok(FrameScore::Zero) => FrameOutcome::Decided {
                    cut: self.confirmed(Float64::spec_zero(), number),
                },
                Ok(FrameScore::Weighted(deltas)) => FrameOutcome::NeedsScore { deltas },
            },
        }
    }

    /// The state after the frame `frame`, which is at frame number `number`:
    /// the frame is counted; its feature set, where it has one, is kept;
    /// and a first frame has gone through the filter with the score zero.
    pub open spec fn after_frame(self, frame: FrameInput, number: u32) -> DetectorState {
        let counted = DetectorState { frame_count: (self.frame_count + 1) as u32, ..self };
        match frame {
            FrameInput::Empty => counted,
            FrameInput::Converted(conversion) => {
                let kept = DetectorState {
                    retained: retained_after(conversion, self.retained),
                    ..counted
                };
                match frame_score(conversion, self.retained) {
                    Ok(FrameScore::Zero) => kept.scored(Float64::spec_zero(), number),
                    _ => kept,
                }
            },
        }
    }
}

/// What comes of handing a frame to the detector.
pub enum FrameOutcome {
    /// The frame fails, for this reason.
    Failed { reason: Seq<char> },
    /// The frame is dealt with, and confirms the cut at this frame, if any.
    Decided { cut: Option<u32> },
    /// The frame waits for its score, which is to be worked out from these
    /// distances.
    NeedsScore { deltas: ChannelDeltas },
}

/// Whether `result` says what `outcome` is, of the frame at `timecode`.
pub open spec fn result_matches(
    result: Result<FrameProgress, SceneDetectError>,
    outcome: FrameOutcome,
    timecode: FrameTimecode,
) -> bool {
    match outcome {
        FrameOutcome::Failed { reason } => result matches Err(error) && error.is_frame_error(
            timecode.frame_number(),
            reason,
        ),
        FrameOutcome::Decided { cut } => result matches Ok(FrameProgress::Decided(confirmed))
            && cut_matches(confirmed, cut, timecode.fps()),
        FrameOutcome::NeedsScore { deltas } => result matches Ok(FrameProgress::NeedsScore(needed))
            && needed == deltas,
    }
}

/// Whether `cut` is the timecode of the confirmed cut `emitted`, at the rate
/// `fps`.
pub open spec fn cut_matches(cut: Option<FrameTimecode>, emitted: Option<u32>, fps: Float64) -> bool {
    match emitted {
        None => cut.is_none(),
        Some(frame) => cut matches Some(timecode) && timecode.frame_number() == frame
            && timecode.fps() == fps,
    }
}

/// Detects scene changes by the change of content from each frame to the
/// next.
#[derive(Debug)]
pub struct ContentDetector {
    threshold: Float64,
    weights: ComponentWeights,
    last_frame_data: Option<FrameData>,
    flash_filter: FlashFilter,
    frame_count: u32,
}

impl View for ContentDetector {
    type V = DetectorState;

    closed spec fn view(&self) -> DetectorState {
        DetectorState {
            threshold: self.threshold,
            weights: self.weights,
            retained: self.last_frame_data,
            filter: self.flash_filter@,
            frame_count: self.frame_count,
        }
    }
}

/// The failure of frame `frame`: `prefix`, then what `cause` says.
fn wrapped_frame_error(frame: u32, prefix: &str, cause: &SceneDetectError) -> (error:
    SceneDetectError)
    ensures
        error.is_frame_error(frame, prefix@ + cause.message()),
{
    let reason: String = String::from_str(prefix).concat(cause.to_string().as_str());
    SceneDetectError::frame_error(frame, reason.as_str())
}

impl ContentDetector {
    /// A detector with the given threshold, the default weights, a minimum
    /// scene length of 15 frames and a filter in suppress mode.
    pub fn new(threshold: Float64) -> (detector: ContentDetector)
        requires
            threshold.is_non_negative(),
        ensures
            detector@ == DetectorState::initial(
                threshold,
                ComponentWeights::spec_default(),
                DEFAULT_MIN_SCENE_LENGTH,
                FilterMode::Suppress,
            ),
            detector@.well_formed(),
    {
        ContentDetector {
            threshold,
            weights: ComponentWeights::default(),
            last_frame_data: None,
            flash_filter: FlashFilter::new(DEFAULT_MIN_SCENE_LENGTH),
            frame_count: 0,
        }
    }

    /// The configuration error that the settings call for, if any: the
    /// threshold is checked first, then the weights, then the minimum scene
    /// length.
    pub open spec fn config_fault(
        threshold: Float64,
        weights: ComponentWeights,
        min_scene_length: u32,
    ) -> Option<Seq<char>> {
        if !threshold.spec_is_non_negative() {
            Some("Threshold must be non-negative"@)
        } else if weights.all_zero() {
            Some("All component weights cannot be zero"@)
        } else if min_scene_length == 0 {
            Some("Minimum scene length must be positive"@)
        } else {
            None
        }
    }

    /// A detector with the given settings, or the configuration error that
    /// says which of them is not valid.
    pub fn new_with_config(
        threshold: Float64,
        weights: ComponentWeights,
        min_scene_length: u32,
        filter_mode: FilterMode,
    ) -> (result: Result<ContentDetector, SceneDetectError>)
        ensures
            match ContentDetector::config_fault(threshold, weights, min_scene_length) {
                Some(message) => result matches Err(error) && error.is_config_error(message),
                None => result matches Ok(detector) && detector@ == DetectorState::initial(
                    threshold,
                    weights,
                    min_scene_length,
                    filter_mode,
                ) && detector@.well_formed(),
            },
    {
        if !threshold.is_non_negative() {
            return Err(SceneDetectError::config_error("Threshold must be non-negative"));
        }
        match weights.validate() {
            Err(error) => {
                return Err(error);
            },
            Ok(()) => {},
        }
        if min_scene_length == 0 {
            return Err(SceneDetectError::config_error("Minimum scene length must be positive"));
        }
        Ok(
            ContentDetector {
                threshold,
                weights,
                last_frame_data: None,
                flash_filter: FlashFilter::new_with_mode(filter_mode, min_scene_length),
                frame_count: 0,
            },
        )
    }

    /// A detector that looks at luminance only.
    pub fn new_luma_only(threshold: Float64) -> (detector: ContentDetector)
        requires
            threshold.is_non_negative(),
        ensures
            detector@ == DetectorState::initial(
                threshold,
                ComponentWeights::spec_luma_only(),
                DEFAULT_MIN_SCENE_LENGTH,
                FilterMode::Suppress,
            ),
            detector@.well_formed(),
    {
        ContentDetector {
            threshold,
            weights: ComponentWeights::luma_only(),
            last_frame_data: None,
            flash_filter: FlashFilter::new(DEFAULT_MIN_SCENE_LENGTH),
            frame_count: 0,
        }
    }

    /// Takes one frame. The frame is counted whatever comes of it.
    ///
    /// An empty frame fails. Otherwise the frame's planes are checked,
    /// measured against those of the frame before and kept for the next
    /// one. A first frame has the score zero and is decided at once; for any
    /// other the distances are handed back, and the frame is decided when
    /// its score comes in through [`ContentDetector::apply_score`].
    pub fn process_frame(&mut self, frame: FrameInput, timecode: FrameTimecode) -> (result: Result<
        FrameProgress,
        SceneDetectError,
    >)
        requires
            old(self)@.frame_count < u32::MAX,
        ensures
            final(self)@ == old(self)@.after_frame(frame, timecode.frame_number()),
            result_matches(result, old(self)@.outcome(frame, timecode.frame_number()), timecode),
            old(self)@.well_formed() ==> final(self)@.well_formed(),
    {
        self.frame_count = self.frame_count + 1;
        match frame {
            FrameInput::Empty => Err(
                SceneDetectError::frame_error(timecode.frame_number(), "Empty frame provided"),
            ),
            FrameInput::Converted(conversion) => {
                match self.calculate_frame_score(conversion, timecode.frame_number()) {
                    Err(error) => Err(error),
                    Ok(FrameScore::Zero) => Ok(
                        FrameProgress::Decided(self.apply_score(Float64::zero(), timecode)),
                    ),
                    Ok(FrameScore::Weighted(deltas)) => Ok(FrameProgress::NeedsScore(deltas)),
                }
            },
        }
    }

    /// Decides a frame by its score: the frame is above the threshold where
    /// the score is at least the threshold, and the filter says whether that
    /// confirms a cut.
    pub fn apply_score(&mut self, score: Float64, timecode: FrameTimecode) -> (cut: Option<
        FrameTimecode,
    >)
        ensures
            final(self)@ == old(self)@.scored(score, timecode.frame_number()),
            cut_matches(
                cut,
                old(self)@.confirmed(score, timecode.frame_number()),
                timecode.fps(),
            ),
            old(self)@.well_formed() ==> final(self)@.well_formed(),
    {
        let above_threshold: bool = score.ge(self.threshold);
        let cuts: Vec<FrameTimecode> = self.flash_filter.filter(timecode, above_threshold);
        if cuts.len() > 0 {
            Some(cuts[0])
        } else {
            None
        }
    }

    /// Checks and measures the planes of one frame, and keeps them for the
    /// next one.
    pub fn calculate_frame_score(&mut self, conversion: HsvConversion, frame_number: u32) -> (result:
        Result<FrameScore, SceneDetectError>)
        ensures
            final(self)@ == (DetectorState {
                retained: retained_after(conversion, old(self)@.retained),
                ..old(self)@
            }),
            match frame_score(conversion, old(self)@.retained) {
                Err(reason) => result matches Err(error) && error.is_frame_error(
                    frame_number,
                    reason,
                ),
                Ok(score) => result matches Ok(known) && known == score,
            },
    {
        let current: FrameData = match FrameData::from_bgr_frame(conversion) {
            Ok(data) => data,
            Err(error) => {
                return Err(wrapped_frame_error(frame_number, "Frame analysis failed: ", &error));
            },
        };
        match current.validate() {
            Ok(()) => {},
            Err(error) => {
                return Err(wrapped_frame_error(frame_number, "Frame validation failed: ", &error));
            },
        }
        let result = match &self.last_frame_data {
            Some(last_data) => ContentDetector::channel_deltas(&current, last_data, frame_number),
            None => Ok(FrameScore::Zero),
        };
        self.last_frame_data = Some(current);
        result
    }

    /// Measures each channel of `current` against that of `previous`.
    fn channel_deltas(current: &FrameData, previous: &FrameData, frame_number: u32) -> (result:
        Result<FrameScore, SceneDetectError>)
        ensures
            match comparison(current, previous) {
                Err(reason) => result matches Err(error) && error.is_frame_error(
                    frame_number,
                    reason,
                ),
                Ok(deltas) => result == Ok::<FrameScore, SceneDetectError>(
                    FrameScore::Weighted(deltas),
                ),
            },
    {
        let hue: PixelDistance = match ContentDetector::mean_pixel_distance(
            &current.hue,
            &previous.hue,
        ) {
            Ok(distance) => distance,
            Err(error) => {
                return Err(
                    wrapped_frame_error(
                        frame_number,
                        "Hue difference calculation failed: ",
                        &error,
                    ),
                );
            },
        };
        let sat: PixelDistance = match ContentDetector::mean_pixel_distance(
            &current.sat,
            &previous.sat,
        ) {
            Ok(distance) => distance,
            Err(error) => {
                return Err(
                    wrapped_frame_error(
                        frame_number,
                        "Saturation difference calculation failed: ",
                        &error,
                    ),
                );
            },
        };
        let lum: PixelDistance = match ContentDetector::mean_pixel_distance(
            &current.lum,
            &previous.lum,
        ) {
            Ok(distance) => distance,
            Err(error) => {
                return Err(
                    wrapped_frame_error(
                        frame_number,
                        "Luminance difference calculation failed: ",
                        &error,
                    ),
                );
            },
        };
        Ok(FrameScore::Weighted(ChannelDeltas { hue, sat, lum }))
    }

    /// The mean absolute difference between the samples of two planes, as
    /// an exact fraction. Planes of different sizes cannot be compared.
    pub fn mean_pixel_distance(left: &Plane, right: &Plane) -> (result: Result<
        PixelDistance,
        SceneDetectError,
    >)
        ensures
            left.same_size(right) ==> result == Ok::<PixelDistance, SceneDetectError>(
                distance_between(left, right),
            ),
            result matches Ok(distance) ==> {
                &&& distance.total == sum_abs_diff(left.pixels(), right.pixels())
                &&& distance.pixels == left.pixels().len()
                &&& distance.total <= 255 * distance.pixels
            },
            !left.same_size(right) ==> (result matches Err(error) && error.is_internal_error(
                image_size_mismatch_text(left, right),
            )),
    {
        if !left.same_size(right) {
            let left_size: String = left.size_string();
            let right_size: String = right.size_string();
            let message: String = String::from_str("Image size mismatch: left=").concat(
                left_size.as_str(),
            ).concat(", right=").concat(right_size.as_str());
            return Err(SceneDetectError::internal_error(message.as_str()));
        }
        let pixels: u32 = left.pixel_count();
        let mut total: u64 = 0;
        let mut index: u32 = 0;
        while index < pixels
            invariant
                index <= pixels,
                pixels == left.pixels().len(),
                pixels == right.pixels().len(),
                total == sum_abs_diff(
                    left.pixels().take(index as int),
                    right.pixels().take(index as int),
                ),
                total <= 255 * index,
            decreases pixels - index,
        {
            let a: u8 = left.pixel(index);
            let b: u8 = right.pixel(index);
            let difference: u8 = if a >= b {
                a - b
            } else {
                b - a
            };
            proof {
                let next = index + 1;
                assert(left.pixels().take(next).drop_last() == left.pixels().take(index as int));
                assert(right.pixels().take(next).drop_last() == right.pixels().take(index as int));
            }
            total = total + difference as u64;
            index = index + 1;
        }
        proof {
            assert(left.pixels().take(pixels as int) == left.pixels());
            assert(right.pixels().take(pixels as int) == right.pixels());
        }
        Ok(PixelDistance { total, pixels })
    }

    /// The score from which on a frame is a candidate cut.
    pub fn threshold(&self) -> (threshold: Float64)
        ensures
            threshold == self@.threshold,
    {
        self.threshold
    }

    pub fn weights(&self) -> (weights: &ComponentWeights)
        ensures
            *weights == self@.weights,
    {
        &self.weights
    }

    /// The number of frames handed to the detector since it was made or
    /// reset.
    pub fn frame_count(&self) -> (count: u32)
        ensures
            count == self@.frame_count,
    {
        self.frame_count
    }

    /// The minimum number of frames between two cuts.
    pub fn min_scene_length(&self) -> (frames: u32)
        ensures
            frames == self@.filter.min_scene_length,
            frames > 0,
    {
        self.flash_filter.min_scene_length()
    }

    /// Forgets every frame seen: the detector is as it was when it was made.
    pub fn reset(&mut self)
        ensures
            final(self)@ == old(self)@.pristine(),
            old(self)@.well_formed() ==> final(self)@.well_formed(),
    {
        self.last_frame_data = None;
        self.flash_filter.reset();
        self.frame_count = 0;
    }
}


/// The first frame of a run has the score zero, whatever is in it: with no
/// frame before it, a frame that has a feature set is never measured.
pub proof fn lemma_first_frame_scores_zero(conversion: HsvConversion)
    ensures
        frame_score(conversion, None) matches Ok(score) ==> score == FrameScore::Zero,
        frame_score(conversion, None).is_ok() == features(conversion).is_ok(),
        FrameScore::Zero.value() == Some(Float64 { bits: 0 }),
{
}

/// Zero is below every threshold that is greater than zero, so under such a
/// threshold a first frame is no candidate, and a detector that holds no
/// burst back confirms nothing on it.
pub proof fn lemma_first_frame_confirms_nothing(state: DetectorState, frame: u32)
    requires
        state.threshold.spec_is_positive(),
        !state.filter.merge_triggered,
    ensures
        !state.above_threshold(Float64::spec_zero()),
        state.confirmed(Float64::spec_zero(), frame).is_none(),
        state.scored(Float64::spec_zero(), frame) == state,
{
}

/// A reset leaves nothing of the frames seen: the state is that of a
/// detector newly made with the same settings, so the next frame is a first
/// frame again and every later step goes as it would have gone then.
pub proof fn lemma_reset_is_pristine(state: DetectorState, conversion: HsvConversion)
    ensures
        state.pristine() == DetectorState::initial(
            state.threshold,
            state.weights,
            state.filter.min_scene_length,
            state.filter.mode,
        ),
        state.pristine().frame_count == 0,
        state.pristine().retained.is_none(),
        state.pristine().filter == FilterState::initial(
            state.filter.mode,
            state.filter.min_scene_length,
        ),
        state.pristine().pristine() == state.pristine(),
        frame_score(conversion, state.pristine().retained) matches Ok(score) ==> score
            == FrameScore::Zero,
{
}

/// A frame that is measured against one of another size fails, and is
/// still the frame that the next one is measured against.
pub proof fn lemma_retained_whenever_extracted(conversion: HsvConversion, retained: Option<FrameData>)
    ensures
        features(conversion) matches Ok(current) ==> retained_after(conversion, retained) == Some(
            current,
        ),
        features(conversion).is_err() ==> retained_after(conversion, retained) == retained
            && frame_score(conversion, retained).is_err(),
{
}

} // verus!
