//! One run of a detector over one video: the detector, and the scenes that
//! its confirmed cuts have opened so far.
//!
//! The frames come from outside. For each of them the caller hands the run
//! what the frame's conversion gave, works out the score where the run asks
//! for one, and at the end of the video lets the run close the scenes.

use vstd::prelude::*;
use crate::common::{FrameTimecode, SceneCut, SceneDetectError};
use crate::content_detector::{
    ContentDetector,
    DetectorState,
    FrameInput,
    FrameOutcome,
    FrameProgress,
};
use crate::flash_filter::FilterMode;
use crate::float64::Float64;
use crate::frame_data::ChannelDeltas;
use crate::scenes::{
    complete_scene_cuts,
    completed,
    end_frame,
    lemma_completed_scenes_are_well_formed,
};

verus! {

/// What a [`Detection`] is made of.
pub struct DetectionState {
    pub detector: DetectorState,
    /// The scenes opened so far, in the order of their cuts. None has an
    /// end yet.
    pub cuts: Seq<SceneCut>,
}

impl DetectionState {
    /// Whether the run is in suppress mode and the scenes opened so far keep
    /// their distance: each starts at least the minimum scene length after
    /// the one before it, and the filter's last cut is the start of the last
    /// scene.
    pub open spec fn scenes_spaced(self) -> bool {
        &&& self.detector.filter.mode == FilterMode::Suppress
        &&& self.detector.filter.well_formed()
        &&& match self.detector.filter.last_cut_frame {
            None => self.cuts.len() == 0,
            Some(last) => self.cuts.len() > 0 && self.cuts.last().start.frame_number() == last,
        }
        &&& forall|i: int, j: int|
            0 <= i < j < self.cuts.len() ==> (#[trigger] self.cuts[j]).start.frame_number() - (
            #[trigger] self.cuts[i]).start.frame_number() >= self.detector.filter.min_scene_length
    }
}

/// Whether `after` is `before` with the scene that the confirmed cut `cut`
/// opens: nothing new where there is no cut, and else one more scene, which
/// starts at that frame, counted at `fps`, and has no end.
pub open spec fn cuts_extended(
    before: Seq<SceneCut>,
    after: Seq<SceneCut>,
    cut: Option<u32>,
    fps: Float64,
) -> bool {
    match cut {
        None => after == before,
        Some(frame) => {
            &&& after.len() == before.len() + 1
            &&& after.drop_last() == before
            &&& after.last().start.frame_number() == frame
            &&& after.last().start.fps() == fps
            &&& after.last().end.is_none()
        },
    }
}

/// A run of a detector over one video.
#[derive(Debug)]
pub struct Detection {
    detector: ContentDetector,
    cuts: Vec<SceneCut>,
}

impl View for Detection {
    type V = DetectionState;

    closed spec fn view(&self) -> DetectionState {
        DetectionState { detector: self.detector@, cuts: self.cuts@ }
    }
}

impl Detection {
    /// Starts a run. The detector is reset first: what it saw of another
    /// video does not count here.
    pub fn new(detector: ContentDetector) -> (run: Detection)
        ensures
            run@.detector == detector@.pristine(),
            run@.cuts.len() == 0,
            detector@.well_formed() ==> run@.detector.well_formed(),
    {
        let mut detector = detector;
        detector.reset();
        Detection { detector, cuts: Vec::new() }
    }

    /// Takes the next frame of the video. Where the frame is decided at
    /// once, the scene that it opens is recorded and `None` comes back;
    /// where its score is needed, the distances to work it out from come
    /// back, and the score goes to [`Detection::apply_score`].
    pub fn process_frame(&mut self, frame: FrameInput, timecode: FrameTimecode) -> (result: Result<
        Option<ChannelDeltas>,
        SceneDetectError,
    >)
        requires
            old(self)@.detector.frame_count < u32::MAX,
        ensures
            final(self)@.detector == old(self)@.detector.after_frame(
                frame,
                timecode.frame_number(),
            ),
            match old(self)@.detector.outcome(frame, timecode.frame_number()) {
                FrameOutcome::Failed { reason } => {
                    &&& result matches Err(error) && error.is_frame_error(
                        timecode.frame_number(),
                        reason,
                    )
                    &&& final(self)@.cuts == old(self)@.cuts
                },
                FrameOutcome::Decided { cut } => {
                    &&& result matches Ok(None)
                    &&& cuts_extended(old(self)@.cuts, final(self)@.cuts, cut, timecode.fps())
                },
                FrameOutcome::NeedsScore { deltas } => {
                    &&& result matches Ok(Some(needed)) && needed == deltas
                    &&& final(self)@.cuts == old(self)@.cuts
                },
            },
    {
        match self.detector.process_frame(frame, timecode) {
            Err(error) => Err(error),
            Ok(FrameProgress::Decided(cut)) => {
                self.record(cut);
                Ok(None)
            },
            Ok(FrameProgress::NeedsScore(deltas)) => Ok(Some(deltas)),
        }
    }

    /// Decides the frame at `timecode` by its score, and records the scene
    /// that it opens, if it confirms a cut.
    pub fn apply_score(&mut self, score: Float64, timecode: FrameTimecode)
        ensures
            final(self)@.detector == old(self)@.detector.scored(score, timecode.frame_number()),
            cuts_extended(
                old(self)@.cuts,
                final(self)@.cuts,
                old(self)@.detector.confirmed(score, timecode.frame_number()),
                timecode.fps(),
            ),
    {
        let cut: Option<FrameTimecode> = self.detector.apply_score(score, timecode);
        self.record(cut);
    }

    /// Opens a scene at `cut`, if there is one.
    fn record(&mut self, cut: Option<FrameTimecode>)
        ensures
            final(self)@.detector == old(self)@.detector,
            match cut {
                None => final(self)@.cuts == old(self)@.cuts,
                Some(timecode) => {
                    &&& final(self)@.cuts.len() == old(self)@.cuts.len() + 1
                    &&& final(self)@.cuts.drop_last() == old(self)@.cuts
                    &&& final(self)@.cuts.last() == (SceneCut { start: timecode, end: None })
                },
            },
    {
        if let Some(cut_timecode) = cut {
            self.cuts.push(SceneCut::new(cut_timecode));
            assert(self.cuts@.drop_last() =~= old(self)@.cuts);
        }
    }

    /// The detector of the run.
    pub fn detector(&self) -> (detector: &ContentDetector)
        ensures
            detector@ == self@.detector,
    {
        &self.detector
    }

    /// The scenes opened so far.
    pub fn cuts(&self) -> (cuts: &Vec<SceneCut>)
        ensures
            cuts@ == self@.cuts,
    {
        &self.cuts
    }

    /// Ends the run on a video of `total_frames` frames at `fps` frames per
    /// second: every scene gets its end.
    pub fn finish(self, fps: Float64, total_frames: u32) -> (scenes: Vec<SceneCut>)
        requires
            self@.cuts.len() > 0 ==> fps.is_positive(),
        ensures
            completed(self@.cuts, scenes@, fps, total_frames),
    {
        let mut scenes: Vec<SceneCut> = self.cuts;
        complete_scene_cuts(&mut scenes, fps, total_frames);
        scenes
    }
}

/// A run in suppress mode that has just begun keeps the distance: it has no
/// scenes yet.
pub proof fn lemma_new_run_is_spaced(state: DetectionState)
    requires
        state.detector.filter.mode == FilterMode::Suppress,
        state.detector.filter.min_scene_length > 0,
        state.detector == state.detector.pristine(),
        state.cuts.len() == 0,
    ensures
        state.scenes_spaced(),
{
}

/// Scoring a frame keeps the distance: in suppress mode a cut is confirmed
/// only at least the minimum scene length after the last one.
pub proof fn lemma_scored_frame_keeps_spacing(
    before: DetectionState,
    after: DetectionState,
    score: Float64,
    frame: u32,
    fps: Float64,
)
    requires
        before.scenes_spaced(),
        after.detector == before.detector.scored(score, frame),
        cuts_extended(before.cuts, after.cuts, before.detector.confirmed(score, frame), fps),
    ensures
        after.scenes_spaced(),
{
    match before.detector.confirmed(score, frame) {
        None => {},
        Some(cut) => {
            assert(cut == frame);
            assert forall|i: int, j: int| 0 <= i < j < after.cuts.len() implies (
            #[trigger] after.cuts[j]).start.frame_number() - (
            #[trigger] after.cuts[i]).start.frame_number()
                >= after.detector.filter.min_scene_length by {
                assert(after.cuts.drop_last()[i] == after.cuts[i]);
                if j < before.cuts.len() {
                    assert(after.cuts.drop_last()[j] == after.cuts[j]);
                } else if i < before.cuts.len() - 1 {
                    let last = before.cuts.len() - 1;
                    assert(before.cuts[last].start.frame_number() - before.cuts[i].start.frame_number()
                        >= 0);
                }
            }
        },
    }
}

/// Taking a frame keeps the distance, whatever the frame is and whatever
/// comes of it.
pub proof fn lemma_frame_keeps_spacing(
    before: DetectionState,
    after: DetectionState,
    frame: FrameInput,
    number: u32,
    fps: Float64,
)
    requires
        before.scenes_spaced(),
        after.detector == before.detector.after_frame(frame, number),
        match before.detector.outcome(frame, number) {
            FrameOutcome::Decided { cut } => cuts_extended(before.cuts, after.cuts, cut, fps),
            _ => after.cuts == before.cuts,
        },
    ensures
        after.scenes_spaced(),
{
    match before.detector.outcome(frame, number) {
        FrameOutcome::Decided { cut } => {
            let counted = DetectionState {
                detector: DetectorState {
                    frame_count: after.detector.frame_count,
                    retained: after.detector.retained,
                    ..before.detector
                },
                cuts: before.cuts,
            };
            lemma_scored_frame_keeps_spacing(counted, after, Float64::spec_zero(), number, fps);
        },
        _ => {},
    }
}

/// The scenes of a run in suppress mode, once completed, are bounded
/// correctly, and every scene but the last is at least the minimum scene
/// length long, where all cuts were counted at the video's frame rate and
/// the video ends after the last cut.
pub proof fn lemma_spaced_scenes_have_minimum_length(
    state: DetectionState,
    scenes: Seq<SceneCut>,
    fps: Float64,
    total_frames: u32,
)
    requires
        state.scenes_spaced(),
        completed(state.cuts, scenes, fps, total_frames),
        forall|i: int| 0 <= i < state.cuts.len() ==> (#[trigger] state.cuts[i]).start.fps() == fps,
        state.cuts.len() > 0 ==> state.cuts.last().start.frame_number() < total_frames,
    ensures
        forall|i: int| 0 <= i < scenes.len() ==> (#[trigger] scenes[i]).well_formed(),
        forall|i: int|
            0 <= i < scenes.len() - 1 ==> ((#[trigger] scenes[i]).duration_frames() matches Some(
                frames,
            ) && frames >= state.detector.filter.min_scene_length),
{
    assert forall|i: int, j: int| 0 <= i < j < state.cuts.len() implies (
    #[trigger] state.cuts[i]).start.frame_number() < (
    #[trigger] state.cuts[j]).start.frame_number() by {
        assert(state.cuts[j].start.frame_number() - state.cuts[i].start.frame_number()
            >= state.detector.filter.min_scene_length);
    }
    lemma_completed_scenes_are_well_formed(state.cuts, scenes, fps, total_frames);
    assert forall|i: int| 0 <= i < scenes.len() - 1 implies ((
    #[trigger] scenes[i]).duration_frames() matches Some(frames) && frames
        >= state.detector.filter.min_scene_length) by {
        assert(end_frame(state.cuts, i, total_frames) == state.cuts[i + 1].start.frame_number());
        assert(state.cuts[i + 1].start.frame_number() - state.cuts[i].start.frame_number()
            >= state.detector.filter.min_scene_length);
    }
}

} // verus!
