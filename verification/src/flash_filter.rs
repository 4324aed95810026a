//! The cut filter: turns "this frame is above the threshold" into confirmed
//! cuts that respect a minimum scene length.

use vstd::prelude::*;
use crate::common::{lemma_timecode_equality, FrameTimecode};
use crate::float64::Float64;

verus! {

/// How candidate cuts that come too soon after a cut are treated.
#[derive(Clone, Copy, Debug, PartialEq, Eq, Structural)]
pub enum FilterMode {
    /// A burst of candidates is held back and confirmed as one cut at its
    /// last frame, once the burst is over.
    Merge,
    /// Candidates are dropped until the minimum scene length has passed.
    Suppress,
}

impl Default for FilterMode {
    fn default() -> (mode: FilterMode)
        ensures
            mode == FilterMode::Suppress,
    {
        FilterMode::Suppress
    }
}

/// The number of frames from `earlier` to `later`, and zero where `later`
/// is not after `earlier`.
pub open spec fn frames_between(earlier: u32, later: u32) -> int {
    if later >= earlier {
        later - earlier
    } else {
        0
    }
}

/// What a [`FlashFilter`] remembers.
pub struct FilterState {
    pub mode: FilterMode,
    pub min_scene_length: u32,
    /// The frame of the last confirmed cut.
    pub last_cut_frame: Option<u32>,
    /// The last frame that was above the threshold.
    pub last_above_threshold: Option<u32>,
    /// Whether a burst is being held back.
    pub merge_triggered: bool,
    /// The first frame of the burst that is being held back.
    pub merge_start_frame: Option<u32>,
}

impl FilterState {
    /// The state before any frame.
    pub open spec fn initial(mode: FilterMode, min_scene_length: u32) -> FilterState {
        FilterState {
            mode,
            min_scene_length,
            last_cut_frame: None,
            last_above_threshold: None,
            merge_triggered: false,
            merge_start_frame: None,
        }
    }

    /// The minimum scene length is positive; a burst is held back only in
    /// merge mode and only after a cut, and has a first frame; and a cut was
    /// confirmed only after some frame was above the threshold.
    pub open spec fn well_formed(self) -> bool {
        &&& self.min_scene_length > 0
        &&& self.merge_triggered ==> self.mode == FilterMode::Merge
            && self.merge_start_frame.is_some() && self.last_cut_frame.is_some()
        &&& self.last_cut_frame.is_some() ==> self.last_above_threshold.is_some()
    }

    /// Whether a scene that ends at `frame` would be long enough: there is
    /// no cut yet, or the last one is at least the minimum scene length back.
    pub open spec fn far_from_last_cut(self, frame: u32) -> bool {
        match self.last_cut_frame {
            None => true,
            Some(last) => frames_between(last, frame) >= self.min_scene_length,
        }
    }

    /// Whether a frame below the threshold ends the burst that is held
    /// back: the last frame above the threshold is at least the minimum
    /// scene length back.
    pub open spec fn closes_merge(self, frame: u32, above_threshold: bool) -> bool {
        &&& self.mode == FilterMode::Merge
        &&& self.merge_triggered
        &&& !above_threshold
        &&& self.last_above_threshold matches Some(last_above)
        &&& frames_between(last_above, frame) >= self.min_scene_length
    }

    /// The cut that the burst held back amounts to: its last frame, where the
    /// burst spans at least the minimum scene length, and none otherwise.
    pub open spec fn merged_cut(self) -> Option<u32> {
        match (self.last_above_threshold, self.merge_start_frame) {
            (Some(last_above), Some(merge_start)) => if frames_between(merge_start, last_above)
                >= self.min_scene_length {
                Some(last_above)
            } else {
                None
            },
            _ => None,
        }
    }

    /// The frame of the cut that the step on `frame` confirms, if any.
    pub open spec fn emitted(self, frame: u32, above_threshold: bool) -> Option<u32> {
        if self.closes_merge(frame, above_threshold) {
            self.merged_cut()
        } else if above_threshold && self.far_from_last_cut(frame) {
            Some(frame)
        } else {
            None
        }
    }

    /// Whether the step on `frame` starts to hold a burst back: in merge mode,
    /// on a frame above the threshold that comes too soon after the last cut,
    /// while no burst is held back yet.
    pub open spec fn opens_merge(self, frame: u32, above_threshold: bool) -> bool {
        &&& self.mode == FilterMode::Merge
        &&& above_threshold
        &&& !self.far_from_last_cut(frame)
        &&& !self.merge_triggered
    }

    /// The state after the step on `frame`.
    pub open spec fn next(self, frame: u32, above_threshold: bool) -> FilterState {
        FilterState {
            mode: self.mode,
            min_scene_length: self.min_scene_length,
            last_cut_frame: match self.emitted(frame, above_threshold) {
                Some(cut) => Some(cut),
                None => self.last_cut_frame,
            },
            last_above_threshold: if above_threshold {
                Some(frame)
            } else {
                self.last_above_threshold
            },
            merge_triggered: if self.closes_merge(frame, above_threshold) {
                false
            } else if self.opens_merge(frame, above_threshold) {
                true
            } else {
                self.merge_triggered
            },
            merge_start_frame: if self.closes_merge(frame, above_threshold) {
                None
            } else if self.opens_merge(frame, above_threshold) {
                Some(frame)
            } else {
                self.merge_start_frame
            },
        }
    }
}

/// Whether `cuts` is what a step hands out for the confirmed cut `emitted`:
/// nothing, or the one timecode at that frame and at the rate `fps`.
pub open spec fn cuts_match(
    cuts: Seq<FrameTimecode>,
    emitted: Option<u32>,
    fps: Float64,
) -> bool {
    match emitted {
        None => cuts.len() == 0,
        Some(frame) => cuts.len() == 1 && cuts[0].frame_number() == frame && cuts[0].fps() == fps,
    }
}

/// Confirms candidate cuts so that scenes keep a minimum length.
#[derive(Debug)]
pub struct FlashFilter {
    mode: FilterMode,
    min_scene_length: u32,
    last_cut_frame: Option<u32>,
    last_above_threshold: Option<u32>,
    merge_triggered: bool,
    merge_start_frame: Option<u32>,
}

impl View for FlashFilter {
    type V = FilterState;

    closed spec fn view(&self) -> FilterState {
        FilterState {
            mode: self.mode,
            min_scene_length: self.min_scene_length,
            last_cut_frame: self.last_cut_frame,
            last_above_threshold: self.last_above_threshold,
            merge_triggered: self.merge_triggered,
            merge_start_frame: self.merge_start_frame,
        }
    }
}

/// `later - earlier`, held at zero.
fn elapsed(earlier: u32, later: u32) -> (frames: u32)
    ensures
        frames == frames_between(earlier, later),
{
    if later >= earlier {
        later - earlier
    } else {
        0
    }
}

impl FlashFilter {
    #[verifier::type_invariant]
    spec fn state_well_formed(self) -> bool {
        self@.well_formed()
    }

    /// A filter in suppress mode.
    pub fn new(min_scene_length: u32) -> (filter: FlashFilter)
        requires
            min_scene_length > 0,
        ensures
            filter@ == FilterState::initial(FilterMode::Suppress, min_scene_length),
    {
        FlashFilter::new_with_mode(FilterMode::default(), min_scene_length)
    }

    /// A filter in the given mode.
    pub fn new_with_mode(mode: FilterMode, min_scene_length: u32) -> (filter: FlashFilter)
        requires
            min_scene_length > 0,
        ensures
            filter@ == FilterState::initial(mode, min_scene_length),
    {
        FlashFilter {
            mode,
            min_scene_length,
            last_cut_frame: None,
            last_above_threshold: None,
            merge_triggered: false,
            merge_start_frame: None,
        }
    }

    /// Takes the verdict on one frame and hands out the cut that it
    /// confirms, if any.
    pub fn filter(&mut self, timecode: FrameTimecode, above_threshold: bool) -> (cuts: Vec<
        FrameTimecode,
    >)
        ensures
            final(self)@ == old(self)@.next(timecode.frame_number(), above_threshold),
            cuts_match(
                cuts@,
                old(self)@.emitted(timecode.frame_number(), above_threshold),
                timecode.fps(),
            ),
            final(self)@.well_formed(),
            // Suppress mode confirms nothing on a frame below the threshold.
            old(self)@.mode == FilterMode::Suppress && !above_threshold ==> cuts@.len() == 0,
            // The first frame above the threshold is confirmed at once, in
            // either mode.
            above_threshold && old(self)@.last_cut_frame.is_none() ==> cuts@.len() == 1 && cuts@[0]
                == timecode,
    {
        proof {
            use_type_invariant(&*self);
        }
        let current_frame: u32 = timecode.frame_number();
        if above_threshold {
            self.last_above_threshold = Some(current_frame);
        }
        let cuts = match self.mode {
            FilterMode::Suppress => self.filter_suppress(timecode, above_threshold),
            FilterMode::Merge => self.filter_merge(timecode, above_threshold),
        };
        proof {
            if cuts@.len() == 1 && cuts@[0].frame_number() == timecode.frame_number() {
                lemma_timecode_equality(cuts@[0], timecode);
            }
        }
        cuts
    }

    fn filter_suppress(&mut self, timecode: FrameTimecode, above_threshold: bool) -> (cuts: Vec<
        FrameTimecode,
    >)
        requires
            old(self)@.mode == FilterMode::Suppress,
            above_threshold ==> old(self)@.last_above_threshold == Some(timecode.frame_number()),
        ensures
            final(self)@ == old(self)@.next(timecode.frame_number(), above_threshold),
            cuts_match(
                cuts@,
                old(self)@.emitted(timecode.frame_number(), above_threshold),
                timecode.fps(),
            ),
    {
        proof {
            use_type_invariant(&*self);
        }
        if !above_threshold {
            return Vec::new();
        }
        let current_frame: u32 = timecode.frame_number();
        if let Some(last_frame) = self.last_cut_frame {
            let frames_since_last: u32 = elapsed(last_frame, current_frame);
            if frames_since_last < self.min_scene_length {
                return Vec::new();
            }
        }
        self.last_cut_frame = Some(current_frame);
        let mut cuts: Vec<FrameTimecode> = Vec::new();
        cuts.push(timecode);
        cuts
    }

    fn filter_merge(&mut self, timecode: FrameTimecode, above_threshold: bool) -> (cuts: Vec<
        FrameTimecode,
    >)
        requires
            old(self)@.mode == FilterMode::Merge,
            above_threshold ==> old(self)@.last_above_threshold == Some(timecode.frame_number()),
        ensures
            final(self)@ == old(self)@.next(timecode.frame_number(), above_threshold),
            cuts_match(
                cuts@,
                old(self)@.emitted(timecode.frame_number(), above_threshold),
                timecode.fps(),
            ),
    {
        proof {
            use_type_invariant(&*self);
        }
        let current_frame: u32 = timecode.frame_number();
        if let Some(last_above) = self.last_above_threshold {
            let frames_since_above: u32 = elapsed(last_above, current_frame);
            if self.merge_triggered && !above_threshold && frames_since_above
                >= self.min_scene_length {
                // The burst is over.
                self.merge_triggered = false;
                let merge_start = self.merge_start_frame;
                self.merge_start_frame = None;
                if let Some(merge_start) = merge_start {
                    let merge_duration: u32 = elapsed(merge_start, last_above);
                    if merge_duration >= self.min_scene_length {
                        self.last_cut_frame = Some(last_above);
                        let mut cuts: Vec<FrameTimecode> = Vec::new();
                        cuts.push(FrameTimecode::new(last_above, timecode.fps()));
                        return cuts;
                    }
                }
                return Vec::new();
            }
        }
        if !above_threshold {
            return Vec::new();
        }
        if let Some(last_frame) = self.last_cut_frame {
            let frames_since_last: u32 = elapsed(last_frame, current_frame);
            if frames_since_last >= self.min_scene_length {
                self.last_cut_frame = Some(current_frame);
                let mut cuts: Vec<FrameTimecode> = Vec::new();
                cuts.push(timecode);
                return cuts;
            } else if !self.merge_triggered {
                self.merge_start_frame = Some(current_frame);
                self.merge_triggered = true;
            }
            Vec::new()
        } else {
            self.last_cut_frame = Some(current_frame);
            let mut cuts: Vec<FrameTimecode> = Vec::new();
            cuts.push(timecode);
            cuts
        }
    }

    /// The minimum number of frames between two cuts.
    pub fn min_scene_length(&self) -> (frames: u32)
        ensures
            frames == self@.min_scene_length,
            frames > 0,
    {
        proof {
            use_type_invariant(self);
        }
        self.min_scene_length
    }

    pub fn mode(&self) -> (mode: FilterMode)
        ensures
            mode == self@.mode,
    {
        self.mode
    }

    /// The frame of the last confirmed cut.
    pub fn last_cut_frame(&self) -> (frame: Option<u32>)
        ensures
            frame == self@.last_cut_frame,
    {
        self.last_cut_frame
    }

    /// Forgets every frame seen: the filter is as it was when it was made.
    pub fn reset(&mut self)
        ensures
            final(self)@ == FilterState::initial(old(self)@.mode, old(self)@.min_scene_length),
            final(self)@.well_formed(),
    {
        proof {
            use_type_invariant(&*self);
        }
        self.merge_triggered = false;
        self.merge_start_frame = None;
        self.last_cut_frame = None;
        self.last_above_threshold = None;
    }
}

/// The distance between two frames is never negative: where the later frame
/// is in fact the earlier one, it is zero, however far apart the two are. So
/// a frame that is not at least the minimum scene length after the last cut
/// is not far enough from it, and confirms no cut when it is above the
/// threshold; this holds of a frame at or before the last cut too.
pub proof fn lemma_frames_between_saturates(state: FilterState, frame: u32)
    requires
        state.well_formed(),
        state.last_cut_frame matches Some(last) && frame - last < state.min_scene_length,
    ensures
        forall|earlier: u32, later: u32| 0 <= #[trigger] frames_between(earlier, later) <= later,
        !state.far_from_last_cut(frame),
        state.emitted(frame, true).is_none(),
        state.next(frame, true).last_cut_frame == state.last_cut_frame,
{
}

/// In suppress mode a cut is confirmed exactly on a frame above the
/// threshold that is far enough from the last cut, and the confirmed cut is
/// that frame; nothing but the two frame memories changes.
pub proof fn lemma_suppress_step(state: FilterState, frame: u32, above_threshold: bool)
    requires
        state.mode == FilterMode::Suppress,
    ensures
        state.emitted(frame, above_threshold) == if above_threshold && state.far_from_last_cut(
            frame,
        ) {
            Some(frame)
        } else {
            None
        },
        !above_threshold ==> state.next(frame, above_threshold) == state,
        state.next(frame, above_threshold).merge_triggered == state.merge_triggered,
        state.next(frame, above_threshold).merge_start_frame == state.merge_start_frame,
{
}

/// The first frame above the threshold that a filter sees is confirmed at
/// once, whatever the mode.
pub proof fn lemma_first_candidate_confirms(state: FilterState, frame: u32)
    requires
        state.well_formed(),
        state.last_above_threshold.is_none(),
    ensures
        state.emitted(frame, true) == Some(frame),
        state.next(frame, true).last_cut_frame == Some(frame),
{
}

/// A step keeps the state well formed, and never changes the mode or the
/// minimum scene length.
pub proof fn lemma_step_preserves_well_formed(state: FilterState, frame: u32, above_threshold: bool)
    requires
        state.well_formed(),
    ensures
        state.next(frame, above_threshold).well_formed(),
        state.next(frame, above_threshold).mode == state.mode,
        state.next(frame, above_threshold).min_scene_length == state.min_scene_length,
{
}

/// A cut that is confirmed on the frame that is being looked at lies at
/// least the minimum scene length after the cut before it. (A merged cut
/// lies at an earlier frame, and is not bound by this.)
pub proof fn lemma_confirmed_cut_is_far_enough(state: FilterState, frame: u32, above_threshold: bool)
    requires
        state.well_formed(),
        state.emitted(frame, above_threshold) == Some(frame),
        above_threshold,
    ensures
        state.last_cut_frame matches Some(last) ==> frame - last >= state.min_scene_length,
{
}

/// In merge mode a frame below the threshold confirms a cut only by ending
/// the burst that is held back, and the cut is then the last frame that was
/// above the threshold, not the frame that is being looked at.
pub proof fn lemma_merge_emits_last_candidate(state: FilterState, frame: u32)
    requires
        state.well_formed(),
        state.mode == FilterMode::Merge,
        state.emitted(frame, false).is_some(),
    ensures
        state.merge_triggered,
        state.emitted(frame, false) == state.last_above_threshold,
        state.last_above_threshold matches Some(last_above) && state.merge_start_frame matches Some(
            merge_start,
        ) && frame - last_above >= state.min_scene_length && last_above - merge_start
            >= state.min_scene_length,
        !state.next(frame, false).merge_triggered,
        state.next(frame, false).merge_start_frame.is_none(),
{
}

/// The steps of merge mode, one case after the other.
///
/// A frame above the threshold that is far enough from the last cut is
/// confirmed at once, whether or not a burst is held back. One that is too
/// close opens a burst where none is held back, and else only prolongs the
/// one that is. A frame below the threshold ends the burst that is held back
/// once the last frame above the threshold is the minimum scene length back:
/// the burst is then confirmed at that last frame where it spans the minimum
/// scene length, and dropped where it does not. Any other frame below the
/// threshold changes nothing.
pub proof fn lemma_merge_step(state: FilterState, frame: u32, above_threshold: bool)
    requires
        state.well_formed(),
        state.mode == FilterMode::Merge,
    ensures
        above_threshold && state.far_from_last_cut(frame) ==> {
            &&& state.emitted(frame, above_threshold) == Some(frame)
            &&& state.next(frame, above_threshold).merge_triggered == state.merge_triggered
        },
        above_threshold && !state.far_from_last_cut(frame) ==> {
            &&& state.emitted(frame, above_threshold).is_none()
            &&& state.next(frame, above_threshold).merge_triggered
            &&& state.next(frame, above_threshold).last_cut_frame == state.last_cut_frame
            &&& state.next(frame, above_threshold).merge_start_frame == if state.merge_triggered {
                state.merge_start_frame
            } else {
                Some(frame)
            }
        },
        !above_threshold && state.merge_triggered ==> {
            let last_above = state.last_above_threshold.unwrap();
            let merge_start = state.merge_start_frame.unwrap();
            if frames_between(last_above, frame) >= state.min_scene_length {
                &&& !state.next(frame, above_threshold).merge_triggered
                &&& state.next(frame, above_threshold).merge_start_frame.is_none()
                &&& state.emitted(frame, above_threshold) == if frames_between(
                    merge_start,
                    last_above,
                ) >= state.min_scene_length {
                    Some(last_above)
                } else {
                    None
                }
            } else {
                &&& state.emitted(frame, above_threshold).is_none()
                &&& state.next(frame, above_threshold) == state
            }
        },
        !above_threshold && !state.merge_triggered ==> {
            &&& state.emitted(frame, above_threshold).is_none()
            &&& state.next(frame, above_threshold) == state
        },
{
}

} // verus!
