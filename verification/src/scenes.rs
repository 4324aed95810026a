//! From confirmed cuts to scenes with a start and an end.

use vstd::prelude::*;
use crate::common::{lemma_timecode_equality, FrameTimecode, SceneCut};
use crate::float64::Float64;

verus! {

/// The frame at which scene `index` of `cuts` ends: where the next scene
/// starts, and for the last scene the end of the video.
pub open spec fn end_frame(cuts: Seq<SceneCut>, index: int, total_frames: u32) -> u32 {
    if index + 1 < cuts.len() {
        cuts[index + 1].start.frame_number()
    } else {
        total_frames
    }
}

/// Whether `after` is `before` with every end filled in: the starts are
/// kept, and each scene ends at its [`end_frame`], counted at `fps`.
pub open spec fn completed(
    before: Seq<SceneCut>,
    after: Seq<SceneCut>,
    fps: Float64,
    total_frames: u32,
) -> bool {
    &&& after.len() == before.len()
    &&& forall|i: int|
        0 <= i < before.len() ==> {
            &&& (#[trigger] after[i]).start == before[i].start
            &&& after[i].end matches Some(end)
            &&& end.frame_number() == end_frame(before, i, total_frames)
            &&& end.fps() == fps
        }
}

/// Gives every scene its end: the start of the scene after it, and for the
/// last scene frame `total_frames`. An empty list stays empty.
pub fn complete_scene_cuts(cuts: &mut Vec<SceneCut>, fps: Float64, total_frames: u32)
    requires
        old(cuts)@.len() > 0 ==> fps.is_positive(),
    ensures
        completed(old(cuts)@, final(cuts)@, fps, total_frames),
{
    if cuts.len() == 0 {
        return ;
    }
    let last: usize = cuts.len() - 1;
    let mut i: usize = 0;
    while i < last
        invariant
            fps.is_positive(),
            last + 1 == cuts@.len(),
            cuts@.len() == old(cuts)@.len(),
            i <= last,
            forall|j: int| 0 <= j < cuts@.len() ==> (#[trigger] cuts@[j]).start == old(cuts)@[j].start,
            forall|j: int|
                0 <= j < i ==> {
                    &&& (#[trigger] cuts@[j]).end matches Some(end)
                    &&& end.frame_number() == end_frame(old(cuts)@, j, total_frames)
                    &&& end.fps() == fps
                },
        decreases last - i,
    {
        let next_start_frame: u32 = cuts[i + 1].start.frame_number();
        let start: FrameTimecode = cuts[i].start;
        cuts.set(i, SceneCut { start, end: Some(FrameTimecode::new(next_start_frame, fps)) });
        i = i + 1;
    }
    let start: FrameTimecode = cuts[last].start;
    cuts.set(last, SceneCut { start, end: Some(FrameTimecode::new(total_frames, fps)) });
}

/// The frame at which each scene starts, in the order of the scenes.
pub open spec fn start_frames(scenes: Seq<SceneCut>) -> Seq<u32> {
    Seq::new(scenes.len(), |i: int| scenes[i].start.frame_number())
}

/// The frame at which each scene starts, in the order of the scenes.
pub fn scene_start_frames(scenes: &Vec<SceneCut>) -> (frames: Vec<u32>)
    ensures
        frames@ == start_frames(scenes@),
{
    let mut frames: Vec<u32> = Vec::new();
    let mut i: usize = 0;
    while i < scenes.len()
        invariant
            i <= scenes@.len(),
            frames@ == start_frames(scenes@.take(i as int)),
        decreases scenes@.len() - i,
    {
        frames.push(scenes[i].start.frame_number());
        i = i + 1;
        assert(frames@ == start_frames(scenes@.take(i as int)));
    }
    assert(scenes@.take(scenes@.len() as int) == scenes@);
    frames
}

/// Completed scenes tile the video: where every cut was counted at `fps`,
/// each scene ends exactly where the next one starts.
pub proof fn lemma_completed_scenes_are_contiguous(
    before: Seq<SceneCut>,
    after: Seq<SceneCut>,
    fps: Float64,
    total_frames: u32,
)
    requires
        completed(before, after, fps, total_frames),
        forall|i: int| 0 <= i < before.len() ==> (#[trigger] before[i]).start.fps() == fps,
    ensures
        forall|i: int|
            0 <= i < after.len() - 1 ==> (#[trigger] after[i]).end == Some(after[i + 1].start),
{
    assert forall|i: int| 0 <= i < after.len() - 1 implies (#[trigger] after[i]).end == Some(
        after[i + 1].start,
    ) by {
        let end = after[i].end.unwrap();
        assert(after[i + 1].start == before[i + 1].start);
        lemma_timecode_equality(end, after[i + 1].start);
    }
}

/// Where the cuts were counted at `fps`, lie at increasing frames and the
/// video ends after the last of them, every completed scene is bounded
/// correctly and its length is the distance to the next start.
pub proof fn lemma_completed_scenes_are_well_formed(
    before: Seq<SceneCut>,
    after: Seq<SceneCut>,
    fps: Float64,
    total_frames: u32,
)
    requires
        completed(before, after, fps, total_frames),
        forall|i: int| 0 <= i < before.len() ==> (#[trigger] before[i]).start.fps() == fps,
        forall|i: int, j: int|
            0 <= i < j < before.len() ==> (#[trigger] before[i]).start.frame_number() < (
            #[trigger] before[j]).start.frame_number(),
        before.len() > 0 ==> before.last().start.frame_number() < total_frames,
    ensures
        forall|i: int|
            0 <= i < after.len() ==> (#[trigger] after[i]).well_formed() && after[i].duration_frames()
                == Some((end_frame(before, i, total_frames) - before[i].start.frame_number()) as u32),
{
    assert forall|i: int| 0 <= i < after.len() implies (#[trigger] after[i]).well_formed()
        && after[i].duration_frames() == Some(
        (end_frame(before, i, total_frames) - before[i].start.frame_number()) as u32,
    ) by {
        assert(after[i].start == before[i].start);
        if i + 1 < before.len() {
            assert(before[i].start.frame_number() < before[i + 1].start.frame_number());
        }
    }
}

} // verus!
