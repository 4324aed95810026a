use rust_scenedetect::{
    complete_scene_cuts, scene_start_frames, Float64, FrameTimecode, SceneCut,
};

fn fps_of(x: f64) -> Float64 {
    Float64::from_bits(x.to_bits())
}

#[test]
fn test_complete_scene_cuts() {
    let fps = fps_of(25.0);
    let total_frames = 1000;

    let mut cuts = vec![
        SceneCut::new(FrameTimecode::new(0, fps)),
        SceneCut::new(FrameTimecode::new(250, fps)),
        SceneCut::new(FrameTimecode::new(500, fps)),
    ];

    complete_scene_cuts(&mut cuts, fps, total_frames);

    assert_eq!(cuts[0].end.as_ref().unwrap().frame_number(), 250);
    assert_eq!(cuts[1].end.as_ref().unwrap().frame_number(), 500);
    assert_eq!(cuts[2].end.as_ref().unwrap().frame_number(), 1000);
}

#[test]
fn test_complete_scene_cuts_empty() {
    let mut cuts: Vec<SceneCut> = vec![];
    complete_scene_cuts(&mut cuts, fps_of(25.0), 1000);
    assert!(cuts.is_empty());
}

#[test]
fn test_complete_scene_cuts_empty_with_any_rate() {
    let mut cuts: Vec<SceneCut> = vec![];
    complete_scene_cuts(&mut cuts, fps_of(0.0), 0);
    assert!(cuts.is_empty());
}

#[test]
fn test_complete_scene_cuts_single() {
    let fps = fps_of(30.0);
    let total_frames = 600;

    let mut cuts = vec![SceneCut::new(FrameTimecode::new(100, fps))];

    complete_scene_cuts(&mut cuts, fps, total_frames);

    assert_eq!(cuts[0].end.as_ref().unwrap().frame_number(), 600);
}

#[test]
fn test_complete_scene_cuts_from_three_cuts() {
    let fps = fps_of(25.0);
    let mut cuts = vec![
        SceneCut::new(FrameTimecode::new(100, fps)),
        SceneCut::new(FrameTimecode::new(250, fps)),
        SceneCut::new(FrameTimecode::new(500, fps)),
    ];
    complete_scene_cuts(&mut cuts, fps, 1000);
    let ends: Vec<u32> = cuts.iter().map(|cut| cut.end.unwrap().frame_number()).collect();
    assert_eq!(ends, vec![250, 500, 1000]);
    let starts: Vec<u32> = cuts.iter().map(|cut| cut.start.frame_number()).collect();
    assert_eq!(starts, vec![100, 250, 500]);
    let lengths: Vec<Option<u32>> = cuts.iter().map(|cut| cut.duration_frames()).collect();
    assert_eq!(lengths, vec![Some(150), Some(250), Some(500)]);
}

#[test]
fn test_completed_scenes_are_contiguous() {
    let fps = fps_of(29.97);
    let mut cuts: Vec<SceneCut> =
        [3u32, 40, 41, 900, 4000].iter().map(|f| SceneCut::new(FrameTimecode::new(*f, fps))).collect();
    complete_scene_cuts(&mut cuts, fps, 5000);
    for i in 0..cuts.len() - 1 {
        assert_eq!(cuts[i].end, Some(cuts[i + 1].start));
    }
    assert_eq!(cuts[4].end, Some(FrameTimecode::new(5000, fps)));
}

#[test]
fn test_completed_ends_are_counted_at_the_given_rate() {
    let mut cuts = vec![
        SceneCut::new(FrameTimecode::new(10, fps_of(25.0))),
        SceneCut::new(FrameTimecode::new(20, fps_of(25.0))),
    ];
    complete_scene_cuts(&mut cuts, fps_of(50.0), 30);
    assert_eq!(cuts[0].end, Some(FrameTimecode::new(20, fps_of(50.0))));
    assert_eq!(cuts[1].end, Some(FrameTimecode::new(30, fps_of(50.0))));
    assert_eq!(cuts[0].start, FrameTimecode::new(10, fps_of(25.0)));
}

#[test]
fn test_scene_start_frames() {
    let fps = fps_of(25.0);
    let scenes = vec![
        SceneCut::new(FrameTimecode::new(12, fps)),
        SceneCut::new(FrameTimecode::new(480, fps)),
        SceneCut::new_complete(FrameTimecode::new(900, fps), FrameTimecode::new(950, fps)),
    ];
    assert_eq!(scene_start_frames(&scenes), vec![12, 480, 900]);
    assert_eq!(scene_start_frames(&Vec::new()), Vec::<u32>::new());
}
