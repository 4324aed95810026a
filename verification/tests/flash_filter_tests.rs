use rust_scenedetect::{FilterMode, FlashFilter, Float64, FrameTimecode};

fn create_timecode(frame: u32) -> FrameTimecode {
    FrameTimecode::new(frame, Float64::from_bits(25.0f64.to_bits()))
}

#[test]
fn test_flash_filter_creation() {
    let filter = FlashFilter::new(15);
    assert_eq!(filter.min_scene_length(), 15);
    assert_eq!(filter.mode(), FilterMode::Suppress);
    assert_eq!(filter.last_cut_frame(), None);

    let filter_merge = FlashFilter::new_with_mode(FilterMode::Merge, 10);
    assert_eq!(filter_merge.mode(), FilterMode::Merge);
    assert_eq!(filter_merge.min_scene_length(), 10);
}

#[test]
fn test_filter_mode_default_is_suppress() {
    assert_eq!(FilterMode::default(), FilterMode::Suppress);
}

#[test]
fn test_suppress_mode_basic() {
    let mut filter = FlashFilter::new(10);

    let cuts = filter.filter(create_timecode(100), true);
    assert_eq!(cuts.len(), 1);
    assert_eq!(cuts[0].frame_number(), 100);

    let cuts = filter.filter(create_timecode(105), true);
    assert_eq!(cuts.len(), 0);

    let cuts = filter.filter(create_timecode(115), true);
    assert_eq!(cuts.len(), 1);
    assert_eq!(cuts[0].frame_number(), 115);
}

#[test]
fn test_suppress_mode_below_threshold() {
    let mut filter = FlashFilter::new(10);

    let cuts = filter.filter(create_timecode(100), false);
    assert_eq!(cuts.len(), 0);

    let cuts = filter.filter(create_timecode(110), false);
    assert_eq!(cuts.len(), 0);
}

#[test]
fn test_suppress_mode_never_emits_below_threshold() {
    let mut filter = FlashFilter::new(10);
    assert_eq!(filter.filter(create_timecode(5), true).len(), 1);
    for frame in [6, 14, 15, 16, 100, 10_000, u32::MAX] {
        assert_eq!(filter.filter(create_timecode(frame), false).len(), 0);
        assert_eq!(filter.last_cut_frame(), Some(5));
    }
}

#[test]
fn test_suppress_mode_gap_is_counted_from_the_last_confirmed_cut() {
    let mut filter = FlashFilter::new(10);
    assert_eq!(filter.filter(create_timecode(100), true).len(), 1);
    assert_eq!(filter.filter(create_timecode(109), true).len(), 0);
    assert_eq!(filter.last_cut_frame(), Some(100));
    let cuts = filter.filter(create_timecode(110), true);
    assert_eq!(cuts.len(), 1);
    assert_eq!(cuts[0].frame_number(), 110);
    assert_eq!(filter.last_cut_frame(), Some(110));
    assert_eq!(filter.filter(create_timecode(119), true).len(), 0);
}

#[test]
fn test_confirmed_cut_keeps_the_frame_rate() {
    let fps = Float64::from_bits(29.97f64.to_bits());
    let mut filter = FlashFilter::new(10);
    let cuts = filter.filter(FrameTimecode::new(3, fps), true);
    assert_eq!(cuts.len(), 1);
    assert_eq!(cuts[0], FrameTimecode::new(3, fps));
}

#[test]
fn test_merge_mode_basic() {
    let mut filter = FlashFilter::new_with_mode(FilterMode::Merge, 10);

    let cuts = filter.filter(create_timecode(100), true);
    assert_eq!(cuts.len(), 1);
    assert_eq!(cuts[0].frame_number(), 100);

    let cuts = filter.filter(create_timecode(120), true);
    assert_eq!(cuts.len(), 1);
    assert_eq!(cuts[0].frame_number(), 120);
}

#[test]
fn test_merge_mode_consecutive_cuts() {
    let mut filter = FlashFilter::new_with_mode(FilterMode::Merge, 10);

    let cuts = filter.filter(create_timecode(100), true);
    assert_eq!(cuts.len(), 1);

    let cuts = filter.filter(create_timecode(105), true);
    assert_eq!(cuts.len(), 0);

    let cuts = filter.filter(create_timecode(106), true);
    assert_eq!(cuts.len(), 0);

    for frame in 107..120 {
        let cuts = filter.filter(create_timecode(frame), false);
        if frame >= 117 {
            if !cuts.is_empty() {
                assert_eq!(cuts[0].frame_number(), 106);
                break;
            }
        } else {
            assert_eq!(cuts.len(), 0);
        }
    }
}

#[test]
fn test_merge_mode_short_burst_is_dropped() {
    let mut filter = FlashFilter::new_with_mode(FilterMode::Merge, 10);
    assert_eq!(filter.filter(create_timecode(100), true).len(), 1);
    assert_eq!(filter.filter(create_timecode(105), true).len(), 0);
    assert_eq!(filter.filter(create_timecode(106), true).len(), 0);
    for frame in 107..140 {
        assert_eq!(filter.filter(create_timecode(frame), false).len(), 0);
    }
    assert_eq!(filter.last_cut_frame(), Some(100));
    // The burst is over: the next candidate is far enough from the cut.
    let cuts = filter.filter(create_timecode(140), true);
    assert_eq!(cuts.len(), 1);
    assert_eq!(cuts[0].frame_number(), 140);
}

#[test]
fn test_merge_mode_long_burst_is_confirmed_at_its_last_frame() {
    let fps = Float64::from_bits(25.0f64.to_bits());
    let mut filter = FlashFilter::new_with_mode(FilterMode::Merge, 10);
    assert_eq!(filter.filter(create_timecode(100), true).len(), 1);
    // Too soon: a burst opens at 105.
    assert_eq!(filter.filter(create_timecode(105), true).len(), 0);
    // Far enough from the cut at 100: confirmed at once, the burst stays open.
    let cuts = filter.filter(create_timecode(115), true);
    assert_eq!(cuts.len(), 1);
    assert_eq!(cuts[0].frame_number(), 115);
    for frame in 116..125 {
        assert_eq!(filter.filter(create_timecode(frame), false).len(), 0);
    }
    // Ten quiet frames after 115, and the burst spans 105 to 115.
    let cuts = filter.filter(FrameTimecode::new(125, fps), false);
    assert_eq!(cuts.len(), 1);
    assert_eq!(cuts[0].frame_number(), 115);
    assert_eq!(cuts[0].fps().to_bits(), fps.to_bits());
    assert_eq!(filter.last_cut_frame(), Some(115));
    // The burst is closed: quiet frames confirm nothing more.
    assert_eq!(filter.filter(create_timecode(140), false).len(), 0);
}

#[test]
fn test_merge_mode_first_candidate_confirms_immediately() {
    for first in [0, 1, 5, 1000, u32::MAX] {
        let mut filter = FlashFilter::new_with_mode(FilterMode::Merge, 10);
        assert_eq!(filter.filter(create_timecode(3), false).len(), 0);
        let cuts = filter.filter(create_timecode(first), true);
        assert_eq!(cuts.len(), 1);
        assert_eq!(cuts[0].frame_number(), first);
        assert_eq!(filter.last_cut_frame(), Some(first));
    }
}

#[test]
fn test_filter_reset() {
    let mut filter = FlashFilter::new(10);

    filter.filter(create_timecode(100), true);
    assert!(filter.last_cut_frame().is_some());

    filter.reset();
    assert_eq!(filter.last_cut_frame(), None);

    let cuts = filter.filter(create_timecode(50), true);
    assert_eq!(cuts.len(), 1);
}

#[test]
fn test_filter_reset_behaves_as_new() {
    let steps: [(u32, bool); 9] = [
        (100, true),
        (105, true),
        (106, true),
        (110, false),
        (116, false),
        (117, true),
        (130, true),
        (131, true),
        (150, false),
    ];
    for mode in [FilterMode::Suppress, FilterMode::Merge] {
        let mut used = FlashFilter::new_with_mode(mode, 10);
        for (frame, above) in [(7, true), (9, true), (30, false), (31, true), (33, true)] {
            used.filter(create_timecode(frame), above);
        }
        used.reset();
        assert_eq!(used.mode(), mode);
        assert_eq!(used.min_scene_length(), 10);
        assert_eq!(used.last_cut_frame(), None);
        let mut fresh = FlashFilter::new_with_mode(mode, 10);
        for (frame, above) in steps {
            let a = used.filter(create_timecode(frame), above);
            let b = fresh.filter(create_timecode(frame), above);
            assert_eq!(a, b);
            assert_eq!(used.last_cut_frame(), fresh.last_cut_frame());
        }
    }
}

#[test]
fn test_filter_edge_cases() {
    let mut filter = FlashFilter::new(1);

    let cuts = filter.filter(create_timecode(100), true);
    assert_eq!(cuts.len(), 1);

    let cuts = filter.filter(create_timecode(101), true);
    assert_eq!(cuts.len(), 1);

    let cuts = filter.filter(create_timecode(102), true);
    assert_eq!(cuts.len(), 1);
}

#[test]
fn test_frame_number_overflow_safety() {
    let mut filter = FlashFilter::new(10);

    let cuts = filter.filter(create_timecode(u32::MAX - 5), true);
    assert_eq!(cuts.len(), 1);

    let cuts = filter.filter(create_timecode(u32::MAX), true);
    assert_eq!(cuts.len(), 0);
}

#[test]
fn test_frame_before_the_last_cut_is_too_soon() {
    for mode in [FilterMode::Suppress, FilterMode::Merge] {
        let mut filter = FlashFilter::new_with_mode(mode, 10);
        assert_eq!(filter.filter(create_timecode(1000), true).len(), 1);
        assert_eq!(filter.filter(create_timecode(3), true).len(), 0);
        assert_eq!(filter.filter(create_timecode(0), true).len(), 0);
        assert_eq!(filter.last_cut_frame(), Some(1000));
    }
}
