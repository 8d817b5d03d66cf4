use skia_safe::utils::interpolator::Interpolator;
use skia_safe::utils::interpolator::InterpolatorResult;
use skia_safe::utils::interpolator::UNIT_SCALAR;

fn two_frame_interpolator() -> Interpolator {
    let mut interp = Interpolator::new(1, 2);
    assert!(interp.set_key_frame(0, 100, &vec![0], None));
    assert!(interp.set_key_frame(1, 300, &vec![10], None));
    interp
}

#[test]
fn elem_count_reports_the_room() {
    let interp = Interpolator::new(3, 5);
    assert_eq!(interp.elem_count(), 3);
}

#[test]
fn duration_needs_every_frame() {
    let empty = Interpolator::default();
    assert!(empty.duration().is_none());
    let mut partial = Interpolator::new(1, 2);
    assert!(partial.duration().is_none());
    assert!(partial.set_key_frame(0, 100, &vec![0], None));
    assert!(partial.duration().is_none());
    assert!(partial.set_key_frame(1, 300, &vec![10], None));
    assert_eq!(partial.duration(), Some((100, 300)));
}

#[test]
fn key_frames_must_land_in_range_and_in_order() {
    let mut interp = Interpolator::new(1, 2);
    assert!(!interp.set_key_frame(2, 100, &vec![0], None));
    assert!(!interp.set_key_frame(1, 100, &vec![0], None));
    assert!(interp.set_key_frame(0, 100, &vec![0], None));
    assert!(!interp.set_key_frame(1, 100, &vec![0], None));
    assert!(interp.set_key_frame(1, 101, &vec![0], None));
}

#[test]
fn time_before_the_start_freezes_at_the_start() {
    let interp = two_frame_interpolator();
    let (result, tt) = interp.time_to_t(50);
    assert_eq!(result, InterpolatorResult::FreezeStart);
    assert_eq!(tt.t, 0);
    assert_eq!(tt.index, 0);
    assert!(!tt.exact);
}

#[test]
fn time_inside_the_play_interpolates() {
    let interp = two_frame_interpolator();
    let (result, tt) = interp.time_to_t(200);
    assert_eq!(result, InterpolatorResult::Normal);
    assert_eq!(tt.index, 0);
    assert_eq!(tt.t, UNIT_SCALAR / 2);
    assert!(!tt.exact);
    let (_, at_start) = interp.time_to_t(100);
    assert_eq!(at_start.t, 0);
    assert!(at_start.exact);
}

#[test]
fn time_past_the_last_play_freezes_at_the_end() {
    let interp = two_frame_interpolator();
    let (result, tt) = interp.time_to_t(300);
    assert_eq!(result, InterpolatorResult::FreezeEnd);
    assert_eq!(tt.t, UNIT_SCALAR);
    assert_eq!(tt.index, 0);
    assert!(tt.exact);
}

#[test]
fn repeats_fold_back_into_the_play() {
    let mut interp = two_frame_interpolator();
    interp.set_repeat_count(3);
    let (result, tt) = interp.time_to_t(350);
    assert_eq!(result, InterpolatorResult::Normal);
    assert_eq!(tt.t, UNIT_SCALAR / 4);
    let (frozen, _) = interp.time_to_t(800);
    assert_eq!(frozen, InterpolatorResult::FreezeEnd);
}

#[test]
fn mirrored_repeats_run_backwards() {
    let mut interp = two_frame_interpolator();
    interp.set_repeat_count(2).set_mirror(true);
    let (result, tt) = interp.time_to_t(350);
    assert_eq!(result, InterpolatorResult::Normal);
    assert_eq!(tt.t, (UNIT_SCALAR * 3) / 4);
}

#[test]
fn reset_empties_the_frames() {
    let mut interp = two_frame_interpolator();
    interp.reset(2, 4);
    assert_eq!(interp.elem_count(), 2);
    assert!(interp.duration().is_none());
    interp.set_reset(true);
}

#[test]
fn middle_interval_of_three_frames() {
    let mut interp = Interpolator::new(1, 3);
    assert!(interp.set_key_frame(0, 0, &vec![0], None));
    assert!(interp.set_key_frame(1, 100, &vec![5], None));
    assert!(interp.set_key_frame(2, 300, &vec![10], None));
    let (result, tt) = interp.time_to_t(150);
    assert_eq!(result, InterpolatorResult::Normal);
    assert_eq!(tt.index, 1);
    assert_eq!(tt.t, UNIT_SCALAR / 4);
    let (_, hit) = interp.time_to_t(100);
    assert_eq!(hit.index, 1);
    assert_eq!(hit.t, 0);
    assert!(hit.exact);
}

#[test]
fn values_follow_the_frames() {
    let mut interp = Interpolator::new(2, 2);
    assert!(interp.set_key_frame(0, 100, &vec![0, 100], None));
    assert!(interp.set_key_frame(1, 300, &vec![64, 68], None));
    let mut out = vec![0i32; 2];
    assert_eq!(interp.time_to_values(50, &mut out), InterpolatorResult::FreezeStart);
    assert_eq!(out, vec![0, 100]);
    assert_eq!(interp.time_to_values(200, &mut out), InterpolatorResult::Normal);
    assert_eq!(out, vec![32, 84]);
    assert_eq!(interp.time_to_values(999, &mut out), InterpolatorResult::FreezeEnd);
    assert_eq!(out, vec![64, 68]);
    interp.set_reset(true);
    assert_eq!(interp.time_to_values(999, &mut out), InterpolatorResult::FreezeEnd);
    assert_eq!(out, vec![0, 100]);
}

#[test]
fn a_non_positive_repeat_count_plays_nothing() {
    let mut interp = two_frame_interpolator();
    interp.set_repeat_count(0);
    let (before, _) = interp.time_to_t(50);
    assert_eq!(before, InterpolatorResult::FreezeStart);
    let (at_start, tt) = interp.time_to_t(100);
    assert_eq!(at_start, InterpolatorResult::FreezeEnd);
    assert_eq!(tt.t, UNIT_SCALAR);
}
