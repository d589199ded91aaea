use ferrous_control::volume::VolumeControl;

#[test]
fn set_then_get_reads_back_clamped() {
    let mut ctl = VolumeControl::new(50);
    ctl.set_volume(37);
    assert_eq!(ctl.get_volume(), 37);
    ctl.set_volume(0);
    assert_eq!(ctl.get_volume(), 0);
    ctl.set_volume(100);
    assert_eq!(ctl.get_volume(), 100);
}

#[test]
fn set_clamps_out_of_range_levels() {
    let mut ctl = VolumeControl::new(50);
    ctl.set_volume(250);
    assert_eq!(ctl.get_volume(), 100);
    ctl.set_volume(-5);
    assert_eq!(ctl.get_volume(), 0);
}

#[test]
fn set_negative_behaves_like_zero() {
    let mut a = VolumeControl::new(42);
    let mut b = VolumeControl::new(42);
    a.set_volume(-5);
    b.set_volume(0);
    assert_eq!(a.get_volume(), b.get_volume());
}

#[test]
fn set_overlarge_behaves_like_hundred() {
    let mut a = VolumeControl::new(42);
    let mut b = VolumeControl::new(42);
    a.set_volume(150);
    b.set_volume(100);
    assert_eq!(a.get_volume(), b.get_volume());
}

#[test]
fn adjust_lands_on_clamped_sum() {
    let mut ctl = VolumeControl::new(50);
    assert_eq!(ctl.adjust_volume(30), 80);
    assert_eq!(ctl.get_volume(), 80);
    assert_eq!(ctl.adjust_volume(100), 100);
    assert_eq!(ctl.adjust_volume(-250), 0);
    assert_eq!(ctl.adjust_volume(7), 7);
}

#[test]
fn adjust_with_extreme_deltas() {
    let mut ctl = VolumeControl::new(50);
    assert_eq!(ctl.adjust_volume(i32::MAX), 100);
    assert_eq!(ctl.adjust_volume(i32::MIN), 0);
}

#[test]
fn increase_and_decrease_report_resulting_level() {
    let mut ctl = VolumeControl::new(96);
    assert_eq!(ctl.increase_volume(2), 98);
    assert_eq!(ctl.increase_volume(5), 100);
    assert_eq!(ctl.decrease_volume(2), 98);
    let mut low = VolumeControl::new(1);
    assert_eq!(low.decrease_volume(5), 0);
}

#[test]
fn mute_toggles_without_touching_level() {
    let mut ctl = VolumeControl::new(33);
    assert!(!ctl.get_mute());
    ctl.set_mute(true);
    assert!(ctl.get_mute());
    assert_eq!(ctl.get_volume(), 33);
    ctl.set_mute(false);
    assert!(!ctl.get_mute());
}

#[test]
fn new_clamps_initial_level() {
    let ctl = VolumeControl::new(400);
    assert_eq!(ctl.get_volume(), 100);
    let ctl = VolumeControl::new(-1);
    assert_eq!(ctl.get_volume(), 0);
}
