use scene_viewer::geometry::{clamp_extent, PhysicalSize};

#[test]
fn zero_extents_are_raised_to_one() {
    assert_eq!(clamp_extent(0), 1);
    assert_eq!(clamp_extent(1), 1);
    assert_eq!(clamp_extent(1920), 1920);
    assert_eq!(PhysicalSize::new(0, 0).clamped(), PhysicalSize::new(1, 1));
    assert_eq!(PhysicalSize::new(0, 600).clamped(), PhysicalSize::new(1, 600));
    assert_eq!(PhysicalSize::new(800, 600).clamped(), PhysicalSize::new(800, 600));
}
