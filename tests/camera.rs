use framebuf::camera::{Camera, TPosition};

#[test]
fn camera_takes_its_position_for_both_fields() {
    let cam = Camera::new([12, 13, 10], [11, 10, 9]);
    assert_eq!(cam.position, TPosition { x: 12, y: 13, z: 10 });
    assert_eq!(cam.perspective, TPosition { x: 12, y: 13, z: 10 });
}
