use index_camera_passthrough::projection::{
    camera_offset, Eye, EyeAnchor, Offset3, Projection, ProjectionError, ProjectionMode, Viewport,
};

#[test]
fn source_not_side_by_side_is_refused() {
    let r = Projection::new(1920, 1080, ProjectionMode::FromCamera);
    assert!(matches!(
        r,
        Err(ProjectionError::NotSideBySide { width: 1920, height: 1080 })
    ));
    let r = Projection::new(960, 960, ProjectionMode::FromEye);
    assert!(matches!(r, Err(ProjectionError::NotSideBySide { width: 960, height: 960 })));
}

#[test]
fn refusal_is_deterministic() {
    for _ in 0..3 {
        assert!(Projection::new(1921, 960, ProjectionMode::FromEye).is_err());
    }
}

#[test]
fn largest_height_is_refused_without_overflow() {
    assert!(Projection::new(u32::MAX, u32::MAX, ProjectionMode::FromEye).is_err());
    assert!(Projection::new(u32::MAX - 1, u32::MAX / 2, ProjectionMode::FromEye).is_ok());
}

#[test]
fn side_by_side_source_is_accepted() {
    let p = Projection::new(1920, 960, ProjectionMode::FromEye).ok().unwrap();
    assert_eq!(p.width(), 1920);
    assert_eq!(p.height(), 960);
    assert_eq!(p.mode(), ProjectionMode::FromEye);
}

#[test]
fn eye_viewports_split_the_source() {
    let p = Projection::new(1920, 960, ProjectionMode::FromCamera).ok().unwrap();
    assert_eq!(
        p.eye_viewport(Eye::Left),
        Viewport { x: 0, y: 0, width: 960, height: 960 }
    );
    assert_eq!(
        p.eye_viewport(Eye::Right),
        Viewport { x: 960, y: 0, width: 960, height: 960 }
    );
}

#[test]
fn camera_offsets() {
    assert_eq!(camera_offset(Eye::Left), Offset3 { x: -67000, y: -39000, z: -70000 });
    assert_eq!(camera_offset(Eye::Right), Offset3 { x: 67000, y: -39000, z: -70000 });
}

#[test]
fn anchors_follow_mode() {
    let cam = Projection::new(1920, 960, ProjectionMode::FromCamera).ok().unwrap();
    let eye = Projection::new(1920, 960, ProjectionMode::FromEye).ok().unwrap();
    assert_eq!(
        cam.eye_anchor(Eye::Right),
        EyeAnchor::MeasuredCamera(Offset3 { x: 67000, y: -39000, z: -70000 })
    );
    assert_eq!(eye.eye_anchor(Eye::Left), EyeAnchor::RuntimeEye(Eye::Left));
}

#[test]
fn eye_offset_from_ipd() {
    let cam = Projection::new(1920, 960, ProjectionMode::FromCamera).ok().unwrap();
    let eye = Projection::new(1920, 960, ProjectionMode::FromEye).ok().unwrap();
    assert_eq!(cam.eye_offset_um(63000), 0);
    assert_eq!(eye.eye_offset_um(63000), 35500);
    assert_eq!(eye.eye_offset_um(134000), 0);
    assert_eq!(eye.eye_offset_um(200000), -33000);
    assert_eq!(eye.eye_offset_um(u32::MAX), 67000 - (u32::MAX / 2) as i64);
}

#[test]
fn modes_differ_only_in_eye_terms() {
    let cam = Projection::new(1920, 960, ProjectionMode::FromCamera).ok().unwrap().project(64000);
    let eye = Projection::new(1920, 960, ProjectionMode::FromEye).ok().unwrap().project(64000);
    assert_eq!((cam.copy_width, cam.copy_height), (1920, 960));
    assert_eq!((eye.copy_width, eye.copy_height), (1920, 960));
    assert_eq!(cam.left.viewport, eye.left.viewport);
    assert_eq!(cam.right.viewport, eye.right.viewport);
    assert_eq!(cam.left.texture_offset, 0);
    assert_eq!(eye.right.texture_offset, 960);
    assert_eq!(cam.left.eye_offset_um, 0);
    assert_eq!(eye.left.eye_offset_um, 35000);
    assert_eq!(eye.right.eye_offset_um, 35000);
    assert_ne!(cam.left.anchor, eye.left.anchor);
}

#[test]
fn project_is_deterministic() {
    let p = Projection::new(1920, 960, ProjectionMode::FromEye).ok().unwrap();
    assert_eq!(p.project(61000), p.project(61000));
}
