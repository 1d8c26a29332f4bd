use index_camera_passthrough::frame::{DeviceId, FrameError, PixelLayout};
use index_camera_passthrough::pipeline::{
    DisplayMode, Pipeline, StageKind, Step, Target, CAMERA_SIZE, FRAME_WIDTH,
};
use index_camera_passthrough::projection::ProjectionMode;

const STEREO_EYE: DisplayMode = DisplayMode::Stereo { projection_mode: ProjectionMode::FromEye };

fn rgba_len() -> usize {
    1920 * 960 * 4
}

fn yuyv_len() -> usize {
    1920 * 960 * 2
}

#[test]
fn frame_size_constants() {
    assert_eq!(CAMERA_SIZE, 960);
    assert_eq!(FRAME_WIDTH, 2 * CAMERA_SIZE);
}

#[test]
fn no_stage_uploads_into_output() {
    let mut p = Pipeline::new(DeviceId(1), false, DisplayMode::Mono, 63000, false);
    assert_eq!(p.parity(), 0);
    assert_eq!(p.source_layout(), PixelLayout::Rgba);
    let plan = p.run(DeviceId(1), rgba_len(), 1920, 960).ok().unwrap();
    assert_eq!(plan.upload, Target::Output);
    assert!(plan.steps.is_empty());
    assert!(plan.projection.is_none());
    assert!(!plan.capture);
}

#[test]
fn all_stages_chain_into_output() {
    let mut p = Pipeline::new(DeviceId(1), true, STEREO_EYE, 63000, true);
    assert_eq!(p.parity(), 1);
    let plan = p.run(DeviceId(1), yuyv_len(), 1920, 960).ok().unwrap();
    assert_eq!(plan.upload, Target::Intermediate(0));
    assert_eq!(
        plan.steps,
        vec![
            Step {
                kind: StageKind::Convert,
                source: Target::Intermediate(0),
                destination: Target::Intermediate(1)
            },
            Step {
                kind: StageKind::Correct,
                source: Target::Intermediate(1),
                destination: Target::Intermediate(0)
            },
            Step {
                kind: StageKind::Project,
                source: Target::Intermediate(0),
                destination: Target::Output
            },
        ]
    );
    assert!(plan.fov_from_correction);
    let proj = plan.projection.unwrap();
    assert_eq!(proj.left.eye_offset_um, 67000 - 31500);
}

#[test]
fn parity_is_stage_count_mod_two() {
    for yuv in [false, true] {
        for calib in [false, true] {
            for mode in [DisplayMode::Mono, STEREO_EYE] {
                let p = Pipeline::new(DeviceId(1), yuv, mode, 63000, calib);
                let n = yuv as usize + calib as usize + (mode != DisplayMode::Mono) as usize;
                assert_eq!(p.parity(), n % 2);
                let steps = p.steps();
                assert_eq!(steps.len(), n);
                if let Some(last) = steps.last() {
                    assert_eq!(last.destination, Target::Output);
                }
                for s in steps.iter().take(n.saturating_sub(1)) {
                    assert_ne!(s.destination, Target::Output);
                }
            }
        }
    }
}

#[test]
fn single_conversion_writes_output() {
    let mut p = Pipeline::new(DeviceId(1), true, DisplayMode::Mono, 63000, false);
    let plan = p.run(DeviceId(1), yuyv_len(), 1920, 960).ok().unwrap();
    assert_eq!(
        plan.steps,
        vec![Step {
            kind: StageKind::Convert,
            source: Target::Intermediate(0),
            destination: Target::Output
        }]
    );
    assert!(!plan.fov_from_correction);
}

#[test]
fn correction_then_projection() {
    let mode = DisplayMode::Stereo { projection_mode: ProjectionMode::FromCamera };
    let mut p = Pipeline::new(DeviceId(1), false, mode, 63000, true);
    assert_eq!(p.parity(), 0);
    let plan = p.run(DeviceId(1), rgba_len(), 1920, 960).ok().unwrap();
    assert_eq!(plan.steps.len(), 2);
    assert_eq!(plan.steps[0].kind, StageKind::Correct);
    assert_eq!(plan.steps[0].destination, Target::Intermediate(1));
    assert_eq!(plan.steps[1].source, Target::Intermediate(1));
    assert_eq!(plan.steps[1].destination, Target::Output);
    assert_eq!(plan.projection.unwrap().left.eye_offset_um, 0);
}

#[test]
fn capture_is_consumed_by_next_run() {
    let mut p = Pipeline::new(DeviceId(1), true, STEREO_EYE, 63000, false);
    p.capture_next_frame();
    assert!(p.capture_requested());
    let first = p.run(DeviceId(1), yuyv_len(), 1920, 960).ok().unwrap();
    assert!(first.capture);
    assert!(!p.capture_requested());
    let second = p.run(DeviceId(1), yuyv_len(), 1920, 960).ok().unwrap();
    assert!(!second.capture);
}

#[test]
fn capture_is_cleared_by_failed_run() {
    let mut p = Pipeline::new(DeviceId(1), true, STEREO_EYE, 63000, false);
    p.capture_next_frame();
    assert!(p.run(DeviceId(1), 5, 1920, 960).is_err());
    assert!(!p.capture_requested());
    let next = p.run(DeviceId(1), yuyv_len(), 1920, 960).ok().unwrap();
    assert!(!next.capture);
}

#[test]
fn run_errors() {
    let mut p = Pipeline::new(DeviceId(1), true, DisplayMode::Mono, 63000, false);
    assert_eq!(
        p.run(DeviceId(2), yuyv_len(), 1920, 960).err(),
        Some(FrameError::DeviceMismatch { owner: DeviceId(1), queue: DeviceId(2) })
    );
    assert_eq!(
        p.run(DeviceId(1), rgba_len(), 1920, 960).err(),
        Some(FrameError::InputLength { expected: 3_686_400, actual: rgba_len() })
    );
    assert_eq!(
        p.run(DeviceId(1), yuyv_len(), 1280, 720).err(),
        Some(FrameError::DestinationSize {
            expected_width: 1920,
            expected_height: 960,
            width: 1280,
            height: 720
        })
    );
}

#[test]
fn set_ipd_applies_to_later_runs() {
    let mut p = Pipeline::new(DeviceId(1), false, STEREO_EYE, 60000, false);
    let before = p.run(DeviceId(1), rgba_len(), 1920, 960).ok().unwrap();
    assert_eq!(before.projection.unwrap().left.eye_offset_um, 37000);
    p.set_ipd(70000);
    assert_eq!(p.ipd_um(), 70000);
    let after = p.run(DeviceId(1), rgba_len(), 1920, 960).ok().unwrap();
    assert_eq!(after.projection.unwrap().right.eye_offset_um, 32000);
}

#[test]
fn configuration_getters() {
    let p = Pipeline::new(DeviceId(9), true, STEREO_EYE, 60000, true);
    assert_eq!(p.device(), DeviceId(9));
    assert_eq!(p.source_layout(), PixelLayout::Packed422);
    assert!(p.has_correction());
    assert_eq!(p.projection_mode(), Some(ProjectionMode::FromEye));
    assert!(!p.capture_requested());
}
