//! Stereo reprojection geometry.
//!
//! The overlay in VR space acts as a window onto the real world: projecting
//! it into a camera's clip space with that camera's projection decides which
//! part of the camera image shows through the window.
use vstd::prelude::*;

verus! {

/// Because the eyes and the cameras sit at different physical locations, a
/// camera view cannot be projected into VR space perfectly, and each mode
/// makes a different trade-off.
///
/// `FromCamera` places the eyes at the cameras: a wider view, but everything
/// seems smaller than it is. `FromEye` places the cameras at the eyes:
/// correct scale, narrower view, and a lateral shift that depends on the IPD.
#[derive(PartialEq, Eq, Structural, Debug, Clone, Copy)]
pub enum ProjectionMode {
    FromCamera,
    FromEye,
}

/// One side of the side-by-side stereo layout.
#[derive(PartialEq, Eq, Structural, Debug, Clone, Copy)]
pub enum Eye {
    Left,
    Right,
}

/// An offset in micrometres (x right, y up, z backward).
#[derive(PartialEq, Eq, Structural, Debug, Clone, Copy)]
pub struct Offset3 {
    pub x: i32,
    pub y: i32,
    pub z: i32,
}

/// Lateral distance from the head centre to each camera lens, in micrometres.
pub const CAMERA_LATERAL_UM: i32 = 67000;

/// Vertical offset from the head centre to the camera lenses, in micrometres.
pub const CAMERA_VERTICAL_UM: i32 = -39000;

/// Forward offset from the head centre to the camera lenses, in micrometres.
pub const CAMERA_FORWARD_UM: i32 = -70000;

/// The measured camera-to-head offset of one eye's camera.
pub open spec fn camera_offset_spec(eye: Eye) -> Offset3 {
    Offset3 {
        x: match eye {
            Eye::Left => (-CAMERA_LATERAL_UM) as i32,
            Eye::Right => CAMERA_LATERAL_UM,
        },
        y: CAMERA_VERTICAL_UM,
        z: CAMERA_FORWARD_UM,
    }
}

/// The measured camera-to-head offset of one eye's camera.
pub fn camera_offset(eye: Eye) -> (r: Offset3)
    ensures
        r == camera_offset_spec(eye),
{
    let x: i32 = match eye {
        Eye::Left => -CAMERA_LATERAL_UM,
        Eye::Right => CAMERA_LATERAL_UM,
    };
    Offset3 { x, y: CAMERA_VERTICAL_UM, z: CAMERA_FORWARD_UM }
}

/// Which eye-to-head transform a view matrix is built from.
#[derive(PartialEq, Eq, Structural, Debug, Clone, Copy)]
pub enum EyeAnchor {
    /// The eye-to-head transform that the VR runtime reports for this eye.
    RuntimeEye(Eye),
    /// A fixed offset from the camera lens to the head centre.
    MeasuredCamera(Offset3),
}

/// A rectangle of the destination texture, in pixels.
#[derive(PartialEq, Eq, Structural, Debug, Clone, Copy)]
pub struct Viewport {
    pub x: u32,
    pub y: u32,
    pub width: u32,
    pub height: u32,
}

/// Everything one eye's reprojection draw needs besides its MVP matrix.
#[derive(PartialEq, Eq, Structural, Debug, Clone, Copy)]
pub struct EyeDraw {
    pub eye: Eye,
    /// The transform the eye's view matrix is built from.
    pub anchor: EyeAnchor,
    /// The half of the destination that this eye's quad covers.
    pub viewport: Viewport,
    /// Horizontal offset of this eye's half in the source, in pixels.
    pub texture_offset: u32,
    /// Lateral shift of the sampled coordinate, in micrometres.
    pub eye_offset_um: i64,
}

/// The commands of one projection pass: a plain copy of the whole source
/// into the destination, then one reprojected quad per eye.
#[derive(PartialEq, Eq, Structural, Debug, Clone, Copy)]
pub struct ProjectionPlan {
    pub copy_width: u32,
    pub copy_height: u32,
    pub left: EyeDraw,
    pub right: EyeDraw,
}

/// Why a projector could not be built.
#[derive(PartialEq, Eq, Structural, Debug, Clone, Copy)]
pub enum ProjectionError {
    /// The source is not a side-by-side pair of square eye images.
    NotSideBySide { width: u32, height: u32 },
}

/// The stereo projector over a side-by-side source texture.
pub struct Projection {
    width: u32,
    height: u32,
    mode: ProjectionMode,
}

/// Which transform an eye's view is built from in a given mode.
pub open spec fn eye_anchor_spec(mode: ProjectionMode, eye: Eye) -> EyeAnchor {
    match mode {
        ProjectionMode::FromEye => EyeAnchor::RuntimeEye(eye),
        ProjectionMode::FromCamera => EyeAnchor::MeasuredCamera(camera_offset_spec(eye)),
    }
}

/// The lateral shift applied in the shader: half the camera baseline less
/// half the viewer's IPD in `FromEye` mode, nothing in `FromCamera` mode.
pub open spec fn eye_offset_spec(mode: ProjectionMode, ipd_um: u32) -> int {
    match mode {
        ProjectionMode::FromEye => CAMERA_LATERAL_UM - ipd_um / 2,
        ProjectionMode::FromCamera => 0,
    }
}

/// One eye's half of a side-by-side texture of the given size.
pub open spec fn eye_viewport_spec(width: u32, height: u32, eye: Eye) -> Viewport {
    Viewport {
        x: match eye {
            Eye::Left => 0,
            Eye::Right => (width / 2) as u32,
        },
        y: 0,
        width: (width / 2) as u32,
        height: height,
    }
}

pub open spec fn eye_draw_spec(
    width: u32,
    height: u32,
    mode: ProjectionMode,
    ipd_um: u32,
    eye: Eye,
) -> EyeDraw {
    EyeDraw {
        eye: eye,
        anchor: eye_anchor_spec(mode, eye),
        viewport: eye_viewport_spec(width, height, eye),
        texture_offset: eye_viewport_spec(width, height, eye).x,
        eye_offset_um: eye_offset_spec(mode, ipd_um) as i64,
    }
}

pub open spec fn projection_plan_spec(
    width: u32,
    height: u32,
    mode: ProjectionMode,
    ipd_um: u32,
) -> ProjectionPlan {
    ProjectionPlan {
        copy_width: width,
        copy_height: height,
        left: eye_draw_spec(width, height, mode, ipd_um, Eye::Left),
        right: eye_draw_spec(width, height, mode, ipd_um, Eye::Right),
    }
}

impl Projection {
    pub closed spec fn spec_width(&self) -> u32 {
        self.width
    }

    pub closed spec fn spec_height(&self) -> u32 {
        self.height
    }

    pub closed spec fn spec_mode(&self) -> ProjectionMode {
        self.mode
    }

    /// The source is one side-by-side pair: twice as wide as it is high.
    pub open spec fn wf(&self) -> bool {
        self.spec_width() == 2 * self.spec_height()
    }

    /// Builds a projector over a source texture of the given size; the
    /// source must hold two square eye images side by side.
    pub fn new(width: u32, height: u32, mode: ProjectionMode) -> (r: Result<Projection, ProjectionError>)
        ensures
            r is Ok <==> width == 2 * height,
            r matches Ok(p) ==> p.wf() && p.spec_width() == width && p.spec_height() == height
                && p.spec_mode() == mode,
            r is Err ==> r == Err::<Projection, ProjectionError>(
                ProjectionError::NotSideBySide { width, height },
            ),
    {
        if height > u32::MAX / 2 || width != 2 * height {
            return Err(ProjectionError::NotSideBySide { width, height });
        }
        Ok(Projection { width, height, mode })
    }

    pub fn width(&self) -> (r: u32)
        ensures
            r == self.spec_width(),
    {
        self.width
    }

    pub fn height(&self) -> (r: u32)
        ensures
            r == self.spec_height(),
    {
        self.height
    }

    pub fn mode(&self) -> (r: ProjectionMode)
        ensures
            r == self.spec_mode(),
    {
        self.mode
    }

    /// The transform this projector builds an eye's view from.
    pub fn eye_anchor(&self, eye: Eye) -> (r: EyeAnchor)
        ensures
            r == eye_anchor_spec(self.spec_mode(), eye),
    {
        match self.mode {
            ProjectionMode::FromEye => EyeAnchor::RuntimeEye(eye),
            ProjectionMode::FromCamera => EyeAnchor::MeasuredCamera(camera_offset(eye)),
        }
    }

    /// The lateral shift, in micrometres, for a viewer with the given IPD.
    pub fn eye_offset_um(&self, ipd_um: u32) -> (r: i64)
        ensures
            r == eye_offset_spec(self.spec_mode(), ipd_um),
    {
        match self.mode {
            ProjectionMode::FromEye => CAMERA_LATERAL_UM as i64 - (ipd_um / 2) as i64,
            ProjectionMode::FromCamera => 0,
        }
    }

    /// The half of the destination that one eye's quad is drawn into.
    pub fn eye_viewport(&self, eye: Eye) -> (r: Viewport)
        ensures
            r == eye_viewport_spec(self.spec_width(), self.spec_height(), eye),
    {
        let half = self.width / 2;
        let x: u32 = match eye {
            Eye::Left => 0,
            Eye::Right => half,
        };
        Viewport { x, y: 0, width: half, height: self.height }
    }

    fn eye_draw(&self, ipd_um: u32, eye: Eye) -> (r: EyeDraw)
        ensures
            r == eye_draw_spec(self.spec_width(), self.spec_height(), self.spec_mode(), ipd_um, eye),
    {
        let viewport = self.eye_viewport(eye);
        EyeDraw {
            eye,
            anchor: self.eye_anchor(eye),
            viewport,
            texture_offset: viewport.x,
            eye_offset_um: self.eye_offset_um(ipd_um),
        }
    }

    /// Plans one projection pass for a viewer with the given IPD.
    pub fn project(&self, ipd_um: u32) -> (r: ProjectionPlan)
        ensures
            r == projection_plan_spec(self.spec_width(), self.spec_height(), self.spec_mode(), ipd_um),
    {
        ProjectionPlan {
            copy_width: self.width,
            copy_height: self.height,
            left: self.eye_draw(ipd_um, Eye::Left),
            right: self.eye_draw(ipd_um, Eye::Right),
        }
    }
}

/// The two projection modes plan the same copy, viewports and texture
/// offsets for a given source; they differ only in the eye terms: the
/// transform each eye's view is built from (the runtime's eye transform or
/// the measured camera offset) and the lateral eye offset, which is zero in
/// `FromCamera` mode.
pub proof fn lemma_modes_differ_only_in_eye_terms(width: u32, height: u32, ipd_um: u32)
    ensures
        ({
            let cam = projection_plan_spec(width, height, ProjectionMode::FromCamera, ipd_um);
            let eye = projection_plan_spec(width, height, ProjectionMode::FromEye, ipd_um);
            &&& cam.copy_width == eye.copy_width && cam.copy_height == eye.copy_height
            &&& cam.left.viewport == eye.left.viewport && cam.right.viewport == eye.right.viewport
            &&& cam.left.texture_offset == eye.left.texture_offset
            &&& cam.right.texture_offset == eye.right.texture_offset
            &&& cam.left.anchor == EyeAnchor::MeasuredCamera(camera_offset_spec(Eye::Left))
            &&& cam.right.anchor == EyeAnchor::MeasuredCamera(camera_offset_spec(Eye::Right))
            &&& eye.left.anchor == EyeAnchor::RuntimeEye(Eye::Left)
            &&& eye.right.anchor == EyeAnchor::RuntimeEye(Eye::Right)
            &&& cam.left.eye_offset_um == 0 && cam.right.eye_offset_um == 0
            &&& eye.left.eye_offset_um == CAMERA_LATERAL_UM - ipd_um / 2
            &&& eye.right.eye_offset_um == eye.left.eye_offset_um
        }),
{
}

/// The two eye viewports split a side-by-side texture into its halves: the
/// left starts at the left edge, the right starts where the left ends, and
/// together they cover the full width and height.
pub proof fn lemma_viewports_tile_source(width: u32, height: u32)
    requires
        width == 2 * height,
    ensures
        ({
            let l = eye_viewport_spec(width, height, Eye::Left);
            let r = eye_viewport_spec(width, height, Eye::Right);
            &&& l.x == 0 && l.y == 0 && r.y == 0
            &&& r.x == l.x + l.width
            &&& l.width == r.width && l.width + r.width == width
            &&& l.width == height
            &&& l.height == height && r.height == height
        }),
{
}

} // verus!
