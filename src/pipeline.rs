//! The pipeline orchestrator: which stages exist, which ping-pong texture
//! each one reads and writes, and the plan of each frame.
//!
//! Stages always come in the order convert, correct, project; any of them
//! may be missing. The first stage reads the texture the frame is uploaded
//! into, each further stage reads what the one before wrote, and the last
//! stage writes the caller's output texture.
use vstd::prelude::*;
use crate::frame::{check_frame, frame_check_spec, DeviceId, FrameError, PixelLayout};
use crate::projection::{projection_plan_spec, Projection, ProjectionMode, ProjectionPlan};
use crate::yuv::YuyvConverter;

verus! {

/// Height of one eye's camera image. Camera frames hold the two eyes side
/// by side, so they are twice as wide.
pub const CAMERA_SIZE: u32 = 960;

/// Width of a side-by-side camera frame.
pub const FRAME_WIDTH: u32 = 1920;

/// Whether the output shows the camera image as is or reprojected per eye.
#[derive(PartialEq, Eq, Structural, Debug, Clone, Copy)]
pub enum DisplayMode {
    Mono,
    Stereo { projection_mode: ProjectionMode },
}

/// The optional stages, in the only order in which they run.
#[derive(PartialEq, Eq, Structural, Debug, Clone, Copy)]
pub enum StageKind {
    /// Packed 4:2:2 to RGBA conversion.
    Convert,
    /// Lens distortion correction.
    Correct,
    /// Stereo reprojection.
    Project,
}

/// A texture a stage reads or writes.
#[derive(PartialEq, Eq, Structural, Debug, Clone, Copy)]
pub enum Target {
    /// One of the two ping-pong textures the pipeline owns.
    Intermediate(usize),
    /// The output texture supplied with the frame.
    Output,
}

/// One stage of a frame, with the texture it reads and the one it writes.
#[derive(PartialEq, Eq, Structural, Debug, Clone, Copy)]
pub struct Step {
    pub kind: StageKind,
    pub source: Target,
    pub destination: Target,
}

/// What to do for one frame, in order: start a debug capture if `capture`,
/// upload the input bytes into `upload`, run `steps`, then end the capture.
pub struct FramePlan {
    pub capture: bool,
    pub upload: Target,
    pub steps: Vec<Step>,
    /// Whether the field of view comes from the correction stage rather
    /// than from the shared default.
    pub fov_from_correction: bool,
    /// The projection pass, when the display mode is stereo.
    pub projection: Option<ProjectionPlan>,
}

pub struct FramePlanView {
    pub capture: bool,
    pub upload: Target,
    pub steps: Seq<Step>,
    pub fov_from_correction: bool,
    pub projection: Option<ProjectionPlan>,
}

impl View for FramePlan {
    type V = FramePlanView;

    open spec fn view(&self) -> FramePlanView {
        FramePlanView {
            capture: self.capture,
            upload: self.upload,
            steps: self.steps@,
            fov_from_correction: self.fov_from_correction,
            projection: self.projection,
        }
    }
}

/// The stages that a configuration turns on, in running order.
pub open spec fn stage_list(convert: bool, correct: bool, project: bool) -> Seq<StageKind> {
    (if convert {
        seq![StageKind::Convert]
    } else {
        Seq::empty()
    }) + (if correct {
        seq![StageKind::Correct]
    } else {
        Seq::empty()
    }) + (if project {
        seq![StageKind::Project]
    } else {
        Seq::empty()
    })
}

/// Position of a stage kind in the fixed running order.
pub open spec fn stage_rank(kind: StageKind) -> int {
    match kind {
        StageKind::Convert => 0,
        StageKind::Correct => 1,
        StageKind::Project => 2,
    }
}

/// The `k`-th of `n` stages reads ping-pong texture `k % 2` and writes the
/// other one, except the last, which writes the output.
pub open spec fn step_spec(kind: StageKind, k: int, n: int) -> Step {
    Step {
        kind: kind,
        source: Target::Intermediate((k % 2) as usize),
        destination: if k + 1 == n {
            Target::Output
        } else {
            Target::Intermediate(((k + 1) % 2) as usize)
        },
    }
}

pub open spec fn steps_spec(stages: Seq<StageKind>) -> Seq<Step> {
    Seq::new(stages.len(), |k: int| step_spec(stages[k], k, stages.len() as int))
}

/// Where the input bytes go: the first ping-pong texture, or straight into
/// the output when no stage is configured.
pub open spec fn upload_target_spec(n: nat) -> Target {
    if n == 0 {
        Target::Output
    } else {
        Target::Intermediate(0)
    }
}

/// The pipeline as the caller sees it.
pub struct PipelineView {
    pub device: DeviceId,
    pub convert: bool,
    pub correct: bool,
    pub projection_mode: Option<ProjectionMode>,
    /// Index of the ping-pong texture after the last configured stage.
    pub parity: nat,
    pub capture: bool,
    pub ipd_um: u32,
}

impl PipelineView {
    pub open spec fn stages(self) -> Seq<StageKind> {
        stage_list(self.convert, self.correct, self.projection_mode is Some)
    }

    /// Camera frames are packed 4:2:2 when a conversion stage exists, RGBA
    /// otherwise.
    pub open spec fn source_layout(self) -> PixelLayout {
        if self.convert {
            PixelLayout::Packed422
        } else {
            PixelLayout::Rgba
        }
    }

    pub open spec fn with_capture(self) -> PipelineView {
        PipelineView { capture: true, ..self }
    }

    pub open spec fn after_run(self) -> PipelineView {
        PipelineView { capture: false, ..self }
    }

    pub open spec fn with_ipd(self, ipd_um: u32) -> PipelineView {
        PipelineView { ipd_um: ipd_um, ..self }
    }

    /// The outcome of checking a frame against this pipeline.
    pub open spec fn frame_check(
        self,
        queue: DeviceId,
        input_len: usize,
        output_width: u32,
        output_height: u32,
    ) -> Result<(), FrameError> {
        frame_check_spec(
            self.device,
            self.source_layout(),
            FRAME_WIDTH,
            CAMERA_SIZE,
            queue,
            input_len,
            output_width,
            output_height,
        )
    }

    /// The plan of the next frame.
    pub open spec fn plan(self) -> FramePlanView {
        FramePlanView {
            capture: self.capture,
            upload: upload_target_spec(self.stages().len()),
            steps: steps_spec(self.stages()),
            fov_from_correction: self.correct,
            projection: match self.projection_mode {
                Some(mode) => Some(projection_plan_spec(FRAME_WIDTH, CAMERA_SIZE, mode, self.ipd_um)),
                None => None,
            },
        }
    }
}

/// The frame-processing pipeline: its configured stages, the IPD, and the
/// single-shot debug-capture request.
pub struct Pipeline {
    device: DeviceId,
    yuv: Option<YuyvConverter>,
    correction: bool,
    projection: Option<Projection>,
    texture_id: usize,
    capture: bool,
    ipd_um: u32,
}

impl View for Pipeline {
    type V = PipelineView;

    closed spec fn view(&self) -> PipelineView {
        PipelineView {
            device: self.device,
            convert: self.yuv is Some,
            correct: self.correction,
            projection_mode: match self.projection {
                Some(p) => Some(p.spec_mode()),
                None => None,
            },
            parity: self.texture_id as nat,
            capture: self.capture,
            ipd_um: self.ipd_um,
        }
    }
}

fn step(kind: StageKind, k: usize, n: usize) -> (r: Step)
    requires
        k < n,
    ensures
        r == step_spec(kind, k as int, n as int),
{
    let destination = if k + 1 == n {
        Target::Output
    } else {
        Target::Intermediate((k + 1) % 2)
    };
    Step { kind, source: Target::Intermediate(k % 2), destination }
}

impl Pipeline {
    /// Stages and textures are consistent with the configuration: the parity
    /// follows the number of stages and every stage works on side-by-side
    /// camera frames of the pipeline's device.
    pub closed spec fn wf(&self) -> bool {
        &&& self.texture_id == self@.stages().len() % 2
        &&& self.yuv matches Some(c) ==> c.wf() && c.spec_device() == self.device
            && c.spec_width() == FRAME_WIDTH && c.spec_height() == CAMERA_SIZE
        &&& self.projection matches Some(p) ==> p.wf() && p.spec_width() == FRAME_WIDTH
            && p.spec_height() == CAMERA_SIZE
    }

    /// Configures the stages: conversion when the camera delivers packed
    /// 4:2:2, correction when a calibration is present, projection in stereo
    /// mode. Each added stage flips the ping-pong parity.
    pub fn new(
        device: DeviceId,
        source_is_yuv: bool,
        display_mode: DisplayMode,
        ipd_um: u32,
        has_calibration: bool,
    ) -> (r: Pipeline)
        ensures
            r.wf(),
            r@.device == device,
            r@.convert == source_is_yuv,
            r@.correct == has_calibration,
            r@.projection_mode == match display_mode {
                DisplayMode::Mono => None,
                DisplayMode::Stereo { projection_mode } => Some(projection_mode),
            },
            r@.parity == r@.stages().len() % 2,
            !r@.capture,
            r@.ipd_um == ipd_um,
    {
        let mut texture_id: usize = 0;
        let yuv = if source_is_yuv {
            texture_id = 1 - texture_id;
            match YuyvConverter::new(device, FRAME_WIDTH, CAMERA_SIZE) {
                Ok(c) => Some(c),
                Err(_) => {
                    proof {
                        assert(false);
                    }
                    None
                },
            }
        } else {
            None
        };
        if has_calibration {
            texture_id = 1 - texture_id;
        }
        let projection = match display_mode {
            DisplayMode::Mono => None,
            DisplayMode::Stereo { projection_mode } => {
                texture_id = 1 - texture_id;
                match Projection::new(FRAME_WIDTH, CAMERA_SIZE, projection_mode) {
                    Ok(p) => Some(p),
                    Err(_) => {
                        proof {
                            assert(false);
                        }
                        None
                    },
                }
            },
        };
        let r = Pipeline {
            device,
            yuv,
            correction: has_calibration,
            projection,
            texture_id,
            capture: false,
            ipd_um,
        };
        assert(r@.stages().len() == (if source_is_yuv { 1int } else { 0 }) + (if has_calibration {
            1int
        } else {
            0
        }) + (if projection is Some { 1int } else { 0 }));
        r
    }

    /// The configured stages in running order, with the texture each one
    /// reads and writes.
    pub fn steps(&self) -> (r: Vec<Step>)
        requires
            self.wf(),
        ensures
            r@ == steps_spec(self@.stages()),
    {
        let ghost stages = self@.stages();
        let n: usize = (if self.yuv.is_some() { 1usize } else { 0 }) + (if self.correction {
            1usize
        } else {
            0
        }) + (if self.projection.is_some() { 1usize } else { 0 });
        assert(n == stages.len());
        let mut steps: Vec<Step> = Vec::new();
        let mut k: usize = 0;
        if self.yuv.is_some() {
            steps.push(step(StageKind::Convert, k, n));
            k = k + 1;
        }
        if self.correction {
            steps.push(step(StageKind::Correct, k, n));
            k = k + 1;
        }
        if self.projection.is_some() {
            steps.push(step(StageKind::Project, k, n));
        }
        assert(steps@ =~= steps_spec(stages));
        steps
    }

    pub fn device(&self) -> (r: DeviceId)
        ensures
            r == self@.device,
    {
        self.device
    }

    /// The layout camera frames must have.
    pub fn source_layout(&self) -> (r: PixelLayout)
        ensures
            r == self@.source_layout(),
    {
        if self.yuv.is_some() {
            PixelLayout::Packed422
        } else {
            PixelLayout::Rgba
        }
    }

    pub fn has_correction(&self) -> (r: bool)
        ensures
            r == self@.correct,
    {
        self.correction
    }

    pub fn projection_mode(&self) -> (r: Option<ProjectionMode>)
        ensures
            r == self@.projection_mode,
    {
        match &self.projection {
            Some(p) => Some(p.mode()),
            None => None,
        }
    }

    /// Index of the ping-pong texture after the last configured stage.
    pub fn parity(&self) -> (r: usize)
        requires
            self.wf(),
        ensures
            r == self@.parity,
            r == self@.stages().len() % 2,
    {
        self.texture_id
    }

    pub fn ipd_um(&self) -> (r: u32)
        ensures
            r == self@.ipd_um,
    {
        self.ipd_um
    }

    pub fn capture_requested(&self) -> (r: bool)
        ensures
            r == self@.capture,
    {
        self.capture
    }

    /// Asks for a debug capture around the next frame only.
    pub fn capture_next_frame(&mut self)
        requires
            old(self).wf(),
        ensures
            final(self).wf(),
            final(self)@ == old(self)@.with_capture(),
    {
        self.capture = true;
    }

    /// Sets the IPD, in micrometres, that later frames are projected with.
    pub fn set_ipd(&mut self, ipd_um: u32)
        requires
            old(self).wf(),
        ensures
            final(self).wf(),
            final(self)@ == old(self)@.with_ipd(ipd_um),
    {
        self.ipd_um = ipd_um;
    }

    /// Plans one frame of `input_len` bytes, to be written into an output
    /// texture of the given size through a queue of device `queue`.
    ///
    /// The capture request is consumed whatever the outcome: a frame that
    /// is refused, or fails later on the GPU, still clears it.
    pub fn run(
        &mut self,
        queue: DeviceId,
        input_len: usize,
        output_width: u32,
        output_height: u32,
    ) -> (r: Result<FramePlan, FrameError>)
        requires
            old(self).wf(),
        ensures
            final(self).wf(),
            final(self)@ == old(self)@.after_run(),
            r is Ok <==> old(self)@.frame_check(queue, input_len, output_width, output_height) is Ok,
            r matches Ok(plan) ==> plan@ == old(self)@.plan(),
            r matches Err(e) ==> old(self)@.frame_check(queue, input_len, output_width, output_height)
                == Err::<(), FrameError>(e),
    {
        let capture = self.capture;
        self.capture = false;
        let checked = match &self.yuv {
            Some(c) => c.check_frame(queue, input_len, output_width, output_height),
            None => check_frame(
                self.device,
                PixelLayout::Rgba,
                FRAME_WIDTH,
                CAMERA_SIZE,
                queue,
                input_len,
                output_width,
                output_height,
            ),
        };
        if let Err(e) = checked {
            return Err(e);
        }
        let steps = self.steps();
        let upload = if steps.len() == 0 {
            Target::Output
        } else {
            Target::Intermediate(0)
        };
        let projection = match &self.projection {
            Some(p) => Some(p.project(self.ipd_um)),
            None => None,
        };
        Ok(FramePlan { capture, upload, steps, fov_from_correction: self.correction, projection })
    }
}

/// Stages are never reordered or repeated: whatever the configuration, each
/// stage comes strictly after the ones that precede it in the fixed order
/// convert, correct, project.
pub proof fn lemma_stage_order(convert: bool, correct: bool, project: bool)
    ensures
        forall|i: int, j: int|
            0 <= i < j < stage_list(convert, correct, project).len() ==> stage_rank(
                #[trigger] stage_list(convert, correct, project)[i],
            ) < stage_rank(#[trigger] stage_list(convert, correct, project)[j]),
        stage_list(convert, correct, project).len() == (if convert { 1int } else { 0 }) + (
        if correct {
            1int
        } else {
            0
        }) + (if project { 1int } else { 0 }),
{
    let a: Seq<StageKind> = if convert { seq![StageKind::Convert] } else { Seq::empty() };
    let b: Seq<StageKind> = if correct { seq![StageKind::Correct] } else { Seq::empty() };
    let c: Seq<StageKind> = if project { seq![StageKind::Project] } else { Seq::empty() };
    let s = stage_list(convert, correct, project);
    assert(s == a + b + c);
    assert forall|i: int| 0 <= i < s.len() implies (i < a.len() ==> s[i] == StageKind::Convert) && (
    a.len() <= i < a.len() + b.len() ==> s[i] == StageKind::Correct) && (a.len() + b.len() <= i
        ==> s[i] == StageKind::Project) by {
        if i < a.len() {
            assert(s[i] == a[i]);
        } else if i < a.len() + b.len() {
            assert(s[i] == (a + b)[i]);
            assert((a + b)[i] == b[i - a.len()]);
        } else {
            assert(s[i] == c[i - a.len() - b.len()]);
        }
    }
}

/// With N stages configured, the stages form one chain: the first reads the
/// texture the frame is uploaded into, each later one reads what the one
/// before wrote, ping-pong textures alternate so that stage `k` reads
/// texture `k mod 2`, and the last stage writes the caller's output, which
/// no earlier stage touches.
pub proof fn lemma_chain_ends_at_output(stages: Seq<StageKind>)
    requires
        stages.len() > 0,
    ensures
        steps_spec(stages).len() == stages.len(),
        steps_spec(stages)[0].source == upload_target_spec(stages.len()),
        steps_spec(stages).last().destination == Target::Output,
        forall|k: int|
            0 <= k < stages.len() ==> (#[trigger] steps_spec(stages)[k]).kind == stages[k]
                && steps_spec(stages)[k].source == Target::Intermediate((k % 2) as usize),
        forall|k: int|
            0 <= k < stages.len() - 1 ==> (#[trigger] steps_spec(stages)[k]).destination
                != Target::Output && steps_spec(stages)[k].destination == steps_spec(stages)[k
                + 1].source,
{
}

/// After N stages are configured the parity is N mod 2, N counting the
/// conversion, correction and projection stages that are present, and the
/// last stage of every frame writes the output texture.
pub proof fn lemma_final_parity(v: PipelineView)
    requires
        v.parity == v.stages().len() % 2,
    ensures
        v.parity == ((if v.convert { 1int } else { 0 }) + (if v.correct { 1int } else { 0 }) + (
        if v.projection_mode is Some {
            1int
        } else {
            0
        })) % 2,
        v.stages().len() > 0 ==> v.plan().steps.last().destination == Target::Output,
{
    lemma_stage_order(v.convert, v.correct, v.projection_mode is Some);
    if v.stages().len() > 0 {
        lemma_chain_ends_at_output(v.stages());
    }
}

/// A capture request is consumed by exactly the next frame: that frame is
/// captured, the one after it is not, whether or not the first was refused.
pub proof fn lemma_capture_consumed_by_next_run(v: PipelineView)
    ensures
        v.with_capture().plan().capture,
        !v.with_capture().after_run().plan().capture,
        !v.with_capture().after_run().capture,
        v.with_capture().after_run() == v.after_run(),
{
}

/// With no stage configured a frame is an upload straight into the output:
/// nothing runs after it, and the RGBA bytes accepted are exactly those of
/// the output texture.
pub proof fn lemma_no_stage_is_upload_to_output(
    v: PipelineView,
    queue: DeviceId,
    input_len: usize,
    output_width: u32,
    output_height: u32,
)
    requires
        !v.convert,
        !v.correct,
        v.projection_mode is None,
    ensures
        v.stages().len() == 0,
        v.plan().upload == Target::Output,
        v.plan().steps.len() == 0,
        v.plan().projection is None,
        v.source_layout() == PixelLayout::Rgba,
        v.frame_check(queue, input_len, output_width, output_height) is Ok <==> queue == v.device
            && input_len == output_width * output_height * 4 && output_width == FRAME_WIDTH
            && output_height == CAMERA_SIZE,
{
    assert(v.stages() =~= Seq::<StageKind>::empty());
}

} // verus!
