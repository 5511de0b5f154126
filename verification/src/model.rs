//! The mathematical model of the orchestrator and its frame transition.
//!
//! [`RendererModel`] abstracts the orchestration state: the output extent,
//! the sampling budget, the accumulated sample count, the element counts of
//! the three scene storage buffers, and the staged mutations.  The per-frame
//! algorithm is written out once, as the spec functions [`drained_state`],
//! [`step_state`] and [`step_plan`]; the executable
//! [`crate::renderer::Renderer`] is proved to follow them exactly, and the
//! laws in [`crate::laws`] are proved about them.

use crate::camera::{effective_camera, Camera};
use crate::extent::{spec_workgroups_2d, Extent};
use crate::frame::{BufferUpdate, DispatchPlan, FramePlan};
use crate::geometry::{
    gpu_material_of,
    gpu_triangle_of,
    gpu_vertex_of,
    triangle_references_ok,
    Geometry,
    GpuMaterial,
    GpuTriangle,
    GpuVertex,
    Material,
    Triangle,
    Vertex,
};
use crate::settings::{
    effective_settings,
    settings_uniform_of,
    PerRenderUniform,
    RendererSettings,
    SettingsUniform,
};
use vstd::prelude::*;

verus! {

/// Pixels per workgroup along x; fixed by the compute kernel.
pub const WORKGROUP_WIDTH: u32 = 16;

/// Pixels per workgroup along y; fixed by the compute kernel.
pub const WORKGROUP_HEIGHT: u32 = 16;

/// A scene as three mathematical sequences.
#[verifier::ext_equal]
pub ghost struct GeometryModel {
    pub materials: Seq<Material>,
    pub vertices: Seq<Vertex>,
    pub triangles: Seq<Triangle>,
}

impl View for Geometry {
    type V = GeometryModel;

    open spec fn view(&self) -> GeometryModel {
        GeometryModel {
            materials: self.materials@,
            vertices: self.vertices@,
            triangles: self.triangles@,
        }
    }
}

/// Whether every triangle of `g` refers only to vertices and materials that
/// exist; agrees with [`Geometry::spec_valid`] on the view.
pub open spec fn geometry_model_valid(g: GeometryModel) -> bool {
    forall|j: int|
        0 <= j < g.triangles.len() ==> triangle_references_ok(
            #[trigger] g.triangles[j],
            g.vertices.len(),
            g.materials.len(),
        )
}

/// The placeholder scene, at the model level.
pub open spec fn default_geometry_model() -> GeometryModel {
    GeometryModel {
        materials: Geometry::spec_default_materials(),
        vertices: Geometry::spec_default_vertices(),
        triangles: Geometry::spec_default_triangles(),
    }
}

/// The scene a staged value is applied as: itself when valid, the
/// placeholder otherwise.
pub open spec fn effective_geometry(g: GeometryModel) -> GeometryModel {
    if geometry_model_valid(g) {
        g
    } else {
        default_geometry_model()
    }
}

/// The staged mutations, drained at the start of the next frame.  Each field
/// holds at most one pending value; re-staging before a frame overwrites the
/// earlier value.
#[verifier::ext_equal]
pub ghost struct PendingModel {
    /// Restart accumulation from zero samples.
    pub reset: bool,
    /// Recreate the images at (the clamp of) this extent.
    pub resize: Option<Extent>,
    /// Apply these settings (after validation).
    pub settings: Option<RendererSettings>,
    /// Apply this camera (after validation).
    pub camera: Option<Camera>,
    /// Apply this scene (after validation).
    pub geometry: Option<GeometryModel>,
}

/// No mutation staged: the state every frame leaves behind.
pub open spec fn no_pending() -> PendingModel {
    PendingModel { reset: false, resize: None, settings: None, camera: None, geometry: None }
}

/// The orchestration state.
#[verifier::ext_equal]
pub ghost struct RendererModel {
    /// Extent of the accumulation and output images.
    pub size: Extent,
    /// Applied sample budget; strictly positive.
    pub max_samples: u32,
    /// Applied samples per dispatch; strictly positive.
    pub samples_per_render: u32,
    /// Samples accumulated per pixel so far.
    pub sample_count: u32,
    /// Element count of the material storage buffer.
    pub materials_len: nat,
    /// Element count of the vertex storage buffer.
    pub vertices_len: nat,
    /// Element count of the triangle storage buffer.
    pub triangles_len: nat,
    /// Mutations staged for the next frame.
    pub pending: PendingModel,
}

/// Well-formedness: the applied settings were validated, so both counts are
/// strictly positive, and the images exist, so the extent is at least 1 by
/// 1.  Constructors establish this and every frame preserves it.
pub open spec fn renderer_model_wf(m: RendererModel) -> bool {
    m.max_samples >= 1 && m.samples_per_render >= 1 && m.size.width >= 1 && m.size.height >= 1
}

/// The extent after the mutation phase: the staged resize, clamped, or the
/// old extent.
pub open spec fn applied_size(m: RendererModel) -> Extent {
    match m.pending.resize {
        Some(r) => r.spec_clamped_to_min_one(),
        None => m.size,
    }
}

/// The sample budget after the mutation phase.
pub open spec fn applied_max_samples(m: RendererModel) -> u32 {
    match m.pending.settings {
        Some(s) => effective_settings(s).max_samples,
        None => m.max_samples,
    }
}

/// The dispatch batch size after the mutation phase.
pub open spec fn applied_samples_per_render(m: RendererModel) -> u32 {
    match m.pending.settings {
        Some(s) => effective_settings(s).samples_per_render,
        None => m.samples_per_render,
    }
}

/// The scene applied this frame, already validated, if one was staged.
pub open spec fn staged_geometry(m: RendererModel) -> Option<GeometryModel> {
    match m.pending.geometry {
        Some(g) => Some(effective_geometry(g)),
        None => None,
    }
}

/// Material-buffer element count after the mutation phase.
pub open spec fn applied_materials_len(m: RendererModel) -> nat {
    match staged_geometry(m) {
        Some(g) => g.materials.len(),
        None => m.materials_len,
    }
}

/// Vertex-buffer element count after the mutation phase.
pub open spec fn applied_vertices_len(m: RendererModel) -> nat {
    match staged_geometry(m) {
        Some(g) => g.vertices.len(),
        None => m.vertices_len,
    }
}

/// Triangle-buffer element count after the mutation phase.
pub open spec fn applied_triangles_len(m: RendererModel) -> nat {
    match staged_geometry(m) {
        Some(g) => g.triangles.len(),
        None => m.triangles_len,
    }
}

/// The state immediately after a frame's mutation phase: every staged
/// mutation applied in order — reset, resize, settings, camera, geometry —
/// and the staging record drained, but no sampling done yet.  A consumed
/// reset leaves `sample_count` at exactly 0 here.
pub open spec fn drained_state(m: RendererModel) -> RendererModel {
    RendererModel {
        size: applied_size(m),
        max_samples: applied_max_samples(m),
        samples_per_render: applied_samples_per_render(m),
        sample_count: if m.pending.reset {
            0u32
        } else {
            m.sample_count
        },
        materials_len: applied_materials_len(m),
        vertices_len: applied_vertices_len(m),
        triangles_len: applied_triangles_len(m),
        pending: no_pending(),
    }
}

/// Whether this frame runs a compute dispatch: only while the sample count
/// (after a consumed reset) is below the budget (after applied settings).
pub open spec fn will_dispatch(m: RendererModel) -> bool {
    drained_state(m).sample_count < drained_state(m).max_samples
}

/// `a + b`, saturating at the largest 32-bit value.  The sample counter
/// advances with this: the budget may be overshot by one batch, but the
/// counter never wraps back below the budget.
pub open spec fn saturating_add_u32(a: u32, b: u32) -> u32 {
    if a + b > u32::MAX {
        u32::MAX
    } else {
        (a + b) as u32
    }
}

/// The orchestration state one frame step leaves behind: the mutation phase
/// of [`drained_state`], then, if a dispatch ran, the sample counter
/// advanced by one batch.
pub open spec fn step_state(m: RendererModel) -> RendererModel {
    let d = drained_state(m);
    RendererModel {
        sample_count: if d.sample_count < d.max_samples {
            saturating_add_u32(d.sample_count, d.samples_per_render)
        } else {
            d.sample_count
        },
        ..d
    }
}

/// What one frame does to one scene buffer, at the model level.
#[verifier::ext_equal]
pub ghost enum UpdateModel<T> {
    Keep,
    WriteInPlace(Seq<T>),
    Reallocate(Seq<T>),
}

impl<T> View for BufferUpdate<T> {
    type V = UpdateModel<T>;

    open spec fn view(&self) -> UpdateModel<T> {
        match self {
            BufferUpdate::Keep => UpdateModel::Keep,
            BufferUpdate::WriteInPlace(v) => UpdateModel::WriteInPlace(v@),
            BufferUpdate::Reallocate(v) => UpdateModel::Reallocate(v@),
        }
    }
}

/// The frame's effect on the material storage buffer: written in place when
/// the element count is unchanged, reallocated otherwise.
pub open spec fn materials_update_of(m: RendererModel) -> UpdateModel<GpuMaterial> {
    match staged_geometry(m) {
        Some(g) => {
            let records = g.materials.map_values(|x: Material| gpu_material_of(x));
            if g.materials.len() == m.materials_len {
                UpdateModel::WriteInPlace(records)
            } else {
                UpdateModel::Reallocate(records)
            }
        },
        None => UpdateModel::Keep,
    }
}

/// The frame's effect on the vertex storage buffer.
pub open spec fn vertices_update_of(m: RendererModel) -> UpdateModel<GpuVertex> {
    match staged_geometry(m) {
        Some(g) => {
            let records = g.vertices.map_values(|x: Vertex| gpu_vertex_of(x));
            if g.vertices.len() == m.vertices_len {
                UpdateModel::WriteInPlace(records)
            } else {
                UpdateModel::Reallocate(records)
            }
        },
        None => UpdateModel::Keep,
    }
}

/// The frame's effect on the triangle storage buffer.
pub open spec fn triangles_update_of(m: RendererModel) -> UpdateModel<GpuTriangle> {
    match staged_geometry(m) {
        Some(g) => {
            let records = g.triangles.map_values(|x: Triangle| gpu_triangle_of(x));
            if g.triangles.len() == m.triangles_len {
                UpdateModel::WriteInPlace(records)
            } else {
                UpdateModel::Reallocate(records)
            }
        },
        None => UpdateModel::Keep,
    }
}

/// Whether the frame must rebuild bind groups: an image was recreated or a
/// buffer was reallocated, so descriptors hold stale handles.
pub open spec fn rebuild_of(m: RendererModel) -> bool {
    ||| m.pending.resize is Some
    ||| materials_update_of(m) is Reallocate
    ||| vertices_update_of(m) is Reallocate
    ||| triangles_update_of(m) is Reallocate
}

/// A frame plan, at the model level.
#[verifier::ext_equal]
pub ghost struct FramePlanModel {
    pub clear_accumulation: bool,
    pub recreate_images: Option<Extent>,
    pub settings_write: Option<SettingsUniform>,
    pub camera_write: Option<Camera>,
    pub materials_update: UpdateModel<GpuMaterial>,
    pub vertices_update: UpdateModel<GpuVertex>,
    pub triangles_update: UpdateModel<GpuTriangle>,
    pub rebuild_bind_groups: bool,
    pub dispatch: Option<DispatchPlan>,
    pub resolve: bool,
}

impl View for FramePlan {
    type V = FramePlanModel;

    open spec fn view(&self) -> FramePlanModel {
        FramePlanModel {
            clear_accumulation: self.clear_accumulation,
            recreate_images: self.recreate_images,
            settings_write: self.settings_write,
            camera_write: self.camera_write,
            materials_update: self.materials_update@,
            vertices_update: self.vertices_update@,
            triangles_update: self.triangles_update@,
            rebuild_bind_groups: self.rebuild_bind_groups,
            dispatch: self.dispatch,
            resolve: self.resolve,
        }
    }
}

/// The GPU work one frame step emits for the state `m` and dispatch seed
/// `time_seed`: exactly the per-frame algorithm, in its fixed order.
pub open spec fn step_plan(m: RendererModel, time_seed: u32) -> FramePlanModel {
    let d = drained_state(m);
    FramePlanModel {
        clear_accumulation: m.pending.reset,
        recreate_images: match m.pending.resize {
            Some(r) => Some(r.spec_clamped_to_min_one()),
            None => None,
        },
        settings_write: match m.pending.settings {
            Some(s) => Some(settings_uniform_of(effective_settings(s))),
            None => None,
        },
        camera_write: match m.pending.camera {
            Some(c) => Some(effective_camera(c)),
            None => None,
        },
        materials_update: materials_update_of(m),
        vertices_update: vertices_update_of(m),
        triangles_update: triangles_update_of(m),
        rebuild_bind_groups: rebuild_of(m),
        dispatch: if d.sample_count < d.max_samples {
            Some(
                DispatchPlan {
                    workgroups: spec_workgroups_2d(
                        d.size,
                        Extent { width: WORKGROUP_WIDTH, height: WORKGROUP_HEIGHT },
                    ),
                    per_render: PerRenderUniform {
                        num_samples: d.sample_count,
                        current_time: time_seed,
                        pad0: [0u32, 0u32],
                    },
                },
            )
        } else {
            None
        },
        resolve: true,
    }
}

} // verus!
