//! The render orchestrator: deferred mutation staging and the per-frame
//! step.
//!
//! [`Renderer`] owns the orchestration state.  Mutators are non-blocking:
//! they only stage a change, and every one of them also stages a reset,
//! because samples accumulated under an old camera, scene or settings are
//! statistically wrong under the new one.  [`Renderer::render`] drains the
//! staged mutations in a fixed order, decides between overwriting and
//! reallocating each GPU buffer by comparing element counts, and emits a
//! [`FramePlan`] with the frame's GPU work.  Its contract ties state and
//! plan exactly to the model transition in [`crate::model`].

use crate::camera::Camera;
use crate::environment::Environment;
use crate::extent::{workgroups_2d, Extent};
use crate::frame::{BufferUpdate, DispatchPlan, FramePlan, InitPlan};
use crate::geometry::{gpu_materials, gpu_triangles, gpu_vertices, Geometry};
use crate::model::{
    effective_geometry,
    no_pending,
    renderer_model_wf,
    step_plan,
    step_state,
    PendingModel,
    RendererModel,
    WORKGROUP_HEIGHT,
    WORKGROUP_WIDTH,
};
use crate::settings::{
    effective_settings,
    settings_uniform_of,
    PerRenderUniform,
    RendererSettings,
    SettingsUniform,
};
use vstd::prelude::*;

verus! {

/// The staged mutations: at most one pending value per kind, each consumed
/// at the start of the next frame; staging again before then overwrites.
struct PreRenderCommands {
    reset: bool,
    resize: Option<Extent>,
    update_settings: Option<RendererSettings>,
    update_camera: Option<Camera>,
    update_geometry: Option<Geometry>,
}

/// The progressive render orchestrator.
///
/// It tracks the extent of the images, the applied sampling budget, the
/// running sample count, the element counts of the three scene storage
/// buffers, and the staged mutations.  The GPU resources themselves live
/// with the unverified driver, which executes the plans this type emits.
pub struct Renderer {
    size: Extent,
    max_samples: u32,
    samples_per_render: u32,
    num_samples: u32,
    pre_render_cmds: PreRenderCommands,
    materials_len: usize,
    vertices_len: usize,
    triangles_len: usize,
}

impl View for Renderer {
    type V = RendererModel;

    closed spec fn view(&self) -> RendererModel {
        RendererModel {
            size: self.size,
            max_samples: self.max_samples,
            samples_per_render: self.samples_per_render,
            sample_count: self.num_samples,
            materials_len: self.materials_len as nat,
            vertices_len: self.vertices_len as nat,
            triangles_len: self.triangles_len as nat,
            pending: PendingModel {
                reset: self.pre_render_cmds.reset,
                resize: self.pre_render_cmds.resize,
                settings: self.pre_render_cmds.update_settings,
                camera: self.pre_render_cmds.update_camera,
                geometry: match self.pre_render_cmds.update_geometry {
                    Some(g) => Some(g@),
                    None => None,
                },
            },
        }
    }
}

impl Renderer {
    /// Well-formedness of the orchestration state; see
    /// [`renderer_model_wf`].
    pub open spec fn wf(&self) -> bool {
        renderer_model_wf(self@)
    }

    /// Samples accumulated per pixel so far.
    pub fn sample_count(&self) -> (r: u32)
        ensures
            r == self@.sample_count,
    {
        self.num_samples
    }

    /// Extent of the accumulation and output images.
    pub fn size(&self) -> (r: Extent)
        ensures
            r == self@.size,
    {
        self.size
    }

    /// Build the orchestration state for an initial extent, settings,
    /// camera, environment and scene, validating each caller-supplied value
    /// and substituting defaults for invalid ones.  Returns the state and
    /// the [`InitPlan`] from which the driver creates the initial GPU
    /// resources.
    pub fn new(
        size: Extent,
        settings: RendererSettings,
        camera: Camera,
        environment: Environment,
        geometry: Geometry,
    ) -> (r: (Renderer, InitPlan))
        requires
            size.width >= 1,
            size.height >= 1,
        ensures
            r.0@ =~~= (RendererModel {
                size,
                max_samples: effective_settings(settings).max_samples,
                samples_per_render: effective_settings(settings).samples_per_render,
                sample_count: 0,
                materials_len: effective_geometry(geometry@).materials.len(),
                vertices_len: effective_geometry(geometry@).vertices.len(),
                triangles_len: effective_geometry(geometry@).triangles.len(),
                pending: no_pending(),
            }),
            r.0.wf(),
            r.1.settings_uniform == settings_uniform_of(effective_settings(settings)),
            r.1.per_render_uniform == (PerRenderUniform {
                num_samples: 0,
                current_time: 0,
                pad0: [0u32, 0u32],
            }),
            r.1.camera == crate::camera::effective_camera(camera),
            environment.spec_valid() ==> r.1.environment == environment,
            !environment.spec_valid() ==> r.1.environment.is_spec_default(),
            r.1.materials@ == effective_geometry(geometry@).materials.map_values(
                |x: crate::geometry::Material| crate::geometry::gpu_material_of(x),
            ),
            r.1.vertices@ == effective_geometry(geometry@).vertices.map_values(
                |x: crate::geometry::Vertex| crate::geometry::gpu_vertex_of(x),
            ),
            r.1.triangles@ == effective_geometry(geometry@).triangles.map_values(
                |x: crate::geometry::Triangle| crate::geometry::gpu_triangle_of(x),
            ),
    {
        let settings = if settings.validate() {
            settings
        } else {
            RendererSettings::default()
        };
        let camera = if camera.validate() {
            camera
        } else {
            Camera::default()
        };
        let environment = if environment.validate() {
            environment
        } else {
            Environment::default()
        };
        let geometry = if geometry.validate() {
            geometry
        } else {
            Geometry::default()
        };
        let materials = gpu_materials(&geometry.materials);
        let vertices = gpu_vertices(&geometry.vertices);
        let triangles = gpu_triangles(&geometry.triangles);
        let renderer = Renderer {
            size,
            max_samples: settings.max_samples,
            samples_per_render: settings.samples_per_render,
            num_samples: 0,
            pre_render_cmds: PreRenderCommands {
                reset: false,
                resize: None,
                update_settings: None,
                update_camera: None,
                update_geometry: None,
            },
            materials_len: materials.len(),
            vertices_len: vertices.len(),
            triangles_len: triangles.len(),
        };
        let init = InitPlan {
            settings_uniform: SettingsUniform::from_settings(&settings),
            per_render_uniform: PerRenderUniform { num_samples: 0, current_time: 0, pad0: [0, 0] },
            camera,
            environment,
            materials,
            vertices,
            triangles,
        };
        (renderer, init)
    }

    /// Stage a restart of accumulation: the next frame clears the
    /// accumulation input image and zeroes the sample count before any new
    /// dispatch.
    pub fn reset(&mut self)
        ensures
            final(self)@ =~~= (RendererModel {
                pending: PendingModel { reset: true, ..old(self)@.pending },
                ..old(self)@
            }),
    {
        self.pre_render_cmds.reset = true;
    }

    /// Stage a change of the output extent; also stages a reset, since
    /// per-pixel averages are meaningless at another size.
    pub fn resize(&mut self, new_size: Extent)
        ensures
            final(self)@ =~~= (RendererModel {
                pending: PendingModel { reset: true, resize: Some(new_size), ..old(self)@.pending },
                ..old(self)@
            }),
    {
        self.pre_render_cmds.reset = true;
        self.pre_render_cmds.resize = Some(new_size);
    }

    /// Stage new render settings; also stages a reset, since samples taken
    /// under other settings must not be mixed in.
    pub fn update_settings(&mut self, settings: RendererSettings)
        ensures
            final(self)@ =~~= (RendererModel {
                pending: PendingModel {
                    reset: true,
                    settings: Some(settings),
                    ..old(self)@.pending
                },
                ..old(self)@
            }),
    {
        self.pre_render_cmds.reset = true;
        self.pre_render_cmds.update_settings = Some(settings);
    }

    /// Stage a new camera; also stages a reset, since samples taken from
    /// another viewpoint are wrong for this one.
    pub fn update_camera(&mut self, camera: Camera)
        ensures
            final(self)@ =~~= (RendererModel {
                pending: PendingModel { reset: true, camera: Some(camera), ..old(self)@.pending },
                ..old(self)@
            }),
    {
        self.pre_render_cmds.reset = true;
        self.pre_render_cmds.update_camera = Some(camera);
    }

    /// Stage a new scene; also stages a reset, since samples of the old
    /// scene must not survive into the new one.
    pub fn update_geometry(&mut self, geometry: Geometry)
        ensures
            final(self)@ =~~= (RendererModel {
                pending: PendingModel {
                    reset: true,
                    geometry: Some(geometry@),
                    ..old(self)@.pending
                },
                ..old(self)@
            }),
    {
        self.pre_render_cmds.reset = true;
        self.pre_render_cmds.update_geometry = Some(geometry);
    }

    /// One frame step.
    ///
    /// Drains every staged mutation in the fixed order — reset, resize,
    /// settings, camera, geometry — deciding per scene buffer between an
    /// in-place write and a reallocation by element count, then plans one
    /// compute dispatch while the sample count is below the budget, and
    /// always plans the resolve pass.  `time_seed` seeds the dispatch's
    /// random sequences; the driver derives it from sub-second wall-clock
    /// time so repeated dispatches decorrelate.
    ///
    /// The state afterwards is exactly [`step_state`] of the state before,
    /// and the returned plan exactly [`step_plan`] of it.
    pub fn render(&mut self, time_seed: u32) -> (plan: FramePlan)
        requires
            old(self).wf(),
        ensures
            final(self).wf(),
            final(self)@ =~~= step_state(old(self)@),
            plan@ =~~= step_plan(old(self)@, time_seed),
    {
        let ghost m0 = self@;

        // Step 1: a staged reset restarts accumulation at zero samples and
        // clears the accumulation input image.
        let clear_accumulation = self.pre_render_cmds.reset;
        if self.pre_render_cmds.reset {
            self.num_samples = 0;
            self.pre_render_cmds.reset = false;
        }

        // Step 2: a staged resize recreates the images at the clamped
        // extent; old contents are intentionally lost.
        let staged_resize = self.pre_render_cmds.resize;
        self.pre_render_cmds.resize = None;
        let recreate_images = match staged_resize {
            Some(requested) => {
                let clamped = requested.clamped_to_min_one();
                self.size = clamped;
                Some(clamped)
            },
            None => None,
        };

        // Step 3: staged settings are validated (defaults on failure) and
        // overwrite the settings uniform in place; the budget fields apply
        // immediately to this frame's dispatch decision.
        let staged_settings = self.pre_render_cmds.update_settings;
        self.pre_render_cmds.update_settings = None;
        let settings_write = match staged_settings {
            Some(staged) => {
                let applied = if staged.validate() {
                    staged
                } else {
                    RendererSettings::default()
                };
                self.max_samples = applied.max_samples;
                self.samples_per_render = applied.samples_per_render;
                Some(SettingsUniform::from_settings(&applied))
            },
            None => None,
        };

        // Step 4: a staged camera is validated (default on failure) and
        // overwrites the camera uniform in place.
        let staged_camera = self.pre_render_cmds.update_camera;
        self.pre_render_cmds.update_camera = None;
        let camera_write = match staged_camera {
            Some(staged) => Some(
                if staged.validate() {
                    staged
                } else {
                    Camera::default()
                },
            ),
            None => None,
        };

        // Step 5: a staged scene is validated (placeholder on failure);
        // each of the three buffers is independently written in place when
        // its element count is unchanged and reallocated otherwise.
        let staged_geometry_cmd = self.pre_render_cmds.update_geometry.take();
        let mut buffer_reallocated = false;
        let (materials_update, vertices_update, triangles_update) = match staged_geometry_cmd {
            Some(staged) => {
                let applied = if staged.validate() {
                    staged
                } else {
                    Geometry::default()
                };
                let materials = gpu_materials(&applied.materials);
                let vertices = gpu_vertices(&applied.vertices);
                let triangles = gpu_triangles(&applied.triangles);
                let materials_update = if materials.len() == self.materials_len {
                    BufferUpdate::WriteInPlace(materials)
                } else {
                    self.materials_len = materials.len();
                    buffer_reallocated = true;
                    BufferUpdate::Reallocate(materials)
                };
                let vertices_update = if vertices.len() == self.vertices_len {
                    BufferUpdate::WriteInPlace(vertices)
                } else {
                    self.vertices_len = vertices.len();
                    buffer_reallocated = true;
                    BufferUpdate::Reallocate(vertices)
                };
                let triangles_update = if triangles.len() == self.triangles_len {
                    BufferUpdate::WriteInPlace(triangles)
                } else {
                    self.triangles_len = triangles.len();
                    buffer_reallocated = true;
                    BufferUpdate::Reallocate(triangles)
                };
                (materials_update, vertices_update, triangles_update)
            },
            None => (BufferUpdate::Keep, BufferUpdate::Keep, BufferUpdate::Keep),
        };

        // Step 6: stale descriptors are rebuilt when an image was recreated
        // or a buffer reallocated.
        let rebuild_bind_groups = recreate_images.is_some() || buffer_reallocated;

        // Step 7: while the budget is not exhausted, plan one dispatch and
        // advance the counter by one batch (overshoot is accepted; the
        // budget is advisory).
        let dispatch = if self.num_samples < self.max_samples {
            let per_render = PerRenderUniform {
                num_samples: self.num_samples,
                current_time: time_seed,
                pad0: [0, 0],
            };
            let workgroups = workgroups_2d(
                self.size,
                Extent { width: WORKGROUP_WIDTH, height: WORKGROUP_HEIGHT },
            );
            self.num_samples = self.num_samples.saturating_add(self.samples_per_render);
            Some(DispatchPlan { workgroups, per_render })
        } else {
            None
        };

        // Step 8: the resolve pass always runs.
        let plan = FramePlan {
            clear_accumulation,
            recreate_images,
            settings_write,
            camera_write,
            materials_update,
            vertices_update,
            triangles_update,
            rebuild_bind_groups,
            dispatch,
            resolve: true,
        };
        proof {
            assert(self@ =~~= step_state(m0));
            assert(plan@ =~~= step_plan(m0, time_seed));
        }
        plan
    }
}

} // verus!
