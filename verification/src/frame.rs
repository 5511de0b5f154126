//! Plans: the GPU work one frame requires.
//!
//! The verified orchestrator does not talk to a graphics device.  Each call
//! to [`crate::renderer::Renderer::render`] returns a [`FramePlan`] that
//! spells out, in order, everything the unverified driver must record into
//! the frame's command sequence: which images to clear or recreate, which
//! buffers to overwrite or reallocate, whether bind groups must be rebuilt,
//! and whether a compute dispatch runs.  Construction likewise yields an
//! [`InitPlan`] describing the initial resources.

use crate::camera::Camera;
use crate::environment::Environment;
use crate::extent::Extent;
use crate::geometry::{GpuMaterial, GpuTriangle, GpuVertex};
use crate::settings::{PerRenderUniform, SettingsUniform};
use vstd::prelude::*;

verus! {

/// What one frame does to one GPU buffer.
///
/// Overwriting a buffer whose allocation has the wrong element count is
/// undefined, so the orchestrator only ever emits `WriteInPlace` when the new
/// contents have exactly the element count of the current allocation, and
/// `Reallocate` otherwise.
#[derive(Clone, Debug, PartialEq, Eq)]
pub enum BufferUpdate<T> {
    /// Leave the buffer as it is.
    Keep,
    /// Overwrite the buffer's contents; the element count is unchanged.
    WriteInPlace(Vec<T>),
    /// Discard the buffer and allocate a new one with these contents.
    Reallocate(Vec<T>),
}

/// One compute-stage invocation: add a batch of samples to every pixel.
#[derive(Clone, Copy, Debug, PartialEq, Eq)]
pub struct DispatchPlan {
    /// Workgroups per axis, covering the current output extent.
    pub workgroups: Extent,
    /// Record to write into the per-render uniform buffer first.
    pub per_render: PerRenderUniform,
}

/// The GPU work of one frame, to be executed field by field in declaration
/// order.
#[derive(Clone, Debug, PartialEq, Eq)]
pub struct FramePlan {
    /// Zero the accumulation input image: every prior sample is discarded.
    pub clear_accumulation: bool,
    /// Recreate the accumulation and output images at this extent.
    pub recreate_images: Option<Extent>,
    /// Overwrite the settings uniform buffer with this record.
    pub settings_write: Option<SettingsUniform>,
    /// Overwrite the camera uniform buffer from this camera (the driver
    /// derives the matrix record the kernel reads).
    pub camera_write: Option<Camera>,
    /// Apply to the material storage buffer.
    pub materials_update: BufferUpdate<GpuMaterial>,
    /// Apply to the vertex storage buffer.
    pub vertices_update: BufferUpdate<GpuVertex>,
    /// Apply to the triangle storage buffer.
    pub triangles_update: BufferUpdate<GpuTriangle>,
    /// Rebuild every bind group that refers to a recreated image or a
    /// reallocated buffer.
    pub rebuild_bind_groups: bool,
    /// Run one compute dispatch, then copy the accumulation output image
    /// back over the accumulation input image (the ping-pong step).
    pub dispatch: Option<DispatchPlan>,
    /// Run the resolve pass, presenting the best image accumulated so far.
    /// Every frame resolves, even when the dispatch was skipped.
    pub resolve: bool,
}

/// The initial GPU resources construction requires: create the three images
/// at the initial extent, upload these records, then build bind groups.
#[derive(Clone, Debug, PartialEq, Eq)]
pub struct InitPlan {
    /// Initial contents of the settings uniform buffer.
    pub settings_uniform: SettingsUniform,
    /// Initial contents of the per-render uniform buffer.
    pub per_render_uniform: PerRenderUniform,
    /// Camera to derive the initial camera uniform record from.
    pub camera: Camera,
    /// Environment map to upload as the environment texture.
    pub environment: Environment,
    /// Initial contents of the material storage buffer.
    pub materials: Vec<GpuMaterial>,
    /// Initial contents of the vertex storage buffer.
    pub vertices: Vec<GpuVertex>,
    /// Initial contents of the triangle storage buffer.
    pub triangles: Vec<GpuTriangle>,
}

} // verus!
