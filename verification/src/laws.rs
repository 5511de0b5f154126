//! Laws of the frame transition, stated and proved once for every state.
//!
//! Each law is a public proof function over the model in [`crate::model`].
//! Because [`crate::renderer::Renderer::render`] ensures that its state and
//! plan are exactly [`step_state`] and [`step_plan`] of the prior state,
//! every law holds verbatim of the executable orchestrator, for every
//! sequence of mutator calls interleaved with frame steps.

use crate::extent::Extent;
use crate::model::{
    applied_samples_per_render,
    drained_state,
    geometry_model_valid,
    no_pending,
    renderer_model_wf,
    step_plan,
    step_state,
    will_dispatch,
    GeometryModel,
    RendererModel,
    UpdateModel,
};
use crate::settings::{settings_uniform_of, RendererSettings};
use vstd::prelude::*;

verus! {

/// A frame step that consumes a staged reset leaves no trace of earlier
/// samples: immediately after the mutation phase the sample count is
/// exactly zero, any dispatch issued this frame starts accumulating from
/// zero samples, and the count afterwards holds only this frame's fresh
/// batch.  On a well-formed state the budget is positive, so that dispatch
/// does run.
pub proof fn lemma_reset_restarts_accumulation(m: RendererModel, time_seed: u32)
    requires
        m.pending.reset,
    ensures
        drained_state(m).sample_count == 0,
        step_plan(m, time_seed).dispatch matches Some(d) ==> d.per_render.num_samples == 0,
        will_dispatch(m) ==> step_state(m).sample_count == applied_samples_per_render(m),
        !will_dispatch(m) ==> step_state(m).sample_count == 0,
        renderer_model_wf(m) ==> will_dispatch(m),
{
}

/// Resizing to an extent whose clamp equals the current size still forces
/// the staged reset through, but does not change the images' pixel
/// dimensions: they are recreated at exactly the old extent.
pub proof fn lemma_resize_same_extent_keeps_size(m: RendererModel, e: Extent, time_seed: u32)
    requires
        m.pending.resize == Some(e),
        e.spec_clamped_to_min_one() == m.size,
    ensures
        step_state(m).size == m.size,
        step_plan(m, time_seed).recreate_images == Some(m.size),
{
}

/// A valid staged scene whose material, vertex and triangle counts all
/// equal the current buffers' element counts is applied by in-place writes
/// alone: no buffer is reallocated, the counts are unchanged, and — absent
/// a staged resize — no bind group is rebuilt.
pub proof fn lemma_matching_counts_rebuild_nothing(
    m: RendererModel,
    g: GeometryModel,
    time_seed: u32,
)
    requires
        m.pending.geometry == Some(g),
        geometry_model_valid(g),
        g.materials.len() == m.materials_len,
        g.vertices.len() == m.vertices_len,
        g.triangles.len() == m.triangles_len,
        m.pending.resize is None,
    ensures
        !step_plan(m, time_seed).rebuild_bind_groups,
        step_plan(m, time_seed).materials_update is WriteInPlace,
        step_plan(m, time_seed).vertices_update is WriteInPlace,
        step_plan(m, time_seed).triangles_update is WriteInPlace,
        step_state(m).materials_len == m.materials_len,
        step_state(m).vertices_len == m.vertices_len,
        step_state(m).triangles_len == m.triangles_len,
{
}

/// Staged settings with a zero ray-depth bound are never applied: the frame
/// applies and uploads the default settings instead of the invalid ones.
pub proof fn lemma_invalid_settings_fall_back(
    m: RendererModel,
    s: RendererSettings,
    time_seed: u32,
)
    requires
        m.pending.settings == Some(s),
        s.max_ray_depth == 0,
    ensures
        step_plan(m, time_seed).settings_write == Some(
            settings_uniform_of(RendererSettings::spec_default()),
        ),
        step_state(m).max_samples == RendererSettings::spec_default().max_samples,
        step_state(m).samples_per_render == RendererSettings::spec_default().samples_per_render,
{
}

/// Finished work is never redone: a frame step that does not consume a
/// reset never lowers the sample count, so refinement only progresses.
pub proof fn lemma_sample_count_never_drops_without_reset(m: RendererModel)
    requires
        !m.pending.reset,
    ensures
        step_state(m).sample_count >= m.sample_count,
{
}

/// A frame plan never asks for an in-place write of the wrong size:
/// whenever it carries `WriteInPlace` for a scene buffer, the records have
/// exactly the element count of the buffer they overwrite, and the step
/// leaves that count unchanged.  Overwriting a wrongly-sized allocation is
/// undefined, so this is what makes executing a plan safe.
pub proof fn lemma_write_in_place_matches_buffer_length(m: RendererModel, time_seed: u32)
    ensures
        step_plan(m, time_seed).materials_update matches UpdateModel::WriteInPlace(records) ==> {
            &&& records.len() == m.materials_len
            &&& step_state(m).materials_len == m.materials_len
        },
        step_plan(m, time_seed).vertices_update matches UpdateModel::WriteInPlace(records) ==> {
            &&& records.len() == m.vertices_len
            &&& step_state(m).vertices_len == m.vertices_len
        },
        step_plan(m, time_seed).triangles_update matches UpdateModel::WriteInPlace(records) ==> {
            &&& records.len() == m.triangles_len
            &&& step_state(m).triangles_len == m.triangles_len
        },
{
}

/// Once the sample count has reached the budget and nothing is staged, a
/// frame step issues no compute dispatch, still runs the resolve pass, and
/// leaves the state exactly as it was — so every subsequent frame step,
/// while nothing new is staged, does the same.
pub proof fn lemma_budget_reached_stops_dispatch(m: RendererModel, time_seed: u32)
    requires
        m.sample_count >= m.max_samples,
        m.pending == no_pending(),
    ensures
        step_plan(m, time_seed).dispatch is None,
        step_plan(m, time_seed).resolve,
        step_state(m) =~~= m,
{
}

} // verus!
