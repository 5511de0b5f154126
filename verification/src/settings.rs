//! Render settings and the uniform records uploaded each frame.

use vstd::prelude::*;

verus! {

/// Caller-tunable parameters of progressive sampling.
///
/// Invalid settings — any count of zero — are never applied: the orchestrator
/// substitutes the defaults wholesale rather than clamping fields in place.
#[derive(Clone, Copy, Debug, PartialEq, Eq, Structural)]
pub struct RendererSettings {
    /// Samples added per pixel by one compute dispatch; strictly positive.
    pub samples_per_render: u32,
    /// Sample budget at which refinement stops; strictly positive.
    pub max_samples: u32,
    /// Bounce limit of the sampling kernel; strictly positive.
    pub max_ray_depth: u32,
    /// Render the diagnostic furnace scene instead of the real environment.
    pub furnace_test: bool,
}

impl RendererSettings {
    /// Settings are usable when every count is strictly positive.
    pub open spec fn spec_valid(self) -> bool {
        self.samples_per_render > 0 && self.max_ray_depth > 0 && self.max_samples > 0
    }

    /// The default settings: one sample per frame, a budget of 1000, ten
    /// bounces, no furnace test.
    pub open spec fn spec_default() -> RendererSettings {
        RendererSettings {
            samples_per_render: 1,
            max_samples: 1000,
            max_ray_depth: 10,
            furnace_test: false,
        }
    }

    /// Decide whether these settings may be applied.
    pub fn validate(&self) -> (r: bool)
        ensures
            r == self.spec_valid(),
    {
        self.samples_per_render > 0 && self.max_ray_depth > 0 && self.max_samples > 0
    }
}

impl Default for RendererSettings {
    /// The settings substituted for invalid ones.
    fn default() -> (r: RendererSettings)
        ensures
            r == RendererSettings::spec_default(),
            r.spec_valid(),
    {
        RendererSettings {
            samples_per_render: 1,
            max_samples: 1000,
            max_ray_depth: 10,
            furnace_test: false,
        }
    }
}

/// The settings a staged value is applied as: itself when valid, the
/// defaults otherwise.
pub open spec fn effective_settings(s: RendererSettings) -> RendererSettings {
    if s.spec_valid() {
        s
    } else {
        RendererSettings::spec_default()
    }
}

/// The uniform-buffer record of the applied settings, as the GPU kernel
/// declares it; `max_samples` stays host-side, since only the orchestrator
/// enforces the budget.
#[derive(Clone, Copy, Debug, PartialEq, Eq, Structural)]
pub struct SettingsUniform {
    pub samples_per_render: u32,
    pub max_ray_depth: u32,
    /// The furnace-test flag widened to 32 bits: 1 when set, else 0.
    pub furnace_test: u32,
    pub pad0: u32,
}

/// The uniform record that uploading `s` produces.
pub open spec fn settings_uniform_of(s: RendererSettings) -> SettingsUniform {
    SettingsUniform {
        samples_per_render: s.samples_per_render,
        max_ray_depth: s.max_ray_depth,
        furnace_test: if s.furnace_test {
            1u32
        } else {
            0u32
        },
        pad0: 0u32,
    }
}

impl SettingsUniform {
    /// Lay applied settings out for the settings uniform buffer.
    pub fn from_settings(s: &RendererSettings) -> (r: SettingsUniform)
        ensures
            r == settings_uniform_of(*s),
    {
        SettingsUniform {
            samples_per_render: s.samples_per_render,
            max_ray_depth: s.max_ray_depth,
            furnace_test: if s.furnace_test {
                1
            } else {
                0
            },
            pad0: 0,
        }
    }
}

/// The uniform-buffer record rewritten before every compute dispatch.
#[derive(Clone, Copy, Debug, PartialEq, Eq)]
pub struct PerRenderUniform {
    /// Samples already accumulated per pixel when the dispatch starts.
    pub num_samples: u32,
    /// Seed for this dispatch's random sequences; the driver derives it from
    /// sub-second wall-clock time so consecutive dispatches decorrelate.
    pub current_time: u32,
    pub pad0: [u32; 2],
}

} // verus!
