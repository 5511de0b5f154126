//! Progressive path-tracing render orchestration.
//!
//! A progressive renderer refines one image over many frames: each frame adds
//! a batch of stochastic samples per pixel to a running average held in an
//! accumulation image.  The hard part is not the sampling kernel (that runs on
//! the GPU and is a collaborator of this crate) but deciding, frame by frame,
//! what work must run and which resources must be rebuilt so that the average
//! stays statistically meaningful:
//!
//! * any change to the camera, the scene or the render settings invalidates
//!   every sample taken so far and must restart accumulation;
//! * GPU buffers and images must be reallocated only when their element count
//!   or extent actually changes, and bind groups referring to them must then
//!   be rebuilt;
//! * sampling stops once a sample budget is reached, while the resolve pass
//!   that presents the best image so far keeps running.
//!
//! This crate is that decision engine, verified.  [`renderer::Renderer`]
//! holds the orchestration state, mutators stage deferred changes, and
//! [`renderer::Renderer::render`] drains them and returns a
//! [`frame::FramePlan`]: a complete description of the GPU work for one
//! frame.  A thin unverified driver owns the device, executes plans in order,
//! and feeds window events back in as staged mutations.

pub use camera::Camera;
pub use environment::Environment;
pub use geometry::{Geometry, Material, Triangle, Vertex};
pub use renderer::Renderer;
pub use settings::RendererSettings;

pub mod camera;
pub mod environment;
pub mod extent;
pub mod f32bits;
pub mod frame;
pub mod geometry;
pub mod laws;
pub mod model;
pub mod renderer;
pub mod settings;
