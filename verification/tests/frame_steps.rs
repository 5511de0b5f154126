//! Frame-step behaviour: sample budget, reset, dispatch parameters.

use light_raytracer::camera::Camera;
use light_raytracer::environment::Environment;
use light_raytracer::extent::Extent;
use light_raytracer::geometry::Geometry;
use light_raytracer::renderer::Renderer;
use light_raytracer::settings::RendererSettings;

fn renderer_with(samples_per_render: u32, max_samples: u32) -> Renderer {
    let settings = RendererSettings {
        samples_per_render,
        max_samples,
        max_ray_depth: 10,
        furnace_test: false,
    };
    let (renderer, _init) = Renderer::new(
        Extent::new(8, 8),
        settings,
        Camera::default(),
        Environment::default(),
        Geometry::default(),
    );
    renderer
}

#[test]
fn sample_count_sequence_with_overshoot() {
    let mut r = renderer_with(4, 10);
    assert_eq!(r.sample_count(), 0);
    let p1 = r.render(1);
    assert!(p1.dispatch.is_some());
    assert_eq!(r.sample_count(), 4);
    let p2 = r.render(2);
    assert!(p2.dispatch.is_some());
    assert_eq!(r.sample_count(), 8);
    let p3 = r.render(3);
    assert!(p3.dispatch.is_some());
    assert_eq!(r.sample_count(), 12);
    let p4 = r.render(4);
    assert!(p4.dispatch.is_none());
    assert!(p4.resolve);
    assert_eq!(r.sample_count(), 12);
}

#[test]
fn budget_reached_only_resolves() {
    let mut r = renderer_with(4, 10);
    for seed in 0..3 {
        r.render(seed);
    }
    assert!(r.sample_count() >= 10);
    for seed in 0..5 {
        let p = r.render(seed);
        assert!(p.dispatch.is_none());
        assert!(p.resolve);
        assert_eq!(r.sample_count(), 12);
    }
}

#[test]
fn consumed_reset_zeroes_sample_count() {
    let mut r = renderer_with(4, 10);
    r.render(1);
    r.render(2);
    assert_eq!(r.sample_count(), 8);
    r.reset();
    let p = r.render(3);
    assert!(p.clear_accumulation);
    let d = p.dispatch.expect("a reset restarts sampling, so a dispatch runs");
    assert_eq!(d.per_render.num_samples, 0);
    assert_eq!(r.sample_count(), 4);
}

#[test]
fn dispatch_reports_prior_sample_count() {
    let mut r = renderer_with(3, 100);
    let d1 = r.render(0).dispatch.unwrap();
    assert_eq!(d1.per_render.num_samples, 0);
    let d2 = r.render(0).dispatch.unwrap();
    assert_eq!(d2.per_render.num_samples, 3);
    let d3 = r.render(0).dispatch.unwrap();
    assert_eq!(d3.per_render.num_samples, 6);
}

#[test]
fn dispatch_seed_is_passed_through() {
    let mut r = renderer_with(1, 10);
    let p = r.render(123456);
    assert_eq!(p.dispatch.unwrap().per_render.current_time, 123456);
}

#[test]
fn dispatch_covers_extent_with_16x16_groups() {
    let settings = RendererSettings {
        samples_per_render: 1,
        max_samples: 10,
        max_ray_depth: 10,
        furnace_test: false,
    };
    let (mut r, _init) = Renderer::new(
        Extent::new(1920, 1080),
        settings,
        Camera::default(),
        Environment::default(),
        Geometry::default(),
    );
    let d = r.render(0).dispatch.unwrap();
    assert_eq!(d.workgroups, Extent::new(120, 68));
}

#[test]
fn quiet_frame_plans_no_work_but_sampling() {
    let mut r = renderer_with(1, 10);
    let p = r.render(0);
    assert!(!p.clear_accumulation);
    assert_eq!(p.recreate_images, None);
    assert_eq!(p.settings_write, None);
    assert_eq!(p.camera_write, None);
    assert!(!p.rebuild_bind_groups);
    assert!(p.dispatch.is_some());
    assert!(p.resolve);
}

#[test]
fn sample_counter_saturates_instead_of_wrapping() {
    let mut r = renderer_with(u32::MAX, u32::MAX);
    r.render(0);
    assert_eq!(r.sample_count(), u32::MAX);
    let p = r.render(1);
    assert!(p.dispatch.is_none());
    assert_eq!(r.sample_count(), u32::MAX);
}
