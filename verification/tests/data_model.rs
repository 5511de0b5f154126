//! The data types: validation predicates, defaults, GPU-layout records and
//! the bit-pattern representation of float scalars.

use light_raytracer::camera::Camera;
use light_raytracer::environment::Environment;
use light_raytracer::extent::{workgroups_2d, Extent};
use light_raytracer::geometry::{
    Geometry, GpuMaterial, GpuTriangle, GpuVertex, Material, Triangle, Vertex,
};
use light_raytracer::settings::{RendererSettings, SettingsUniform};

#[test]
fn extent_clamp_raises_zero_axes_to_one() {
    assert_eq!(Extent::new(0, 0).clamped_to_min_one(), Extent::new(1, 1));
    assert_eq!(Extent::new(0, 5).clamped_to_min_one(), Extent::new(1, 5));
    assert_eq!(Extent::new(5, 0).clamped_to_min_one(), Extent::new(5, 1));
    assert_eq!(Extent::new(5, 7).clamped_to_min_one(), Extent::new(5, 7));
}

#[test]
fn workgroup_counts_round_up() {
    let group = Extent::new(16, 16);
    assert_eq!(workgroups_2d(Extent::new(1920, 1080), group), Extent::new(120, 68));
    assert_eq!(workgroups_2d(Extent::new(1, 1), group), Extent::new(1, 1));
    assert_eq!(workgroups_2d(Extent::new(16, 16), group), Extent::new(1, 1));
    assert_eq!(workgroups_2d(Extent::new(17, 16), group), Extent::new(2, 1));
    assert_eq!(workgroups_2d(Extent::new(0, 0), group), Extent::new(0, 0));
    assert_eq!(workgroups_2d(Extent::new(5, 9), Extent::new(1, 2)), Extent::new(5, 5));
}

#[test]
fn settings_validation_requires_positive_counts() {
    assert!(RendererSettings::default().validate());
    let base = RendererSettings::default();
    assert!(!RendererSettings { samples_per_render: 0, ..base }.validate());
    assert!(!RendererSettings { max_samples: 0, ..base }.validate());
    assert!(!RendererSettings { max_ray_depth: 0, ..base }.validate());
}

#[test]
fn default_settings_values() {
    let d = RendererSettings::default();
    assert_eq!(d.samples_per_render, 1);
    assert_eq!(d.max_samples, 1000);
    assert_eq!(d.max_ray_depth, 10);
    assert!(!d.furnace_test);
}

#[test]
fn settings_uniform_widens_the_furnace_flag() {
    let on = SettingsUniform::from_settings(&RendererSettings {
        furnace_test: true,
        ..RendererSettings::default()
    });
    assert_eq!(on.furnace_test, 1);
    assert_eq!(on.pad0, 0);
    let off = SettingsUniform::from_settings(&RendererSettings::default());
    assert_eq!(off.furnace_test, 0);
    assert_eq!(off.samples_per_render, 1);
    assert_eq!(off.max_ray_depth, 10);
}

#[test]
fn camera_validation_checks_aspect_and_planes() {
    assert!(Camera::default().validate());
    assert!(!Camera { aspect: 0.0f32.to_bits(), ..Camera::default() }.validate());
    assert!(!Camera { aspect: (-1.0f32).to_bits(), ..Camera::default() }.validate());
    assert!(!Camera { znear: f32::NAN.to_bits(), ..Camera::default() }.validate());
    assert!(!Camera { zfar: (-0.0f32).to_bits(), ..Camera::default() }.validate());
    assert!(Camera { zfar: f32::INFINITY.to_bits(), ..Camera::default() }.validate());
    assert!(Camera { aspect: 2.5f32.to_bits(), ..Camera::default() }.validate());
}

#[test]
fn default_camera_bits_are_the_documented_floats() {
    let d = Camera::default();
    assert_eq!(d.position, [0.0f32.to_bits(), 0.0f32.to_bits(), 1.0f32.to_bits()]);
    assert_eq!(d.forward, [0.0f32.to_bits(), 0.0f32.to_bits(), (-1.0f32).to_bits()]);
    assert_eq!(d.aspect, 1.0f32.to_bits());
    assert_eq!(d.fovy, 45.0f32.to_bits());
    assert_eq!(d.znear, 0.1f32.to_bits());
    assert_eq!(d.zfar, 1000.0f32.to_bits());
}

#[test]
fn geometry_validation_checks_every_index() {
    assert!(Geometry::default().validate());
    let mut bad_vertex = Geometry::default();
    bad_vertex.triangles[1].vertex_indices = [0, 4, 1];
    assert!(!bad_vertex.validate());
    let mut bad_material = Geometry::default();
    bad_material.triangles[0].material_index = 1;
    assert!(!bad_material.validate());
    let empty = Geometry { materials: vec![], vertices: vec![], triangles: vec![] };
    assert!(empty.validate());
}

#[test]
fn default_geometry_is_the_placeholder_quad() {
    let d = Geometry::default();
    assert_eq!(d.materials.len(), 1);
    assert_eq!(d.vertices.len(), 4);
    assert_eq!(d.triangles.len(), 2);
    assert_eq!(d.triangles[0].vertex_indices, [0, 1, 2]);
    assert_eq!(d.triangles[1].vertex_indices, [0, 2, 3]);
    assert_eq!(d.vertices[0].position, [(-1.0f32).to_bits(), (-1.0f32).to_bits(), 0.0f32.to_bits()]);
    assert_eq!(d.vertices[2].tex_coord, [1.0f32.to_bits(), 1.0f32.to_bits()]);
    assert_eq!(d.vertices[3].normal, [0.0f32.to_bits(), 0.0f32.to_bits(), 1.0f32.to_bits()]);
}

#[test]
fn default_material_is_magenta() {
    let m = Material::default();
    assert_eq!(m.albedo, [1.0f32.to_bits(), 0.0f32.to_bits(), 1.0f32.to_bits()]);
    assert_eq!(m.roughness, 1.0f32.to_bits());
    assert_eq!(m.metallic, 0.0f32.to_bits());
    assert_eq!(m.emission, [0.0f32.to_bits(); 3]);
}

#[test]
fn environment_validation_matches_bytes_to_extent() {
    assert!(Environment::default().validate());
    assert!(Environment { size: Extent::new(2, 3), data: vec![0u8; 96] }.validate());
    assert!(!Environment { size: Extent::new(2, 3), data: vec![0u8; 95] }.validate());
    assert!(Environment { size: Extent::new(0, 9), data: vec![] }.validate());
    assert!(!Environment { size: Extent::new(u32::MAX, u32::MAX), data: vec![0u8; 64] }.validate());
}

#[test]
fn default_environment_is_one_blue_texel() {
    let d = Environment::default();
    assert_eq!(d.size, Extent::new(1, 1));
    let mut expected = Vec::new();
    for component in [0.2f32, 0.3, 0.4, 1.0] {
        expected.extend_from_slice(&component.to_le_bytes());
    }
    assert_eq!(d.data, expected);
}

#[test]
fn gpu_material_copies_fields_and_zeroes_padding() {
    let m = Material {
        albedo: [1u32, 2, 3],
        roughness: 4,
        metallic: 5,
        emission: [6u32, 7, 8],
    };
    let g = GpuMaterial::from(m);
    assert_eq!(g.albedo, [1, 2, 3]);
    assert_eq!(g.roughness, 4);
    assert_eq!(g.metallic, 5);
    assert_eq!(g.pad0, [0; 3]);
    assert_eq!(g.emission, [6, 7, 8]);
    assert_eq!(g.pad1, 0);
}

#[test]
fn gpu_vertex_copies_fields_and_zeroes_padding() {
    let v = Vertex { position: [1u32, 2, 3], tex_coord: [4u32, 5], normal: [6u32, 7, 8] };
    let g = GpuVertex::from(v);
    assert_eq!(g.position, [1, 2, 3]);
    assert_eq!(g.pad0, 0);
    assert_eq!(g.tex_coord, [4, 5]);
    assert_eq!(g.pad1, [0; 2]);
    assert_eq!(g.normal, [6, 7, 8]);
    assert_eq!(g.pad2, 0);
}

#[test]
fn gpu_triangle_is_an_exact_copy() {
    let t = Triangle { vertex_indices: [9u32, 8, 7], material_index: 6 };
    let g = GpuTriangle::from(t);
    assert_eq!(g.vertex_indices, [9, 8, 7]);
    assert_eq!(g.material_index, 6);
}
