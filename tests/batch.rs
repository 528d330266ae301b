use atom::batch::{CameraUbo, DrawIndexedIndirectCommand, FrameBatch};
use atom::error::GraphicsError;
use atom::recorder::{record_steps, RecordStep};
use atom::scene::{Camera, GpuMaterials, Material, Mesh, Scene, SubMesh, Vertex};
use atom::surface::Extent;
use atom::vector::{Mat4, Vec2, Vec3};

fn bits(x: f32) -> u32 {
    x.to_bits()
}

fn v3(x: f32, y: f32, z: f32) -> Vec3 {
    Vec3 { x: bits(x), y: bits(y), z: bits(z) }
}

fn vertex(x: f32, y: f32) -> Vertex {
    Vertex { position: v3(x, y, 0.0), normal: v3(0.0, 0.0, 1.0), tex_coord: Vec2 { x: bits(x), y: bits(y) } }
}

fn identity() -> Mat4 {
    let mut cols = [0u32; 16];
    for i in 0..4 {
        cols[i * 5] = bits(1.0);
    }
    Mat4 { cols }
}

fn scaled(s: f32) -> Mat4 {
    let mut m = identity();
    m.cols[0] = bits(s);
    m
}

fn material(exponent: f32) -> Material {
    Material {
        name: format!("m{}", exponent),
        properties: GpuMaterials {
            ambient_color: v3(0.2, 0.2, 0.2),
            padding1: 0,
            diffuse_color: v3(1.0, 1.0, 1.0),
            padding2: 0,
            specular_color: v3(1.0, 1.0, 1.0),
            specular_exponent: bits(exponent),
        },
    }
}

fn submesh(n_vertices: usize, indices: Vec<u32>, exponent: f32) -> SubMesh {
    SubMesh {
        vertices: (0..n_vertices).map(|i| vertex(i as f32, 1.0)).collect(),
        indices,
        material: material(exponent),
    }
}

fn camera() -> Camera {
    Camera {
        position: v3(0.0, 0.0, 3.0),
        target: v3(0.0, 0.0, 0.0),
        up: v3(0.0, 1.0, 0.0),
        fov: bits(45.0),
        near_plane: bits(0.1),
        far_plane: bits(100.0),
    }
}

fn scene_of(objects: Vec<Mesh>) -> Scene {
    let mut s = Scene::new();
    s.objects = objects;
    s.cameras.push(camera());
    s
}

fn ubo() -> CameraUbo {
    CameraUbo { view: identity(), proj: scaled(2.0) }
}

fn compile(scene: &Scene) -> Result<FrameBatch, GraphicsError> {
    assert!(FrameBatch::fits_in_batch(scene));
    let normals: Vec<Mat4> = (0..scene.objects.len()).map(|i| scaled(i as f32 + 10.0)).collect();
    FrameBatch::compile(scene, ubo(), &normals)
}

#[test]
fn single_triangle_compiles_to_one_draw() {
    let scene = scene_of(vec![Mesh { submeshes: vec![submesh(3, vec![0, 1, 2], 32.0)], world_transform: identity() }]);
    let b = compile(&scene).unwrap();
    assert_eq!(b.commands.len(), 1);
    assert_eq!(
        b.commands[0],
        DrawIndexedIndirectCommand { index_count: 3, instance_count: 1, first_index: 0, vertex_offset: 0, first_instance: 0 }
    );
    assert_eq!(b.vertices.len(), 3);
    assert_eq!(b.indices, vec![0, 1, 2]);
    assert_eq!(b.camera, ubo());
    let steps = record_steps(&b, Extent { width: 600, height: 600 });
    assert_eq!(steps[6], RecordStep::DrawIndirect { count: 1 });
}

#[test]
fn instance_buffers_match_drawn_submeshes() {
    let scene = scene_of(vec![
        Mesh {
            submeshes: vec![submesh(3, vec![0, 1, 2], 1.0), submesh(0, vec![], 2.0), submesh(4, vec![0, 1, 2, 2, 3, 0], 3.0)],
            world_transform: scaled(5.0),
        },
        Mesh { submeshes: vec![submesh(2, vec![], 4.0)], world_transform: scaled(6.0) },
        Mesh { submeshes: vec![submesh(3, vec![2, 1, 0], 5.0)], world_transform: scaled(7.0) },
    ]);
    let b = compile(&scene).unwrap();
    assert_eq!(b.commands.len(), 3);
    assert_eq!(b.model_matrices, vec![scaled(5.0), scaled(5.0), scaled(7.0)]);
    assert_eq!(b.normal_matrices, vec![scaled(10.0), scaled(10.0), scaled(12.0)]);
    let exps: Vec<u32> = b.materials.iter().map(|m| m.specular_exponent).collect();
    assert_eq!(exps, vec![bits(1.0), bits(3.0), bits(5.0)]);
    for (i, c) in b.commands.iter().enumerate() {
        assert_eq!(c.first_instance, i as u32);
        assert_eq!(c.instance_count, 1);
    }
    assert_eq!(b.commands[1].first_index, 3);
    assert_eq!(b.commands[1].index_count, 6);
    assert_eq!(b.commands[2].first_index, 9);
    assert_eq!(b.commands[2].index_count, 3);
}

#[test]
fn indices_are_rebased_past_earlier_vertices() {
    let scene = scene_of(vec![Mesh {
        submeshes: vec![submesh(4, vec![0, 1, 2, 2, 3, 0], 1.0), submesh(3, vec![0, 1, 2], 2.0)],
        world_transform: identity(),
    }]);
    let b = compile(&scene).unwrap();
    assert_eq!(b.vertices.len(), 7);
    assert_eq!(b.indices, vec![0, 1, 2, 2, 3, 0, 4, 5, 6]);
    let c = b.commands[1];
    for t in c.first_index..c.first_index + c.index_count {
        let x = b.indices[t as usize];
        assert!(x >= 4 && x < 7);
    }
}

#[test]
fn empty_scene_gives_empty_batch_and_zero_draw() {
    let scene = scene_of(vec![]);
    let b = compile(&scene).unwrap();
    assert!(b.vertices.is_empty() && b.indices.is_empty() && b.commands.is_empty());
    assert!(b.model_matrices.is_empty() && b.normal_matrices.is_empty() && b.materials.is_empty());
    let steps = record_steps(&b, Extent { width: 10, height: 20 });
    assert_eq!(steps.len(), 9);
    assert_eq!(steps[6], RecordStep::DrawIndirect { count: 0 });
    assert_eq!(steps[1], RecordStep::SetViewport { extent: Extent { width: 10, height: 20 } });
    assert_eq!(steps[8], RecordStep::EndPass);
}

#[test]
fn compiling_twice_gives_the_same_batch() {
    let scene = scene_of(vec![Mesh { submeshes: vec![submesh(3, vec![0, 1, 2], 8.0)], world_transform: scaled(3.0) }]);
    let a = compile(&scene).unwrap();
    let b = compile(&scene).unwrap();
    assert_eq!(a.vertices, b.vertices);
    assert_eq!(a.indices, b.indices);
    assert_eq!(a.commands, b.commands);
    assert_eq!(a.model_matrices, b.model_matrices);
    assert_eq!(a.normal_matrices, b.normal_matrices);
    assert_eq!(a.materials, b.materials);
    assert_eq!(a.camera, b.camera);
}

#[test]
fn missing_camera_is_reported() {
    let mut scene = scene_of(vec![Mesh { submeshes: vec![submesh(3, vec![0, 1, 2], 8.0)], world_transform: identity() }]);
    scene.main_camera_index = 1;
    assert!(matches!(compile(&scene), Err(GraphicsError::NoCameraFound)));
    scene.cameras.clear();
    scene.main_camera_index = 0;
    assert!(matches!(compile(&scene), Err(GraphicsError::NoCameraFound)));
}

#[test]
fn index_outside_submesh_does_not_fit() {
    let scene = scene_of(vec![Mesh { submeshes: vec![submesh(3, vec![0, 1, 3], 8.0)], world_transform: identity() }]);
    assert!(!FrameBatch::fits_in_batch(&scene));
    assert!(!scene.objects[0].submeshes[0].indices_in_range());
    let empty_with_indices = scene_of(vec![Mesh { submeshes: vec![submesh(0, vec![0], 8.0)], world_transform: identity() }]);
    assert!(!FrameBatch::fits_in_batch(&empty_with_indices));
}
