use atom::editor::Editor;
use atom::error::{FileType, GraphicsError, VulkanError};
use atom::matrix::Matrix;
use atom::scene::{Camera, DirectionalLight, GpuLight, Light, Mesh, PointLight, Scene};
use atom::vector::{Mat4, Vec3};

fn origin() -> Vec3 {
    Vec3 { x: 0, y: 0, z: 0 }
}

fn cam(z: f32) -> Camera {
    Camera { position: Vec3 { x: 0, y: 0, z: z.to_bits() }, target: origin(), up: origin(), fov: 0, near_plane: 0, far_plane: 0 }
}

#[test]
fn matrix_cells_start_default_and_bounds_are_checked() {
    let mut m: Matrix<i32> = Matrix::new(2, 3);
    assert_eq!(m.get(1, 2), Some(&0));
    assert_eq!(m.get(2, 0), None);
    assert_eq!(m.get(0, 3), None);
    assert_eq!(m.set(1, 2, 7), Ok(()));
    assert_eq!(m.get(1, 2), Some(&7));
    assert_eq!(m.get(0, 2), Some(&0));
    assert_eq!(m.set(2, 0, 1), Err("Index out of bounds".to_string()));
    let d: Matrix<u8> = Matrix::default(0, 4);
    assert_eq!(d.get(0, 0), None);
}

#[test]
fn merge_appends_in_order_and_keeps_active_camera() {
    let mut a = Scene::new();
    a.cameras.push(cam(1.0));
    a.main_camera_index = 0;
    let mut b = Scene::new();
    b.cameras.push(cam(2.0));
    b.objects.push(Mesh { submeshes: vec![], world_transform: Mat4 { cols: [0; 16] } });
    b.lights.push(Light::Directional(DirectionalLight { direction: origin(), color: origin(), intensity: 0 }));
    a.merge(b);
    assert_eq!(a.cameras.len(), 2);
    assert_eq!(a.cameras[1].position.z, 2.0f32.to_bits());
    assert_eq!(a.objects.len(), 1);
    assert_eq!(a.lights.len(), 1);
    assert_eq!(a.main_camera_index, 0);
    assert_eq!(a.active_camera().unwrap().position.z, 1.0f32.to_bits());
    a.main_camera_index = 5;
    assert!(a.active_camera().is_none());
}

#[test]
fn file_type_names_and_default() {
    assert_eq!(FileType::default(), FileType::Obj);
    assert_eq!(FileType::Obj.name(), "OBJ");
    assert_eq!(FileType::Fbx.name(), "FBX");
    assert_eq!(FileType::Mtl.name(), "MTL");
}

#[test]
fn vulkan_errors_convert_into_graphics_errors() {
    let g = GraphicsError::from(VulkanError::BufferCreationError("x".to_string()));
    assert!(matches!(g, GraphicsError::VulkanError(VulkanError::BufferCreationError(ref m)) if m == "x"));
}

#[test]
fn editor_loads_scenes_and_selects_file_type() {
    let mut e = Editor::with_scene(Scene::new());
    assert_eq!(e.selected_file_type(), FileType::Obj);
    e.select_file_type(FileType::Fbx);
    assert_eq!(e.selected_file_type(), FileType::Fbx);
    let mut loaded = Scene::new();
    loaded.cameras.push(cam(4.0));
    e.load_scene(loaded);
    assert_eq!(e.scene.cameras.len(), 1);
}

#[test]
fn lights_become_device_records() {
    let one = 1.0f32.to_bits();
    let d = Light::default();
    assert!(matches!(d, Light::Point(PointLight { intensity, .. }) if intensity == one));
    let p = GpuLight::from(&Light::Point(PointLight { position: Vec3 { x: 1, y: 2, z: 3 }, color: Vec3 { x: 4, y: 5, z: 6 }, intensity: 7 }));
    assert_eq!(p.position, Vec3 { x: 1, y: 2, z: 3 });
    assert_eq!(p.direction, origin());
    assert_eq!((p.intensity, p.light_type), (7, 0));
    let dl = GpuLight::from(&Light::Directional(DirectionalLight { direction: Vec3 { x: 9, y: 8, z: 7 }, color: origin(), intensity: 2 }));
    assert_eq!(dl.direction, Vec3 { x: 9, y: 8, z: 7 });
    assert_eq!(dl.position, origin());
    assert_eq!((dl.intensity, dl.light_type), (2, 1));
    let g = GpuLight::default();
    assert_eq!((g.intensity, g.light_type, g.padding4), (one, 0, [0, 0, 0]));
}
