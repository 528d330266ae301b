use atom::error::{FileError, FileType};
use atom::obj::{FaceRef, MtlBuilder, ObjBuilder};
use atom::scene::{GpuMaterials, Material};
use atom::vector::{Mat4, Vec2, Vec3};

fn p(x: u32, y: u32, z: u32) -> Vec3 {
    Vec3 { x, y, z }
}

fn corner(position: usize) -> FaceRef {
    FaceRef { position, tex_coord: None, normal: None }
}

fn quad_builder() -> ObjBuilder {
    let mut b = ObjBuilder::new();
    b.add_position(p(0, 0, 0));
    b.add_position(p(1, 0, 0));
    b.add_position(p(1, 1, 0));
    b.add_position(p(0, 1, 0));
    b
}

#[test]
fn quad_is_fanned_into_two_triangles() {
    let mut b = quad_builder();
    b.add_face(&vec![corner(1), corner(2), corner(3), corner(4)], 5).unwrap();
    assert_eq!(b.submeshes.len(), 1);
    let s = &b.submeshes[0];
    assert_eq!(s.vertices.len(), 4);
    assert_eq!(s.indices, vec![0, 1, 2, 0, 2, 3]);
    assert_eq!(s.material.name, "Default Material");
    assert_eq!(s.material.properties, GpuMaterials::default());
    assert!(s.indices_in_range());
}

#[test]
fn shared_corners_reuse_vertices() {
    let mut b = quad_builder();
    b.add_face(&vec![corner(1), corner(2), corner(3)], 5).unwrap();
    b.add_face(&vec![corner(1), corner(3), corner(4)], 6).unwrap();
    let s = &b.submeshes[0];
    assert_eq!(s.vertices.len(), 4);
    assert_eq!(s.indices, vec![0, 1, 2, 0, 2, 3]);
}

#[test]
fn corner_attributes_are_looked_up_or_zero() {
    let mut b = quad_builder();
    b.add_normal(p(0, 0, 7));
    b.add_tex_coord(Vec2 { x: 3, y: 4 });
    let refs = vec![
        FaceRef { position: 1, tex_coord: Some(1), normal: Some(1) },
        FaceRef { position: 2, tex_coord: Some(9), normal: None },
        FaceRef { position: 3, tex_coord: None, normal: Some(0) },
    ];
    b.add_face(&refs, 1).unwrap();
    let v = &b.submeshes[0].vertices;
    assert_eq!(v[0].normal, p(0, 0, 7));
    assert_eq!(v[0].tex_coord, Vec2 { x: 3, y: 4 });
    assert_eq!(v[1].tex_coord, Vec2 { x: 0, y: 0 });
    assert_eq!(v[2].normal, p(0, 0, 0));
    assert_eq!(v[2].position, p(1, 1, 0));
}

#[test]
fn bad_faces_are_format_errors() {
    let mut b = quad_builder();
    let r = b.add_face(&vec![corner(1), corner(2)], 3);
    assert!(matches!(r, Err(FileError::FormatError(ref m, FileType::Obj, 3)) if m == "Invalid face definition"));
    let r = b.add_face(&vec![corner(1), corner(2), corner(5)], 4);
    assert!(matches!(r, Err(FileError::FormatError(ref m, FileType::Obj, 4)) if m == "Invalid vertex index"));
    let r = b.add_face(&vec![corner(0), corner(2), corner(3)], 7);
    assert!(matches!(r, Err(FileError::FormatError(ref m, FileType::Obj, 7)) if m == "Invalid vertex index"));
    assert!(b.submeshes.is_empty());
}

#[test]
fn usemtl_opens_a_submesh_with_the_named_material() {
    let mut mtl = MtlBuilder::new();
    mtl.start_material("red".to_string());
    mtl.set_diffuse(p(1, 0, 0));
    mtl.set_ambient(p(2, 0, 0));
    mtl.start_material("blue".to_string());
    mtl.set_specular(p(0, 0, 1));
    mtl.start_material("red".to_string());
    mtl.set_diffuse(p(9, 9, 9));
    let library: Vec<Material> = mtl.finish();
    assert_eq!(library.len(), 2);
    assert_eq!(library[0].name, "red");
    assert_eq!(library[0].properties.diffuse_color, p(9, 9, 9));
    assert_eq!(library[0].properties.ambient_color, GpuMaterials::default().ambient_color);
    assert_eq!(library[1].properties.specular_color, p(0, 0, 1));

    let mut b = quad_builder();
    b.use_material(&"blue".to_string(), &library);
    b.add_face(&vec![corner(1), corner(2), corner(3)], 2).unwrap();
    b.use_material(&"missing".to_string(), &library);
    b.add_face(&vec![corner(2), corner(3), corner(4)], 4).unwrap();
    assert_eq!(b.submeshes.len(), 2);
    assert_eq!(b.submeshes[0].material.name, "blue");
    assert_eq!(b.submeshes[0].material.properties.specular_color, p(0, 0, 1));
    assert_eq!(b.submeshes[1].material.name, "Default Material");
    assert_eq!(b.submeshes[1].indices, vec![0, 1, 2]);
    let mesh = b.finish();
    assert_eq!(mesh.submeshes.len(), 2);
    assert_eq!(mesh.world_transform, Mat4::identity());
}

#[test]
fn colours_without_open_material_are_ignored() {
    let mut mtl = MtlBuilder::new();
    mtl.set_ambient(p(1, 1, 1));
    assert!(mtl.current.is_none());
    assert!(mtl.finish().is_empty());
}

#[test]
fn default_material_bits() {
    let m = Material::default();
    assert_eq!(m.name, "Default Material");
    assert_eq!(m.properties.ambient_color.x, 0.2f32.to_bits());
    assert_eq!(m.properties.diffuse_color.y, 1.0f32.to_bits());
    assert_eq!(m.properties.specular_exponent, 32.0f32.to_bits());
    assert_eq!(Mat4::identity().cols[5], 1.0f32.to_bits());
}
