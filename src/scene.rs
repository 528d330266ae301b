use vstd::prelude::*;
use crate::vector::{Mat4, Vec2, Vec3};

verus! {

/// One mesh vertex: position, normal and texture coordinate.
#[derive(Debug, Clone, Copy, PartialEq, Eq, Hash, Default, Structural)]
pub struct Vertex {
    pub position: Vec3,
    pub normal: Vec3,
    pub tex_coord: Vec2,
}

/// The device-facing material record: three colours and a shininess, laid out
/// with one word of padding after each of the first two colours.
#[derive(Debug, Clone, Copy, PartialEq, Eq, Hash, Structural)]
pub struct GpuMaterials {
    pub ambient_color: Vec3,
    pub padding1: u32,
    pub diffuse_color: Vec3,
    pub padding2: u32,
    pub specular_color: Vec3,
    pub specular_exponent: u32,
}

/// Bit patterns of the single-precision numbers 0.2, 1.0 and 32.0.
pub const BITS_POINT_TWO: u32 = 0x3e4c_cccd;
pub const BITS_ONE: u32 = 0x3f80_0000;
pub const BITS_THIRTY_TWO: u32 = 0x4200_0000;

/// The material used where none is named: grey ambient, white diffuse and
/// specular, shininess 32.
pub open spec fn default_gpu_materials() -> GpuMaterials {
    GpuMaterials {
        ambient_color: Vec3 { x: BITS_POINT_TWO, y: BITS_POINT_TWO, z: BITS_POINT_TWO },
        padding1: 0,
        diffuse_color: Vec3 { x: BITS_ONE, y: BITS_ONE, z: BITS_ONE },
        padding2: 0,
        specular_color: Vec3 { x: BITS_ONE, y: BITS_ONE, z: BITS_ONE },
        specular_exponent: BITS_THIRTY_TWO,
    }
}

impl GpuMaterials {
    pub fn default() -> (r: GpuMaterials)
        ensures
            r == default_gpu_materials(),
    {
        GpuMaterials {
            ambient_color: Vec3 { x: BITS_POINT_TWO, y: BITS_POINT_TWO, z: BITS_POINT_TWO },
            padding1: 0,
            diffuse_color: Vec3 { x: BITS_ONE, y: BITS_ONE, z: BITS_ONE },
            padding2: 0,
            specular_color: Vec3 { x: BITS_ONE, y: BITS_ONE, z: BITS_ONE },
            specular_exponent: BITS_THIRTY_TWO,
        }
    }
}

/// A named material.
#[derive(Debug, Clone)]
pub struct Material {
    pub name: String,
    pub properties: GpuMaterials,
}

/// A triangle list over its own vertices, drawn with one material.
#[derive(Debug, Clone)]
pub struct SubMesh {
    pub vertices: Vec<Vertex>,
    pub indices: Vec<u32>,
    pub material: Material,
}

/// An object of the scene: its sub-meshes and where it stands in the world.
#[derive(Debug, Clone)]
pub struct Mesh {
    pub submeshes: Vec<SubMesh>,
    pub world_transform: Mat4,
}

/// A viewpoint: where it is, what it looks at, which way is up, its vertical
/// field of view in degrees and its clip planes.
#[derive(Debug, Clone, Copy)]
pub struct Camera {
    pub position: Vec3,
    pub target: Vec3,
    pub up: Vec3,
    pub fov: u32,
    pub near_plane: u32,
    pub far_plane: u32,
}

#[derive(Debug, Clone, Copy)]
pub struct PointLight {
    pub position: Vec3,
    pub color: Vec3,
    pub intensity: u32,
}

#[derive(Debug, Clone, Copy)]
pub struct DirectionalLight {
    pub direction: Vec3,
    pub color: Vec3,
    pub intensity: u32,
}

#[derive(Debug, Clone, Copy)]
pub enum Light {
    Point(PointLight),
    Directional(DirectionalLight),
}

/// The device-facing light record. `light_type` is 0 for a point light and
/// 1 for a directional light; the padding words keep each vector aligned.
#[derive(Debug, Clone, Copy, PartialEq, Eq)]
pub struct GpuLight {
    pub position: Vec3,
    pub padding: u32,
    pub direction: Vec3,
    pub padding2: u32,
    pub color: Vec3,
    pub intensity: u32,
    pub light_type: u32,
    pub padding4: [u32; 3],
}

pub const POINT_LIGHT: u32 = 0;
pub const DIRECTIONAL_LIGHT: u32 = 1;

/// The record of `l`: a point light keeps its position and has no direction,
/// a directional light keeps its direction and sits at the origin.
pub open spec fn gpu_light_of(l: Light) -> GpuLight {
    match l {
        Light::Point(p) => GpuLight {
            position: p.position,
            padding: 0,
            direction: Vec3 { x: 0, y: 0, z: 0 },
            padding2: 0,
            color: p.color,
            intensity: p.intensity,
            light_type: POINT_LIGHT,
            padding4: [0u32, 0, 0],
        },
        Light::Directional(d) => GpuLight {
            position: Vec3 { x: 0, y: 0, z: 0 },
            padding: 0,
            direction: d.direction,
            padding2: 0,
            color: d.color,
            intensity: d.intensity,
            light_type: DIRECTIONAL_LIGHT,
            padding4: [0u32, 0, 0],
        },
    }
}

impl Light {
    /// A white point light of intensity one at the origin.
    pub fn default() -> (r: Light)
        ensures
            r == Light::Point(PointLight {
                position: Vec3 { x: 0, y: 0, z: 0 },
                color: Vec3 { x: BITS_ONE, y: BITS_ONE, z: BITS_ONE },
                intensity: BITS_ONE,
            }),
    {
        Light::Point(PointLight {
            position: Vec3 { x: 0, y: 0, z: 0 },
            color: Vec3 { x: BITS_ONE, y: BITS_ONE, z: BITS_ONE },
            intensity: BITS_ONE,
        })
    }
}

impl GpuLight {
    /// An all-zero point-light record of intensity one.
    pub fn default() -> (r: GpuLight)
        ensures
            r.position == (Vec3 { x: 0, y: 0, z: 0 }),
            r.direction == (Vec3 { x: 0, y: 0, z: 0 }),
            r.color == (Vec3 { x: 0, y: 0, z: 0 }),
            r.intensity == BITS_ONE,
            r.light_type == POINT_LIGHT,
            r.padding == 0 && r.padding2 == 0 && r.padding4 == [0u32, 0, 0],
    {
        GpuLight {
            position: Vec3 { x: 0, y: 0, z: 0 },
            padding: 0,
            direction: Vec3 { x: 0, y: 0, z: 0 },
            padding2: 0,
            color: Vec3 { x: 0, y: 0, z: 0 },
            intensity: BITS_ONE,
            light_type: POINT_LIGHT,
            padding4: [0u32, 0, 0],
        }
    }

    pub fn from(light: &Light) -> (r: GpuLight)
        ensures
            r == gpu_light_of(*light),
    {
        match light {
            Light::Point(p) => GpuLight {
                position: p.position,
                padding: 0,
                direction: Vec3 { x: 0, y: 0, z: 0 },
                padding2: 0,
                color: p.color,
                intensity: p.intensity,
                light_type: POINT_LIGHT,
                padding4: [0u32, 0, 0],
            },
            Light::Directional(d) => GpuLight {
                position: Vec3 { x: 0, y: 0, z: 0 },
                padding: 0,
                direction: d.direction,
                padding2: 0,
                color: d.color,
                intensity: d.intensity,
                light_type: DIRECTIONAL_LIGHT,
                padding4: [0u32, 0, 0],
            },
        }
    }
}

/// What is rendered: objects, cameras, lights and which camera is active.
#[derive(Debug, Clone)]
pub struct Scene {
    pub objects: Vec<Mesh>,
    pub cameras: Vec<Camera>,
    pub lights: Vec<Light>,
    pub main_camera_index: usize,
}

impl Material {
    /// The material named "Default Material" with the default properties.
    pub fn default() -> (r: Material)
        ensures
            r.name@ == "Default Material"@,
            r.properties == default_gpu_materials(),
    {
        Material { name: String::from_str("Default Material"), properties: GpuMaterials::default() }
    }
}

impl SubMesh {
    /// Every index names one of the sub-mesh's own vertices.
    pub open spec fn wf(&self) -> bool {
        forall|j: int| 0 <= j < self.indices@.len() ==> (#[trigger] self.indices@[j]) < self.vertices@.len()
    }

    /// A sub-mesh takes part in a frame only when it has vertices and indices.
    pub open spec fn is_drawn(&self) -> bool {
        self.vertices@.len() > 0 && self.indices@.len() > 0
    }

    /// Whether every index names one of the sub-mesh's own vertices.
    pub fn indices_in_range(&self) -> (r: bool)
        ensures
            r == self.wf(),
    {
        let n = self.vertices.len();
        let mut k: usize = 0;
        while k < self.indices.len()
            invariant
                k <= self.indices@.len(),
                n == self.vertices@.len(),
                forall|t: int| 0 <= t < k ==> (#[trigger] self.indices@[t]) < n,
            decreases self.indices@.len() - k,
        {
            if self.indices[k] as usize >= n {
                return false;
            }
            k = k + 1;
        }
        true
    }

    /// Executable form of `is_drawn`.
    pub fn is_empty(&self) -> (r: bool)
        ensures
            r == !self.is_drawn(),
    {
        self.vertices.len() == 0 || self.indices.len() == 0
    }
}

impl Scene {
    /// An empty scene whose active camera is the first one.
    pub fn new() -> (r: Self)
        ensures
            r.objects@.len() == 0,
            r.cameras@.len() == 0,
            r.lights@.len() == 0,
            r.main_camera_index == 0,
    {
        Scene { objects: Vec::new(), cameras: Vec::new(), lights: Vec::new(), main_camera_index: 0 }
    }

    /// Appends the objects, cameras and lights of `other`, in their order, after
    /// those of this scene; the active camera stays the same.
    pub fn merge(&mut self, other: Scene)
        ensures
            final(self).objects@ == old(self).objects@ + other.objects@,
            final(self).cameras@ == old(self).cameras@ + other.cameras@,
            final(self).lights@ == old(self).lights@ + other.lights@,
            final(self).main_camera_index == old(self).main_camera_index,
    {
        let mut other = other;
        self.objects.append(&mut other.objects);
        self.cameras.append(&mut other.cameras);
        self.lights.append(&mut other.lights);
    }

    pub open spec fn has_active_camera(&self) -> bool {
        self.main_camera_index < self.cameras@.len()
    }

    /// The active camera, or `None` when the index names no camera.
    pub fn active_camera(&self) -> (r: Option<&Camera>)
        ensures
            r.is_some() == self.has_active_camera(),
            r matches Some(c) ==> *c == self.cameras@[self.main_camera_index as int],
    {
        if self.main_camera_index < self.cameras.len() {
            Some(&self.cameras[self.main_camera_index])
        } else {
            None
        }
    }
}

} // verus!
