use vstd::prelude::*;
use crate::error::{FileError, FileType};
use crate::scene::{default_gpu_materials, GpuMaterials, Material, Mesh, SubMesh, Vertex};
use crate::vector::{identity_bits, Mat4, Vec2, Vec3};

verus! {

/// One corner of a face as written in the file: one-based numbers of a
/// position and, optionally, of a texture coordinate and of a normal.
#[derive(Debug, Clone, Copy, PartialEq, Eq, Structural)]
pub struct FaceRef {
    pub position: usize,
    pub tex_coord: Option<usize>,
    pub normal: Option<usize>,
}

/// Assembles one mesh from the statements of an OBJ file, in file order.
/// Vertices are shared within a sub-mesh: a corner equal to a vertex already
/// there reuses its index.
#[derive(Debug)]
pub struct ObjBuilder {
    pub positions: Vec<Vec3>,
    pub tex_coords: Vec<Vec2>,
    pub normals: Vec<Vec3>,
    pub submeshes: Vec<SubMesh>,
}

pub open spec fn zero_vec3() -> Vec3 {
    Vec3 { x: 0, y: 0, z: 0 }
}

/// The element that the one-based number `n` names, if any.
pub open spec fn lookup<A>(s: Seq<A>, n: Option<usize>) -> Option<A> {
    match n {
        Some(k) => if 1 <= k <= s.len() { Some(s[k - 1]) } else { None },
        None => None,
    }
}

/// The vertex a corner stands for. A missing or out-of-range texture
/// coordinate or normal reads as zero.
pub open spec fn corner_vertex(positions: Seq<Vec3>, tex: Seq<Vec2>, normals: Seq<Vec3>, r: FaceRef) -> Vertex {
    Vertex {
        position: positions[r.position - 1],
        normal: match lookup(normals, r.normal) {
            Some(n) => n,
            None => zero_vec3(),
        },
        tex_coord: match lookup(tex, r.tex_coord) {
            Some(t) => t,
            None => Vec2 { x: 0, y: 0 },
        },
    }
}

/// Fan triangulation of a face's first `k` triangles: corner 0 with corners
/// `t + 1` and `t + 2`, for each `t < k`.
pub open spec fn fan_prefix(ids: Seq<u32>, k: int) -> Seq<u32> {
    Seq::new((3 * k) as nat, |t: int| if t % 3 == 0 { ids[0] } else if t % 3 == 1 { ids[t / 3 + 1] } else { ids[t / 3 + 2] })
}

/// Fan triangulation of a whole face of `ids.len()` corners.
pub open spec fn fan(ids: Seq<u32>) -> Seq<u32> {
    fan_prefix(ids, ids.len() - 2)
}


/// No two vertices of the sub-mesh are equal.
pub open spec fn distinct_vertices(s: SubMesh) -> bool {
    forall|a: int, b: int| 0 <= a < b < s.vertices@.len() ==> s.vertices@[a] != s.vertices@[b]
}

/// The error for a malformed statement of an OBJ file at `line`.
pub open spec fn is_obj_format_error(e: FileError, msg: Seq<char>, line: usize) -> bool {
    e matches FileError::FormatError(m, t, l) && m@ == msg && t == FileType::Obj && l == line
}

/// No two materials share a name.
pub open spec fn names_unique(ms: Seq<Material>) -> bool {
    forall|a: int, b: int| 0 <= a < b < ms.len() ==> ms[a].name@ != ms[b].name@
}

/// `ms` with `m` added: it replaces the material of the same name, or comes
/// last when there is none.
pub open spec fn with_material(ms: Seq<Material>, m: Material) -> Seq<Material> {
    if exists|i: int| 0 <= i < ms.len() && ms[i].name@ == m.name@ {
        ms.update(choose|i: int| 0 <= i < ms.len() && ms[i].name@ == m.name@, m)
    } else {
        ms.push(m)
    }
}

/// Adds `m` to a library of materials with distinct names, replacing the
/// material of the same name.
pub fn insert_material(ms: &mut Vec<Material>, m: Material)
    requires
        names_unique(old(ms)@),
    ensures
        names_unique(final(ms)@),
        final(ms)@ == with_material(old(ms)@, m),
{
    let mut i: usize = 0;
    while i < ms.len()
        invariant
            i <= ms@.len(),
            ms@ == old(ms)@,
            names_unique(ms@),
            forall|j: int| 0 <= j < i ==> ms@[j].name@ != m.name@,
        decreases ms@.len() - i,
    {
        if ms[i].name == m.name {
            proof {
                let c = choose|c: int| 0 <= c < ms@.len() && ms@[c].name@ == m.name@;
                assert(c == i as int);
            }
            ms.set(i, m);
            proof {
                assert forall|a: int, b: int| 0 <= a < b < ms@.len() implies ms@[a].name@ != ms@[b].name@ by {
                    assert(old(ms)@[a].name@ != old(ms)@[b].name@);
                }
            }
            return;
        }
        i = i + 1;
    }
    ms.push(m);
    proof {
        assert forall|a: int, b: int| 0 <= a < b < ms@.len() implies ms@[a].name@ != ms@[b].name@ by {
            if b < old(ms)@.len() {
                assert(old(ms)@[a].name@ != old(ms)@[b].name@);
            }
        }
    }
}

/// Collects the materials of an MTL file, in file order. A material is open
/// from its `newmtl` statement to the next one; colours set while none is
/// open are ignored. A later material replaces an earlier one of the same
/// name.
#[derive(Debug)]
pub struct MtlBuilder {
    pub materials: Vec<Material>,
    pub current: Option<Material>,
}

impl MtlBuilder {
    pub open spec fn wf(&self) -> bool {
        names_unique(self.materials@)
    }

    /// The library once the open material is closed.
    pub open spec fn library(&self) -> Seq<Material> {
        match self.current {
            Some(m) => with_material(self.materials@, m),
            None => self.materials@,
        }
    }

    pub fn new() -> (r: MtlBuilder)
        ensures
            r.wf(),
            r.materials@.len() == 0,
            r.current is None,
    {
        MtlBuilder { materials: Vec::new(), current: None }
    }

    /// A `newmtl` statement: closes the open material and opens `name` with
    /// the default colours.
    pub fn start_material(&mut self, name: String)
        requires
            old(self).wf(),
        ensures
            final(self).wf(),
            final(self).materials@ == old(self).library(),
            final(self).current matches Some(m) && m.name@ == name@ && m.properties == default_gpu_materials(),
    {
        if let Some(m) = self.current.take() {
            insert_material(&mut self.materials, m);
        }
        self.current = Some(Material { name, properties: GpuMaterials::default() });
    }

    /// A `Ka` statement.
    pub fn set_ambient(&mut self, c: Vec3)
        ensures
            final(self).materials@ == old(self).materials@,
            old(self).current is None ==> final(self).current is None,
            old(self).current matches Some(m) ==> final(self).current == Some(
                Material { properties: GpuMaterials { ambient_color: c, ..m.properties }, ..m },
            ),
    {
        if let Some(m) = &mut self.current {
            m.properties.ambient_color = c;
        }
    }

    /// A `Kd` statement.
    pub fn set_diffuse(&mut self, c: Vec3)
        ensures
            final(self).materials@ == old(self).materials@,
            old(self).current is None ==> final(self).current is None,
            old(self).current matches Some(m) ==> final(self).current == Some(
                Material { properties: GpuMaterials { diffuse_color: c, ..m.properties }, ..m },
            ),
    {
        if let Some(m) = &mut self.current {
            m.properties.diffuse_color = c;
        }
    }

    /// A `Ks` statement.
    pub fn set_specular(&mut self, c: Vec3)
        ensures
            final(self).materials@ == old(self).materials@,
            old(self).current is None ==> final(self).current is None,
            old(self).current matches Some(m) ==> final(self).current == Some(
                Material { properties: GpuMaterials { specular_color: c, ..m.properties }, ..m },
            ),
    {
        if let Some(m) = &mut self.current {
            m.properties.specular_color = c;
        }
    }

    /// The library: every material read, each name once.
    pub fn finish(self) -> (r: Vec<Material>)
        requires
            self.wf(),
        ensures
            r@ == self.library(),
            names_unique(r@),
    {
        let mut ms = self.materials;
        if let Some(m) = self.current {
            insert_material(&mut ms, m);
        }
        ms
    }
}

/// Where `v` stands in `vs`, if it is there.
fn find_vertex(vs: &Vec<Vertex>, v: &Vertex) -> (r: Option<usize>)
    ensures
        r matches Some(k) ==> k < vs@.len() && vs@[k as int] == *v,
        r is None ==> forall|k: int| 0 <= k < vs@.len() ==> vs@[k] != *v,
{
    let mut k: usize = 0;
    while k < vs.len()
        invariant
            k <= vs@.len(),
            forall|j: int| 0 <= j < k ==> vs@[j] != *v,
        decreases vs@.len() - k,
    {
        if vs[k] == *v {
            return Some(k);
        }
        k = k + 1;
    }
    None
}

impl ObjBuilder {
    /// Every sub-mesh indexes its own vertices, and holds each vertex once.
    pub open spec fn wf(&self) -> bool {
        forall|i: int| 0 <= i < self.submeshes@.len() ==> (#[trigger] self.submeshes@[i]).wf() && distinct_vertices(self.submeshes@[i])
    }

    pub open spec fn corner(&self, r: FaceRef) -> Vertex {
        corner_vertex(self.positions@, self.tex_coords@, self.normals@, r)
    }

    pub fn new() -> (r: ObjBuilder)
        ensures
            r.wf(),
            r.positions@.len() == 0,
            r.tex_coords@.len() == 0,
            r.normals@.len() == 0,
            r.submeshes@.len() == 0,
    {
        ObjBuilder { positions: Vec::new(), tex_coords: Vec::new(), normals: Vec::new(), submeshes: Vec::new() }
    }

    /// A `v` statement.
    pub fn add_position(&mut self, p: Vec3)
        ensures
            final(self).positions@ == old(self).positions@.push(p),
            final(self).tex_coords@ == old(self).tex_coords@,
            final(self).normals@ == old(self).normals@,
            final(self).submeshes@ == old(self).submeshes@,
    {
        self.positions.push(p);
    }

    /// A `vt` statement.
    pub fn add_tex_coord(&mut self, t: Vec2)
        ensures
            final(self).positions@ == old(self).positions@,
            final(self).tex_coords@ == old(self).tex_coords@.push(t),
            final(self).normals@ == old(self).normals@,
            final(self).submeshes@ == old(self).submeshes@,
    {
        self.tex_coords.push(t);
    }

    /// A `vn` statement.
    pub fn add_normal(&mut self, n: Vec3)
        ensures
            final(self).positions@ == old(self).positions@,
            final(self).tex_coords@ == old(self).tex_coords@,
            final(self).normals@ == old(self).normals@.push(n),
            final(self).submeshes@ == old(self).submeshes@,
    {
        self.normals.push(n);
    }

    /// A `usemtl` statement: later faces go to a new, empty sub-mesh drawn with
    /// the first material of `library` called `name`, or with the default
    /// material when there is none.
    pub fn use_material(&mut self, name: &String, library: &Vec<Material>)
        requires
            old(self).wf(),
        ensures
            final(self).wf(),
            final(self).positions@ == old(self).positions@,
            final(self).tex_coords@ == old(self).tex_coords@,
            final(self).normals@ == old(self).normals@,
            final(self).submeshes@.len() == old(self).submeshes@.len() + 1,
            final(self).submeshes@.drop_last() == old(self).submeshes@,
            final(self).submeshes@.last().vertices@.len() == 0,
            final(self).submeshes@.last().indices@.len() == 0,
            (exists|i: int| 0 <= i < library@.len() && library@[i].name@ == name@)
                ==> exists|i: int| 0 <= i < library@.len() && library@[i].name@ == name@
                    && (forall|k: int| 0 <= k < i ==> library@[k].name@ != name@)
                    && final(self).submeshes@.last().material.properties == library@[i].properties
                    && final(self).submeshes@.last().material.name@ == name@,
            !(exists|i: int| 0 <= i < library@.len() && library@[i].name@ == name@)
                ==> final(self).submeshes@.last().material.properties == default_gpu_materials()
                    && final(self).submeshes@.last().material.name@ == "Default Material"@,
    {
        let mut i: usize = 0;
        let mut found: Option<usize> = None;
        while i < library.len() && found.is_none()
            invariant
                i <= library@.len(),
                found matches Some(k) ==> k < library@.len() && library@[k as int].name@ == name@
                    && forall|j: int| 0 <= j < k ==> library@[j].name@ != name@,
                found is None ==> forall|j: int| 0 <= j < i ==> library@[j].name@ != name@,
            decreases library@.len() - i,
        {
            if library[i].name == *name {
                found = Some(i);
            }
            i = i + 1;
        }
        let material = match found {
            Some(k) => Material { name: name.clone(), properties: library[k].properties },
            None => Material::default(),
        };
        let ghost before = self.submeshes@;
        self.submeshes.push(SubMesh { vertices: Vec::new(), indices: Vec::new(), material });
        proof {
            assert(self.submeshes@.drop_last() =~= before);
            assert forall|j: int| 0 <= j < self.submeshes@.len() implies (#[trigger] self.submeshes@[j]).wf() && distinct_vertices(self.submeshes@[j]) by {
                if j < before.len() {
                    assert(self.submeshes@[j] == before[j]);
                }
            }
        }
    }

    pub open spec fn position_ok(&self, r: FaceRef) -> bool {
        1 <= r.position <= self.positions@.len()
    }

    /// Vertices already in the sub-mesh that faces go to.
    pub open spec fn target_len(&self) -> int {
        if self.submeshes@.len() == 0 { 0 } else { self.submeshes@.last().vertices@.len() as int }
    }

    fn positions_ok(&self, refs: &Vec<FaceRef>) -> (r: bool)
        ensures
            r == forall|t: int| 0 <= t < refs@.len() ==> self.position_ok(#[trigger] refs@[t]),
    {
        let mut t: usize = 0;
        while t < refs.len()
            invariant
                t <= refs@.len(),
                forall|u: int| 0 <= u < t ==> self.position_ok(#[trigger] refs@[u]),
            decreases refs@.len() - t,
        {
            if refs[t].position < 1 || refs[t].position > self.positions.len() {
                return false;
            }
            t = t + 1;
        }
        true
    }

    fn corner_of(&self, r: FaceRef) -> (v: Vertex)
        requires
            self.position_ok(r),
        ensures
            v == self.corner(r),
    {
        let normal = match r.normal {
            Some(k) => if 1 <= k && k <= self.normals.len() { self.normals[k - 1] } else { Vec3 { x: 0, y: 0, z: 0 } },
            None => Vec3 { x: 0, y: 0, z: 0 },
        };
        let tex_coord = match r.tex_coord {
            Some(k) => if 1 <= k && k <= self.tex_coords.len() { self.tex_coords[k - 1] } else { Vec2 { x: 0, y: 0 } },
            None => Vec2 { x: 0, y: 0 },
        };
        Vertex { position: self.positions[r.position - 1], normal, tex_coord }
    }

    /// An `f` statement at `line`. A face needs at least three corners, else
    /// "Invalid face definition"; every corner must name a position read so
    /// far, else "Invalid vertex index"; the sub-mesh must stay addressable
    /// with 32-bit indices, else "Too many vertices". On an error nothing
    /// changes. Otherwise the face goes to the last sub-mesh (a new one with
    /// the default material if there is none): each corner's vertex is added
    /// unless an equal one is there, and the face is split into a fan of
    /// triangles around its first corner.
    #[verifier::loop_isolation(false)]
    pub fn add_face(&mut self, refs: &Vec<FaceRef>, line: usize) -> (r: Result<(), FileError>)
        requires
            old(self).wf(),
        ensures
            final(self).wf(),
            final(self).positions@ == old(self).positions@,
            final(self).tex_coords@ == old(self).tex_coords@,
            final(self).normals@ == old(self).normals@,
            refs@.len() < 3 ==> (r matches Err(e) && is_obj_format_error(e, "Invalid face definition"@, line)),
            refs@.len() >= 3 && (exists|t: int| 0 <= t < refs@.len() && !old(self).position_ok(#[trigger] refs@[t]))
                ==> (r matches Err(e) && is_obj_format_error(e, "Invalid vertex index"@, line)),
            refs@.len() >= 3 && (forall|t: int| 0 <= t < refs@.len() ==> old(self).position_ok(#[trigger] refs@[t]))
                && old(self).target_len() + refs@.len() > u32::MAX
                ==> (r matches Err(e) && is_obj_format_error(e, "Too many vertices"@, line)),
            r is Err ==> final(self).submeshes@ == old(self).submeshes@,
            r is Ok <==> (refs@.len() >= 3 && (forall|t: int| 0 <= t < refs@.len() ==> old(self).position_ok(#[trigger] refs@[t]))
                && old(self).target_len() + refs@.len() <= u32::MAX),
            r is Ok ==> {
                let empty = old(self).submeshes@.len() == 0;
                let before_vertices = if empty { Seq::<Vertex>::empty() } else { old(self).submeshes@.last().vertices@ };
                let before_indices = if empty { Seq::<u32>::empty() } else { old(self).submeshes@.last().indices@ };
                let after = final(self).submeshes@.last();
                &&& final(self).submeshes@.len() == if empty { 1 } else { old(self).submeshes@.len() }
                &&& final(self).submeshes@.drop_last() == if empty { old(self).submeshes@ } else { old(self).submeshes@.drop_last() }
                &&& after.material.properties == if empty { default_gpu_materials() } else { old(self).submeshes@.last().material.properties }
                &&& before_vertices == after.vertices@.take(before_vertices.len() as int)
                &&& forall|q: int| before_vertices.len() <= q < after.vertices@.len()
                    ==> exists|t: int| 0 <= t < refs@.len() && (#[trigger] after.vertices@[q]) == old(self).corner(refs@[t])
                &&& exists|ids: Seq<u32>| {
                    &&& ids.len() == refs@.len()
                    &&& (forall|t: int| 0 <= t < ids.len() ==> #[trigger] ids[t] < after.vertices@.len()
                        && after.vertices@[ids[t] as int] == old(self).corner(refs@[t]))
                    &&& after.indices@ == before_indices + fan(ids)
                }
            },
    {
        if refs.len() < 3 {
            return Err(FileError::FormatError(String::from_str("Invalid face definition"), FileType::Obj, line));
        }
        if !self.positions_ok(refs) {
            return Err(FileError::FormatError(String::from_str("Invalid vertex index"), FileType::Obj, line));
        }
        let existing: usize = if self.submeshes.len() == 0 { 0 } else { self.submeshes[self.submeshes.len() - 1].vertices.len() };
        if existing as u64 > 0xffff_ffff || refs.len() as u64 > 0xffff_ffff - existing as u64 {
            return Err(FileError::FormatError(String::from_str("Too many vertices"), FileType::Obj, line));
        }
        let ghost old_subs = self.submeshes@;
        let mut sub = match self.submeshes.pop() {
            Some(s) => s,
            None => SubMesh { vertices: Vec::new(), indices: Vec::new(), material: Material::default() },
        };
        let ghost before = sub;
        proof {
            if old_subs.len() > 0 {
                assert(old_subs[old_subs.len() - 1] == old_subs.last());
            }
        }
        let mut ids: Vec<u32> = Vec::new();
        let mut t: usize = 0;
        while t < refs.len()
            invariant
                t <= refs@.len(),
                forall|u: int| 0 <= u < refs@.len() ==> self.position_ok(#[trigger] refs@[u]),
                before.vertices@.len() + refs@.len() <= u32::MAX,
                before.wf(),
                distinct_vertices(before),
                sub.wf(),
                distinct_vertices(sub),
                sub.indices@ == before.indices@,
                sub.material == before.material,
                before.vertices@ == sub.vertices@.take(before.vertices@.len() as int),
                before.vertices@.len() <= sub.vertices@.len() <= before.vertices@.len() + t,
                forall|q: int| before.vertices@.len() <= q < sub.vertices@.len()
                    ==> exists|u: int| 0 <= u < t && (#[trigger] sub.vertices@[q]) == self.corner(refs@[u]),
                ids@.len() == t,
                forall|u: int| 0 <= u < t ==> #[trigger] ids@[u] < sub.vertices@.len()
                    && sub.vertices@[ids@[u] as int] == self.corner(refs@[u]),
            decreases refs@.len() - t,
        {
            let v = self.corner_of(refs[t]);
            let id: u32 = match find_vertex(&sub.vertices, &v) {
                Some(k) => k as u32,
                None => {
                    let k = sub.vertices.len() as u32;
                    let ghost pre = sub.vertices@;
                    sub.vertices.push(v);
                    proof {
                        assert(sub.vertices@.take(before.vertices@.len() as int) =~= pre.take(before.vertices@.len() as int));
                        assert forall|q: int| before.vertices@.len() <= q < sub.vertices@.len()
                            implies exists|u: int| 0 <= u < t + 1 && (#[trigger] sub.vertices@[q]) == self.corner(refs@[u]) by {
                            if q < pre.len() {
                                assert(pre[q] == sub.vertices@[q]);
                                let u = choose|u: int| 0 <= u < t && (#[trigger] pre[q]) == self.corner(refs@[u]);
                                assert(sub.vertices@[q] == self.corner(refs@[u]));
                            } else {
                                assert(sub.vertices@[q] == self.corner(refs@[t as int]));
                            }
                        }
                    }
                    k
                },
            };
            ids.push(id);
            t = t + 1;
        }
        let n = ids.len();
        let ghost idx0 = sub.indices@;
        let ghost vfinal = sub.vertices@;
        let mut k: usize = 1;
        while k + 1 < n
            invariant
                sub.vertices@ == vfinal,
                sub.material == before.material,
                n == ids@.len(),
                n >= 3,
                1 <= k <= n - 1,
                sub.indices@ == idx0 + fan_prefix(ids@, k - 1),
                forall|u: int| 0 <= u < n ==> #[trigger] ids@[u] < sub.vertices@.len(),
                forall|j: int| 0 <= j < idx0.len() ==> (#[trigger] idx0[j]) < sub.vertices@.len(),
            decreases n - k,
        {
            sub.indices.push(ids[0]);
            sub.indices.push(ids[k]);
            sub.indices.push(ids[k + 1]);
            proof {
                assert(sub.indices@ =~= idx0 + fan_prefix(ids@, k as int));
            }
            k = k + 1;
        }
        proof {
            assert forall|j: int| 0 <= j < sub.indices@.len() implies (#[trigger] sub.indices@[j]) < sub.vertices@.len() by {
                if j >= idx0.len() {
                    let t = j - idx0.len();
                    assert(sub.indices@[j] == fan_prefix(ids@, k - 1)[t]);
                }
            }
        }
        let ghost mid = self.submeshes@;
        self.submeshes.push(sub);
        proof {
            assert(self.submeshes@.drop_last() =~= mid);
            assert(sub.wf());
            assert(distinct_vertices(sub));
            assert forall|j: int| 0 <= j < self.submeshes@.len() implies (#[trigger] self.submeshes@[j]).wf() && distinct_vertices(self.submeshes@[j]) by {
                if j < mid.len() {
                    assert(mid[j] == old_subs[j]);
                    assert(old(self).submeshes@[j].wf() && distinct_vertices(old(self).submeshes@[j]));
                    assert(self.submeshes@[j] == old_subs[j]);
                } else {
                    assert(self.submeshes@[j] == sub);
                }
            }
            assert(self.submeshes@.last() == sub);
            assert(k - 1 == n - 2);
            assert(sub.indices@ == idx0 + fan(ids@));
            if old_subs.len() == 0 {
                assert(before.vertices@ =~= Seq::<Vertex>::empty());
                assert(before.indices@ =~= Seq::<u32>::empty());
            }
            assert(ids@.len() == refs@.len());
        }
        Ok(())
    }

    /// The mesh read so far, placed at the origin without scaling.
    pub fn finish(self) -> (m: Mesh)
        ensures
            m.submeshes@ == self.submeshes@,
            m.world_transform == identity_bits(),
    {
        Mesh { submeshes: self.submeshes, world_transform: Mat4::identity() }
    }
}

} // verus!
