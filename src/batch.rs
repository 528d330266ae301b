use vstd::prelude::*;
use crate::error::GraphicsError;
use crate::scene::{GpuMaterials, Mesh, Scene, SubMesh, Vertex};
use crate::vector::Mat4;

verus! {

/// One indirect indexed draw, in the device's record layout.
#[derive(Debug, Clone, Copy, PartialEq, Eq, Hash, Structural)]
pub struct DrawIndexedIndirectCommand {
    pub index_count: u32,
    pub instance_count: u32,
    pub first_index: u32,
    pub vertex_offset: u32,
    pub first_instance: u32,
}

/// The camera uniform block: view and projection matrices.
#[derive(Debug, Clone, Copy, PartialEq, Eq, Hash)]
pub struct CameraUbo {
    pub view: Mat4,
    pub proj: Mat4,
}

/// Everything one frame draws, merged into flat buffers. Element `i` of the
/// per-instance buffers and of `commands` belong to the same sub-mesh.
#[derive(Debug, Clone)]
pub struct FrameBatch {
    pub vertices: Vec<Vertex>,
    pub indices: Vec<u32>,
    pub camera: CameraUbo,
    pub model_matrices: Vec<Mat4>,
    pub normal_matrices: Vec<Mat4>,
    pub materials: Vec<GpuMaterials>,
    pub commands: Vec<DrawIndexedIndirectCommand>,
}

/// An emitted sub-mesh together with the index of the object that holds it.
pub type Instance = (int, SubMesh);

/// The drawn sub-meshes of `subs`, in order, each tagged with object `o`.
pub open spec fn drawn_of(subs: Seq<SubMesh>, o: int) -> Seq<Instance>
    decreases subs.len(),
{
    if subs.len() == 0 {
        Seq::empty()
    } else if subs.last().is_drawn() {
        drawn_of(subs.drop_last(), o).push((o, subs.last()))
    } else {
        drawn_of(subs.drop_last(), o)
    }
}

/// The drawn sub-meshes of all objects: objects in order, then sub-meshes in
/// each object's order.
pub open spec fn instances(objs: Seq<Mesh>) -> Seq<Instance>
    decreases objs.len(),
{
    if objs.len() == 0 {
        Seq::empty()
    } else {
        instances(objs.drop_last()) + drawn_of(objs.last().submeshes@, objs.len() - 1)
    }
}

/// The merged vertex buffer of a run of instances.
pub open spec fn vertices_of(inst: Seq<Instance>) -> Seq<Vertex>
    decreases inst.len(),
{
    if inst.len() == 0 {
        Seq::empty()
    } else {
        vertices_of(inst.drop_last()) + inst.last().1.vertices@
    }
}

/// Indices moved up by `base` vertices.
pub open spec fn rebase(idx: Seq<u32>, base: int) -> Seq<u32> {
    idx.map_values(|i: u32| (i + base) as u32)
}

/// The merged index buffer: each sub-mesh's indices rebased onto the start of
/// its vertices in the merged vertex buffer.
pub open spec fn indices_of(inst: Seq<Instance>) -> Seq<u32>
    decreases inst.len(),
{
    if inst.len() == 0 {
        Seq::empty()
    } else {
        indices_of(inst.drop_last()) + rebase(
            inst.last().1.indices@,
            vertices_of(inst.drop_last()).len() as int,
        )
    }
}

/// Where instance `i`'s vertices start in the merged vertex buffer.
pub open spec fn vertex_start(inst: Seq<Instance>, i: int) -> int {
    vertices_of(inst.take(i)).len() as int
}

/// Where instance `i`'s indices start in the merged index buffer.
pub open spec fn index_start(inst: Seq<Instance>, i: int) -> int {
    indices_of(inst.take(i)).len() as int
}

/// The draw of instance `i`: its indices, once, as instance number `i`. The
/// indices are already rebased, so no vertex offset is added.
pub open spec fn command_of(inst: Seq<Instance>, i: int) -> DrawIndexedIndirectCommand {
    DrawIndexedIndirectCommand {
        index_count: inst[i].1.indices@.len() as u32,
        instance_count: 1,
        first_index: index_start(inst, i) as u32,
        vertex_offset: 0,
        first_instance: i as u32,
    }
}

/// The buffers hold exactly what the instances `inst` of `objs` give.
pub open spec fn buffers_match(
    inst: Seq<Instance>,
    objs: Seq<Mesh>,
    normals: Seq<Mat4>,
    vertices: Seq<Vertex>,
    indices: Seq<u32>,
    models: Seq<Mat4>,
    normals_out: Seq<Mat4>,
    materials: Seq<GpuMaterials>,
    commands: Seq<DrawIndexedIndirectCommand>,
) -> bool {
    &&& vertices == vertices_of(inst)
    &&& indices == indices_of(inst)
    &&& models == Seq::new(inst.len(), |i: int| objs[inst[i].0].world_transform)
    &&& normals_out == Seq::new(inst.len(), |i: int| normals[inst[i].0])
    &&& materials == Seq::new(inst.len(), |i: int| inst[i].1.material.properties)
    &&& commands == Seq::new(inst.len(), |i: int| command_of(inst, i))
}

/// `b` is the batch of `scene` with camera block `camera` and, for each object,
/// the normal matrix in `normals`.
pub open spec fn compiled(scene: Scene, camera: CameraUbo, normals: Seq<Mat4>, b: FrameBatch) -> bool {
    &&& b.camera == camera
    &&& buffers_match(
        instances(scene.objects@),
        scene.objects@,
        normals,
        b.vertices@,
        b.indices@,
        b.model_matrices@,
        b.normal_matrices@,
        b.materials@,
        b.commands@,
    )
}

/// Every sub-mesh of the scene indexes only its own vertices.
pub open spec fn submeshes_wf(objs: Seq<Mesh>) -> bool {
    forall|o: int, j: int|
        0 <= o < objs.len() && 0 <= j < objs[o].submeshes@.len() ==> (#[trigger] objs[o].submeshes@[j]).wf()
}

/// The scene is well formed and its merged buffers can be addressed with
/// 32-bit offsets.
pub open spec fn batch_fits(scene: Scene) -> bool {
    &&& submeshes_wf(scene.objects@)
    &&& vertices_of(instances(scene.objects@)).len() <= u32::MAX
    &&& indices_of(instances(scene.objects@)).len() <= u32::MAX
    &&& instances(scene.objects@).len() <= u32::MAX
}

pub open spec fn is_prefix<A>(p: Seq<A>, s: Seq<A>) -> bool {
    p.len() <= s.len() && p == s.take(p.len() as int)
}

proof fn lemma_prefix_trans<A>(p: Seq<A>, q: Seq<A>, s: Seq<A>)
    requires
        is_prefix(p, q),
        is_prefix(q, s),
    ensures
        is_prefix(p, s),
{
    assert(p =~= s.take(p.len() as int));
}

proof fn lemma_prefix_concat<A>(a: Seq<A>, p: Seq<A>, s: Seq<A>)
    requires
        is_prefix(p, s),
    ensures
        is_prefix(a + p, a + s),
{
    assert(a + p =~= (a + s).take((a + p).len() as int));
}

proof fn lemma_drawn_prefix(subs: Seq<SubMesh>, j: int, o: int)
    requires
        0 <= j <= subs.len(),
    ensures
        is_prefix(drawn_of(subs.take(j), o), drawn_of(subs, o)),
    decreases subs.len(),
{
    if j == subs.len() {
        assert(subs.take(j) =~= subs);
        let d = drawn_of(subs, o);
        assert(d =~= d.take(d.len() as int));
    } else {
        assert(subs.take(j) =~= subs.drop_last().take(j));
        lemma_drawn_prefix(subs.drop_last(), j, o);
        let d = drawn_of(subs.drop_last(), o);
        if subs.last().is_drawn() {
            assert(d =~= d.push((o, subs.last())).take(d.len() as int));
            lemma_prefix_trans(drawn_of(subs.take(j), o), d, d.push((o, subs.last())));
        }
    }
}

proof fn lemma_instances_prefix(objs: Seq<Mesh>, k: int)
    requires
        0 <= k <= objs.len(),
    ensures
        is_prefix(instances(objs.take(k)), instances(objs)),
    decreases objs.len(),
{
    if k == objs.len() {
        assert(objs.take(k) =~= objs);
        let a = instances(objs);
        assert(a =~= a.take(a.len() as int));
    } else {
        assert(objs.take(k) =~= objs.drop_last().take(k));
        lemma_instances_prefix(objs.drop_last(), k);
        let a = instances(objs.drop_last());
        let d = drawn_of(objs.last().submeshes@, objs.len() - 1);
        assert(a =~= (a + d).take(a.len() as int));
        lemma_prefix_trans(instances(objs.take(k)), a, a + d);
    }
}

proof fn lemma_buffers_prefix(p: Seq<Instance>, s: Seq<Instance>)
    requires
        is_prefix(p, s),
    ensures
        is_prefix(vertices_of(p), vertices_of(s)),
        is_prefix(indices_of(p), indices_of(s)),
    decreases s.len(),
{
    if p.len() == s.len() {
        assert(p =~= s);
        let v = vertices_of(s);
        let x = indices_of(s);
        assert(v =~= v.take(v.len() as int));
        assert(x =~= x.take(x.len() as int));
    } else {
        assert(p =~= s.drop_last().take(p.len() as int));
        lemma_buffers_prefix(p, s.drop_last());
        let v = vertices_of(s.drop_last());
        let x = indices_of(s.drop_last());
        let vs = vertices_of(s);
        let xs = indices_of(s);
        assert(v =~= vs.take(v.len() as int));
        assert(x =~= xs.take(x.len() as int));
        lemma_prefix_trans(vertices_of(p), v, vs);
        lemma_prefix_trans(indices_of(p), x, xs);
    }
}

proof fn lemma_push_unfold(inst: Seq<Instance>, e: Instance)
    ensures
        vertices_of(inst.push(e)) == vertices_of(inst) + e.1.vertices@,
        indices_of(inst.push(e)) == indices_of(inst) + rebase(e.1.indices@, vertices_of(inst).len() as int),
{
    assert(inst.push(e).drop_last() =~= inst);
}

proof fn lemma_command_stable(inst: Seq<Instance>, e: Instance, i: int)
    requires
        0 <= i < inst.len(),
    ensures
        command_of(inst.push(e), i) == command_of(inst, i),
{
    assert(inst.push(e).take(i) =~= inst.take(i));
}

/// Number of sub-meshes in `subs` that have vertices and indices.
pub open spec fn drawn_count(subs: Seq<SubMesh>) -> nat
    decreases subs.len(),
{
    if subs.len() == 0 {
        0
    } else {
        drawn_count(subs.drop_last()) + if subs.last().is_drawn() { 1nat } else { 0nat }
    }
}

/// Number of drawn sub-meshes over all objects.
pub open spec fn total_drawn(objs: Seq<Mesh>) -> nat
    decreases objs.len(),
{
    if objs.len() == 0 {
        0
    } else {
        total_drawn(objs.drop_last()) + drawn_count(objs.last().submeshes@)
    }
}

proof fn lemma_drawn_of_facts(subs: Seq<SubMesh>, o: int)
    ensures
        drawn_of(subs, o).len() == drawn_count(subs),
        forall|i: int| 0 <= i < drawn_of(subs, o).len() ==> {
            let e = #[trigger] drawn_of(subs, o)[i];
            e.0 == o && e.1.is_drawn() && exists|j: int| 0 <= j < subs.len() && subs[j] == e.1
        },
    decreases subs.len(),
{
    if subs.len() > 0 {
        lemma_drawn_of_facts(subs.drop_last(), o);
        let d = drawn_of(subs.drop_last(), o);
        assert forall|i: int| 0 <= i < drawn_of(subs, o).len() implies {
            let e = #[trigger] drawn_of(subs, o)[i];
            e.0 == o && e.1.is_drawn() && exists|j: int| 0 <= j < subs.len() && subs[j] == e.1
        } by {
            if i < d.len() {
                let e = d[i];
                let j = choose|j: int| 0 <= j < subs.drop_last().len() && subs.drop_last()[j] == e.1;
                assert(subs[j] == e.1);
            } else {
                assert(subs[subs.len() - 1] == subs.last());
            }
        }
    }
}

proof fn lemma_instances_facts(objs: Seq<Mesh>)
    ensures
        instances(objs).len() == total_drawn(objs),
        forall|i: int| 0 <= i < instances(objs).len() ==> {
            let e = #[trigger] instances(objs)[i];
            0 <= e.0 < objs.len() && e.1.is_drawn()
                && exists|j: int| 0 <= j < objs[e.0].submeshes@.len() && objs[e.0].submeshes@[j] == e.1
        },
    decreases objs.len(),
{
    if objs.len() > 0 {
        let a = instances(objs.drop_last());
        let subs = objs.last().submeshes@;
        let d = drawn_of(subs, objs.len() - 1);
        lemma_instances_facts(objs.drop_last());
        lemma_drawn_of_facts(subs, objs.len() - 1);
        assert forall|i: int| 0 <= i < instances(objs).len() implies {
            let e = #[trigger] instances(objs)[i];
            0 <= e.0 < objs.len() && e.1.is_drawn()
                && exists|j: int| 0 <= j < objs[e.0].submeshes@.len() && objs[e.0].submeshes@[j] == e.1
        } by {
            if i < a.len() {
                assert(instances(objs)[i] == a[i]);
                assert(objs.drop_last()[a[i].0] == objs[a[i].0]);
            } else {
                assert(instances(objs)[i] == d[i - a.len()]);
                assert(objs[objs.len() - 1] == objs.last());
            }
        }
    }
}

/// A frame batch holds one draw per drawn sub-mesh, and as many model
/// matrices, normal matrices and materials; entry `i` of each of them belongs
/// to the `i`-th drawn sub-mesh, whose draw carries instance number `i` and
/// reads a range that lies within the index buffer.
pub proof fn lemma_instance_buffers_agree(scene: Scene, camera: CameraUbo, normals: Seq<Mat4>, b: FrameBatch)
    requires
        batch_fits(scene),
        normals.len() == scene.objects@.len(),
        compiled(scene, camera, normals, b),
    ensures
        b.commands@.len() == total_drawn(scene.objects@),
        b.model_matrices@.len() == total_drawn(scene.objects@),
        b.normal_matrices@.len() == total_drawn(scene.objects@),
        b.materials@.len() == total_drawn(scene.objects@),
        forall|i: int| 0 <= i < b.commands@.len() ==> {
            let e = #[trigger] instances(scene.objects@)[i];
            &&& b.commands@[i].first_instance == i
            &&& b.commands@[i].instance_count == 1
            &&& b.commands@[i].index_count == e.1.indices@.len()
            &&& b.commands@[i].first_index + b.commands@[i].index_count <= b.indices@.len()
            &&& b.model_matrices@[i] == scene.objects@[e.0].world_transform
            &&& b.normal_matrices@[i] == normals[e.0]
            &&& b.materials@[i] == e.1.material.properties
        },
{
    lemma_instances_facts(scene.objects@);
    let inst = instances(scene.objects@);
    assert forall|i: int| 0 <= i < b.commands@.len() implies {
        let e = #[trigger] instances(scene.objects@)[i];
        &&& b.commands@[i].first_instance == i
        &&& b.commands@[i].instance_count == 1
        &&& b.commands@[i].index_count == e.1.indices@.len()
        &&& b.commands@[i].first_index + b.commands@[i].index_count <= b.indices@.len()
        &&& b.model_matrices@[i] == scene.objects@[e.0].world_transform
        &&& b.normal_matrices@[i] == normals[e.0]
        &&& b.materials@[i] == e.1.material.properties
    } by {
        let e = inst[i];
        let j = choose|j: int| 0 <= j < scene.objects@[e.0].submeshes@.len() && scene.objects@[e.0].submeshes@[j] == e.1;
        assert(scene.objects@[e.0].submeshes@[j].wf());
        lemma_instance_within(inst, i);
        lemma_buffers_prefix(inst.take(i + 1), inst);
    }
}

proof fn lemma_instance_within(inst: Seq<Instance>, i: int)
    requires
        0 <= i < inst.len(),
    ensures
        is_prefix(inst.take(i + 1), inst),
        inst.take(i + 1).drop_last() == inst.take(i),
        inst.take(i + 1).last() == inst[i],
        indices_of(inst.take(i + 1)) == indices_of(inst.take(i)) + rebase(inst[i].1.indices@, vertex_start(inst, i)),
        vertices_of(inst.take(i + 1)) == vertices_of(inst.take(i)) + inst[i].1.vertices@,
{
    assert(inst.take(i + 1) =~= inst.take(inst.take(i + 1).len() as int));
    assert(inst.take(i + 1).drop_last() =~= inst.take(i));
}

/// Compiling the same scene with the same inputs twice gives the same batch:
/// same buffers, same per-instance order, same camera block.
pub proof fn lemma_compile_deterministic(
    scene: Scene,
    camera: CameraUbo,
    normals: Seq<Mat4>,
    b1: FrameBatch,
    b2: FrameBatch,
)
    requires
        compiled(scene, camera, normals, b1),
        compiled(scene, camera, normals, b2),
    ensures
        b1.vertices@ == b2.vertices@,
        b1.indices@ == b2.indices@,
        b1.camera == b2.camera,
        b1.model_matrices@ == b2.model_matrices@,
        b1.normal_matrices@ == b2.normal_matrices@,
        b1.materials@ == b2.materials@,
        b1.commands@ == b2.commands@,
{
}

/// The indices of the `i`-th drawn sub-mesh B, rebased, lie within B's own
/// run of the merged vertex buffer, which starts right after the run of the
/// sub-mesh A drawn before it.
pub proof fn lemma_rebased_indices_in_range(scene: Scene, camera: CameraUbo, normals: Seq<Mat4>, b: FrameBatch, i: int)
    requires
        batch_fits(scene),
        compiled(scene, camera, normals, b),
        0 < i < b.commands@.len(),
    ensures
        ({
            let inst = instances(scene.objects@);
            let a = inst[i - 1].1;
            let bm = inst[i].1;
            let n = vertex_start(inst, i);
            let first = b.commands@[i].first_index as int;
            let count = b.commands@[i].index_count as int;
            &&& n == vertex_start(inst, i - 1) + a.vertices@.len()
            &&& first + count <= b.indices@.len()
            &&& n + bm.vertices@.len() <= b.vertices@.len()
            &&& forall|t: int| first <= t < first + count ==> n <= #[trigger] b.indices@[t] < n + bm.vertices@.len()
        }),
{
    let inst = instances(scene.objects@);
    lemma_instances_facts(scene.objects@);
    lemma_instance_within(inst, i);
    lemma_instance_within(inst, i - 1);
    assert(inst.take(i - 1 + 1) =~= inst.take(i));
    lemma_buffers_prefix(inst.take(i + 1), inst);
    let bm = inst[i].1;
    let j = choose|j: int| 0 <= j < scene.objects@[inst[i].0].submeshes@.len() && scene.objects@[inst[i].0].submeshes@[j] == bm;
    assert(scene.objects@[inst[i].0].submeshes@[j].wf());
    let n = vertex_start(inst, i);
    let first = index_start(inst, i);
    let xs = indices_of(inst.take(i + 1));
    assert forall|t: int| first <= t < first + bm.indices@.len() implies n <= #[trigger] b.indices@[t] < n + bm.vertices@.len() by {
        assert(b.indices@[t] == xs[t]);
        assert(xs[t] == rebase(bm.indices@, n)[t - first]);
        assert(bm.indices@[t - first] < bm.vertices@.len());
    }
}

proof fn lemma_indices_below(inst: Seq<Instance>)
    requires
        vertices_of(inst).len() <= u32::MAX,
        forall|i: int| 0 <= i < inst.len() ==> (#[trigger] inst[i]).1.wf(),
    ensures
        forall|t: int| 0 <= t < indices_of(inst).len() ==> (#[trigger] indices_of(inst)[t]) < vertices_of(inst).len(),
    decreases inst.len(),
{
    if inst.len() > 0 {
        let d = inst.drop_last();
        assert forall|i: int| 0 <= i < d.len() implies (#[trigger] d[i]).1.wf() by {
            assert(d[i] == inst[i]);
        }
        lemma_indices_below(d);
        let last = inst.last();
        assert(inst[inst.len() - 1] == last);
        let base = vertices_of(d).len() as int;
        assert forall|t: int| 0 <= t < indices_of(inst).len() implies (#[trigger] indices_of(inst)[t]) < vertices_of(inst).len() by {
            if t >= indices_of(d).len() {
                let u = t - indices_of(d).len();
                assert(last.1.indices@[u] < last.1.vertices@.len());
                assert(indices_of(inst)[t] == rebase(last.1.indices@, base)[u]);
            } else {
                assert(indices_of(inst)[t] == indices_of(d)[t]);
            }
        }
    }
}

/// Every index of a frame batch names a vertex of its merged vertex buffer,
/// so the batch's draws read no vertex outside it.
pub proof fn lemma_indices_within_vertex_buffer(scene: Scene, camera: CameraUbo, normals: Seq<Mat4>, b: FrameBatch)
    requires
        batch_fits(scene),
        compiled(scene, camera, normals, b),
    ensures
        forall|t: int| 0 <= t < b.indices@.len() ==> (#[trigger] b.indices@[t]) < b.vertices@.len(),
{
    let inst = instances(scene.objects@);
    lemma_instances_facts(scene.objects@);
    assert forall|i: int| 0 <= i < inst.len() implies (#[trigger] inst[i]).1.wf() by {
        let j = choose|j: int| 0 <= j < scene.objects@[inst[i].0].submeshes@.len() && scene.objects@[inst[i].0].submeshes@[j] == inst[i].1;
        assert(scene.objects@[inst[i].0].submeshes@[j].wf());
    }
    lemma_indices_below(inst);
}

/// A scene without objects compiles to a batch with no vertices, no indices,
/// no draws and empty per-instance buffers.
pub proof fn lemma_empty_scene_batch(scene: Scene, camera: CameraUbo, normals: Seq<Mat4>, b: FrameBatch)
    requires
        scene.objects@.len() == 0,
        compiled(scene, camera, normals, b),
    ensures
        b.vertices@.len() == 0,
        b.indices@.len() == 0,
        b.commands@.len() == 0,
        b.model_matrices@.len() == 0,
        b.normal_matrices@.len() == 0,
        b.materials@.len() == 0,
{
}

impl FrameBatch {
    /// Whether `scene` can be compiled: every sub-mesh indexes only its own
    /// vertices, and the merged vertex and index buffers and the number of
    /// draws stay within 32-bit counts.
    pub fn fits_in_batch(scene: &Scene) -> (r: bool)
        ensures
            r == batch_fits(*scene),
    {
        let ghost objs = scene.objects@;
        let ghost total = instances(objs);
        let limit: u64 = 0xffff_ffff;
        let mut tv: u64 = 0;
        let mut ti: u64 = 0;
        let mut tn: u64 = 0;
        let mut o: usize = 0;
        proof {
            assert(objs.take(0) =~= Seq::<Mesh>::empty());
        }
        while o < scene.objects.len()
            invariant
                objs == scene.objects@,
                total == instances(objs),
                o <= objs.len(),
                tv == vertices_of(instances(objs.take(o as int))).len(),
                ti == indices_of(instances(objs.take(o as int))).len(),
                tn == instances(objs.take(o as int)).len(),
                limit == u32::MAX,
                tv <= limit && ti <= limit && tn <= limit,
                forall|p: int, q: int| 0 <= p < o && 0 <= q < objs[p].submeshes@.len() ==> (#[trigger] objs[p].submeshes@[q]).wf(),
            decreases objs.len() - o,
        {
            let mesh = &scene.objects[o];
            let ghost subs = mesh.submeshes@;
            let ghost before = instances(objs.take(o as int));
            proof {
                lemma_instances_prefix(objs, o as int + 1);
                assert(objs.take(o as int + 1).drop_last() =~= objs.take(o as int));
                assert(instances(objs.take(o as int + 1)) == before + drawn_of(subs, o as int));
                assert(subs.take(0) =~= Seq::<SubMesh>::empty());
                assert(before + drawn_of(subs.take(0), o as int) =~= before);
            }
            let mut j: usize = 0;
            while j < mesh.submeshes.len()
                invariant
                    objs == scene.objects@,
                    total == instances(objs),
                    o < objs.len(),
                    *mesh == objs[o as int],
                    subs == mesh.submeshes@,
                    before == instances(objs.take(o as int)),
                    is_prefix(before + drawn_of(subs, o as int), total),
                    j <= subs.len(),
                    tv == vertices_of(before + drawn_of(subs.take(j as int), o as int)).len(),
                    ti == indices_of(before + drawn_of(subs.take(j as int), o as int)).len(),
                    tn == (before + drawn_of(subs.take(j as int), o as int)).len(),
                    limit == u32::MAX,
                tv <= limit && ti <= limit && tn <= limit,
                    forall|p: int, q: int| 0 <= p < o && 0 <= q < objs[p].submeshes@.len() ==> (#[trigger] objs[p].submeshes@[q]).wf(),
                    forall|q: int| 0 <= q < j ==> (#[trigger] subs[q]).wf(),
                decreases subs.len() - j,
            {
                let sub = &mesh.submeshes[j];
                let ghost cur = before + drawn_of(subs.take(j as int), o as int);
                proof {
                    assert(subs.take(j as int + 1).drop_last() =~= subs.take(j as int));
                    assert(subs.take(j as int + 1).last() == subs[j as int]);
                    assert(objs[o as int].submeshes@[j as int] == subs[j as int]);
                }
                if !sub.indices_in_range() {
                    proof {
                        assert(!objs[o as int].submeshes@[j as int].wf());
                        assert(!submeshes_wf(objs));
                    }
                    return false;
                }
                let nv = sub.vertices.len();
                if !sub.is_empty() {
                    let ghost e: Instance = (o as int, *sub);
                    let ghost next = cur.push(e);
                    proof {
                        assert(drawn_of(subs.take(j as int + 1), o as int) == drawn_of(subs.take(j as int), o as int).push(e));
                        assert(next =~= before + drawn_of(subs.take(j as int + 1), o as int));
                        lemma_drawn_prefix(subs, j as int + 1, o as int);
                        lemma_prefix_concat(before, drawn_of(subs.take(j as int + 1), o as int), drawn_of(subs, o as int));
                        lemma_prefix_trans(next, before + drawn_of(subs, o as int), total);
                        lemma_buffers_prefix(next, total);
                        lemma_push_unfold(cur, e);
                    }
                    let ni = sub.indices.len();
                    if nv as u64 > limit - tv || ni as u64 > limit - ti || tn == limit {
                        proof {
                            assert(rebase(sub.indices@, vertices_of(cur).len() as int).len() == ni);
                            assert(vertices_of(next).len() == tv + nv);
                            assert(indices_of(next).len() == ti + ni);
                            assert(next.len() == tn + 1);
                        }
                        return false;
                    }
                    tv = tv + nv as u64;
                    ti = ti + ni as u64;
                    tn = tn + 1;
                } else {
                    proof {
                        assert(drawn_of(subs.take(j as int + 1), o as int) == drawn_of(subs.take(j as int), o as int));
                    }
                }
                j = j + 1;
            }
            proof {
                assert(subs.take(j as int) =~= subs);
            }
            o = o + 1;
        }
        proof {
            assert(objs.take(o as int) =~= objs);
        }
        true
    }

    /// Flattens `scene` into one frame's buffers. Objects are walked in order,
    /// then each object's sub-meshes; a sub-mesh without vertices or without
    /// indices is skipped. Each drawn sub-mesh appends its vertices, its indices
    /// rebased by the vertices already merged, its object's world transform,
    /// that object's entry of `normals`, its material and one draw whose
    /// instance number counts the drawn sub-meshes so far. `camera` is the
    /// block computed for the active camera. Fails with `NoCameraFound`, and
    /// only then, when the active camera index names no camera.
    pub fn compile(scene: &Scene, camera: CameraUbo, normals: &Vec<Mat4>) -> (r: Result<FrameBatch, GraphicsError>)
        requires
            batch_fits(*scene),
            normals@.len() == scene.objects@.len(),
        ensures
            r.is_err() == !scene.has_active_camera(),
            r matches Err(e) ==> e is NoCameraFound,
            r matches Ok(b) ==> compiled(*scene, camera, normals@, b),
    {
        if scene.main_camera_index >= scene.cameras.len() {
            return Err(GraphicsError::NoCameraFound);
        }
        let ghost objs = scene.objects@;
        let ghost total = instances(objs);
        let mut vertices: Vec<Vertex> = Vec::new();
        let mut indices: Vec<u32> = Vec::new();
        let mut models: Vec<Mat4> = Vec::new();
        let mut normals_out: Vec<Mat4> = Vec::new();
        let mut materials: Vec<GpuMaterials> = Vec::new();
        let mut commands: Vec<DrawIndexedIndirectCommand> = Vec::new();
        let mut o: usize = 0;
        proof {
            assert(objs.take(0) =~= Seq::<Mesh>::empty());
            let e0 = instances(objs.take(0));
            assert(e0 =~= Seq::<Instance>::empty());
            assert(vertices@ =~= vertices_of(e0));
            assert(indices@ =~= indices_of(e0));
            assert(models@ =~= Seq::new(e0.len(), |i: int| objs[e0[i].0].world_transform));
            assert(normals_out@ =~= Seq::new(e0.len(), |i: int| normals@[e0[i].0]));
            assert(materials@ =~= Seq::new(e0.len(), |i: int| e0[i].1.material.properties));
            assert(commands@ =~= Seq::new(e0.len(), |i: int| command_of(e0, i)));
        }
        while o < scene.objects.len()
            invariant
                objs == scene.objects@,
                total == instances(objs),
                batch_fits(*scene),
                normals@.len() == objs.len(),
                o <= objs.len(),
                buffers_match(instances(objs.take(o as int)), objs, normals@, vertices@, indices@, models@, normals_out@, materials@, commands@),
            decreases objs.len() - o,
        {
            let mesh = &scene.objects[o];
            let ghost subs = mesh.submeshes@;
            let ghost before = instances(objs.take(o as int));
            proof {
                lemma_instances_prefix(objs, o as int + 1);
                assert(objs.take(o as int + 1).drop_last() =~= objs.take(o as int));
                assert(instances(objs.take(o as int + 1)) == before + drawn_of(subs, o as int));
                assert(subs.take(0) =~= Seq::<SubMesh>::empty());
                assert(before + drawn_of(subs.take(0), o as int) =~= before);
            }
            let mut j: usize = 0;
            while j < mesh.submeshes.len()
                invariant
                    objs == scene.objects@,
                    total == instances(objs),
                    batch_fits(*scene),
                    normals@.len() == objs.len(),
                    o < objs.len(),
                    *mesh == objs[o as int],
                    subs == mesh.submeshes@,
                    before == instances(objs.take(o as int)),
                    is_prefix(before + drawn_of(subs, o as int), total),
                    j <= subs.len(),
                    buffers_match(before + drawn_of(subs.take(j as int), o as int), objs, normals@, vertices@, indices@, models@, normals_out@, materials@, commands@),
                decreases subs.len() - j,
            {
                let sub = &mesh.submeshes[j];
                let ghost cur = before + drawn_of(subs.take(j as int), o as int);
                proof {
                    assert(subs.take(j as int + 1).drop_last() =~= subs.take(j as int));
                    assert(subs.take(j as int + 1).last() == subs[j as int]);
                }
                if !sub.is_empty() {
                    let ghost e: Instance = (o as int, *sub);
                    let ghost next = cur.push(e);
                    proof {
                        assert(drawn_of(subs.take(j as int + 1), o as int) == drawn_of(subs.take(j as int), o as int).push(e));
                        assert(next =~= before + drawn_of(subs.take(j as int + 1), o as int));
                        lemma_drawn_prefix(subs, j as int + 1, o as int);
                        lemma_prefix_concat(before, drawn_of(subs.take(j as int + 1), o as int), drawn_of(subs, o as int));
                        lemma_prefix_trans(next, before + drawn_of(subs, o as int), total);
                        lemma_buffers_prefix(next, total);
                        lemma_push_unfold(cur, e);
                        assert(objs[o as int].submeshes@[j as int].wf());
                    }
                    let base: u32 = vertices.len() as u32;
                    let first_index: u32 = indices.len() as u32;
                    let instance_id: u32 = commands.len() as u32;
                    let ghost v0 = vertices@;
                    let mut k: usize = 0;
                    while k < sub.vertices.len()
                        invariant
                            k <= sub.vertices@.len(),
                            vertices@ == v0 + sub.vertices@.take(k as int),
                        decreases sub.vertices@.len() - k,
                    {
                        vertices.push(sub.vertices[k]);
                        proof {
                            assert(v0 + sub.vertices@.take(k as int + 1) =~= (v0 + sub.vertices@.take(k as int)).push(sub.vertices@[k as int]));
                        }
                        k = k + 1;
                    }
                    proof {
                        assert(sub.vertices@.take(k as int) =~= sub.vertices@);
                    }
                    let ghost i0 = indices@;
                    let mut k: usize = 0;
                    while k < sub.indices.len()
                        invariant
                            sub.wf(),
                            base as int + sub.vertices@.len() <= u32::MAX,
                            k <= sub.indices@.len(),
                            indices@ == i0 + rebase(sub.indices@.take(k as int), base as int),
                        decreases sub.indices@.len() - k,
                    {
                        let x: u32 = sub.indices[k] + base;
                        indices.push(x);
                        proof {
                            assert(i0 + rebase(sub.indices@.take(k as int + 1), base as int) =~= (i0 + rebase(sub.indices@.take(k as int), base as int)).push(x));
                        }
                        k = k + 1;
                    }
                    proof {
                        assert(sub.indices@.take(k as int) =~= sub.indices@);
                    }
                    models.push(mesh.world_transform);
                    normals_out.push(normals[o]);
                    materials.push(sub.material.properties);
                    commands.push(DrawIndexedIndirectCommand {
                        index_count: sub.indices.len() as u32,
                        instance_count: 1,
                        first_index,
                        vertex_offset: 0,
                        first_instance: instance_id,
                    });
                    proof {
                        assert(next.take(cur.len() as int) =~= cur);
                        assert forall|i: int| 0 <= i < cur.len() implies command_of(next, i) == command_of(cur, i) by {
                            lemma_command_stable(cur, e, i);
                        }
                        assert(models@ =~= Seq::new(next.len(), |i: int| objs[next[i].0].world_transform));
                        assert(normals_out@ =~= Seq::new(next.len(), |i: int| normals@[next[i].0]));
                        assert(materials@ =~= Seq::new(next.len(), |i: int| next[i].1.material.properties));
                        assert(commands@ =~= Seq::new(next.len(), |i: int| command_of(next, i)));
                    }
                } else {
                    proof {
                        assert(drawn_of(subs.take(j as int + 1), o as int) == drawn_of(subs.take(j as int), o as int));
                    }
                }
                j = j + 1;
            }
            proof {
                assert(subs.take(j as int) =~= subs);
            }
            o = o + 1;
        }
        proof {
            assert(objs.take(o as int) =~= objs);
        }
        Ok(FrameBatch {
            vertices,
            indices,
            camera,
            model_matrices: models,
            normal_matrices: normals_out,
            materials,
            commands,
        })
    }
}

} // verus!
