use vstd::prelude::*;
use crate::importer::defaults::{default_material, default_phong};
use crate::renderer::material::{
    Material, MaterialView, PhongMaterial, PhongMaterialData, PhongMaterialWithTextureView,
};
use crate::scene::mesh::Mesh;
use crate::scene::object3d::{
    empty_node, lemma_view_children, Object3D, Object3DObjectView, Object3DView,
};
use crate::util::matrix_util::{identity, ONE};

verus! {

/// One corner of a polygon: the index of its position and, where the file
/// gives them, the indices of its texture coordinates and of its normal.
#[derive(Clone, Copy, Debug, PartialEq, Eq, Hash)]
pub struct IndexTuple(pub usize, pub Option<usize>, pub Option<usize>);

/// A polygon as the run of its corners.
#[derive(Debug, PartialEq, Eq)]
pub struct SimplePolygon(pub Vec<IndexTuple>);

/// Why a mesh file could not be turned into scene nodes.
#[derive(Debug, PartialEq, Eq)]
pub enum LoadObjError {
    /// A polygon has fewer than three corners.
    TooFewVertices,
    /// A group names a material that no material file defined.
    MaterialNotLoaded(String),
}

/// The triangles of a polygon of at least three corners: a fan around the
/// first corner, one triangle for each further pair of neighbouring
/// corners.
pub open spec fn fan(corners: Seq<IndexTuple>) -> Seq<[IndexTuple; 3]> {
    Seq::new(
        (corners.len() - 2) as nat,
        |i: int| [corners[0], corners[i + 1], corners[i + 2]],
    )
}

/// Splits a polygon into the triangles of its fan. A polygon of fewer than
/// three corners has no triangles: that is an error.
pub fn split_poly(poly: &SimplePolygon) -> (result: Result<Vec<[IndexTuple; 3]>, LoadObjError>)
    ensures
        poly.0@.len() < 3 ==> result == Err::<Vec<[IndexTuple; 3]>, LoadObjError>(
            LoadObjError::TooFewVertices,
        ),
        poly.0@.len() >= 3 ==> result is Ok && result->Ok_0@ == fan(poly.0@),
{
    if poly.0.len() < 3 {
        return Err(LoadObjError::TooFewVertices);
    }
    let start_vertex = poly.0[0];
    let mut result: Vec<[IndexTuple; 3]> = Vec::new();
    let mut idx: usize = 1;
    while idx < poly.0.len() - 1
        invariant
            poly.0@.len() >= 3,
            1 <= idx <= poly.0@.len() - 1,
            start_vertex == poly.0@[0],
            result@.len() == idx - 1,
            forall|i: int| 0 <= i < idx - 1 ==> result@[i] == fan(poly.0@)[i],
        decreases poly.0@.len() - idx,
    {
        let triangle: [IndexTuple; 3] = [start_vertex, poly.0[idx], poly.0[idx + 1]];
        assert(triangle =~= fan(poly.0@)[idx - 1]);
        result.push(triangle);
        idx += 1;
    }
    assert(result@ =~= fan(poly.0@));
    Ok(result)
}

} // verus!

verus! {

/// `String::push_str` of the standard library: the string becomes what it
/// was with the characters of `string` after it.
pub assume_specification[ String::push_str ](s: &mut String, string: &str)
    ensures
        final(s)@ == old(s)@ + string@,
;

impl LoadObjError {
    /// What went wrong, in words.
    pub open spec fn description(self) -> Seq<char> {
        match self {
            LoadObjError::TooFewVertices => "Error loading the obj file: "@
                + "there were supposed to be at least 3 vertices."@,
            LoadObjError::MaterialNotLoaded(name) => "Error loading the obj file: "@ + "Material "@
                + name@ + " was supposed to be loaded."@,
        }
    }

    /// What went wrong, in words.
    pub fn to_string(&self) -> (text: String)
        ensures
            text@ == self.description(),
    {
        let mut text = String::new();
        text.push_str("Error loading the obj file: ");
        match self {
            LoadObjError::TooFewVertices => {
                text.push_str("there were supposed to be at least 3 vertices.");
            },
            LoadObjError::MaterialNotLoaded(name) => {
                text.push_str("Material ");
                text.push_str(name.as_str());
                text.push_str(" was supposed to be loaded.");
            },
        }
        assert(text@ =~= self.description());
        text
    }
}

/// What a material file says of one material, as far as the renderer reads
/// it: the ambient and diffuse colours, the shininess and the path of the
/// diffuse texture, each where the file gives it. Numbers are held by their
/// single-precision bit patterns.
#[derive(Debug, PartialEq, Eq)]
pub struct MtlMaterial {
    pub ka: Option<[u32; 3]>,
    pub kd: Option<[u32; 3]>,
    pub ns: Option<u32>,
    pub map_kd: Option<String>,
}

/// The bit pattern of the single-precision number nearest to two tenths.
pub const TWO_TENTHS: u32 = 0x3e4c_cccd;

/// The uniforms of a file's material. The ambient colour is the file's, or
/// black. The specular colour follows the file's ambient colour too, and is
/// white where there is none. The diffuse colour is the file's, or a red.
/// The shininess is the file's, or one.
pub open spec fn material_data(mat: MtlMaterial) -> PhongMaterialData {
    PhongMaterialData {
        ka: match mat.ka {
            Some(a) => a,
            None => [0u32, 0u32, 0u32],
        },
        kd: match mat.kd {
            Some(a) => a,
            None => [ONE, TWO_TENTHS, TWO_TENTHS],
        },
        ks: match mat.ka {
            Some(a) => a,
            None => [ONE, ONE, ONE],
        },
        shininess: match mat.ns {
            Some(ns) => ns,
            None => ONE,
        },
    }
}

/// The renderer's material for a file's material: textured if the file
/// names a diffuse texture, plain if not; either way not yet written.
pub fn obj_material_to_renderer_material(mat: &MtlMaterial) -> (material: Material)
    ensures
        material@ == match mat.map_kd {
            Some(name) => MaterialView::PhongMaterialWithTexture(
                PhongMaterialWithTextureView {
                    data: material_data(*mat),
                    map_kd: name@,
                    texture_loaded: false,
                    buffer: None,
                    bind_group: None,
                },
            ),
            None => MaterialView::PhongMaterial(
                PhongMaterial { data: material_data(*mat), buffer: None, bind_group: None },
            ),
        },
{
    let ka: [u32; 3] = match mat.ka {
        Some(a) => a,
        None => [0, 0, 0],
    };
    let ks: [u32; 3] = match mat.ka {
        Some(a) => a,
        None => [ONE, ONE, ONE],
    };
    let kd: [u32; 3] = match mat.kd {
        Some(a) => a,
        None => [ONE, TWO_TENTHS, TWO_TENTHS],
    };
    let shininess: u32 = match mat.ns {
        Some(ns) => ns,
        None => ONE,
    };
    assert(ka =~= material_data(*mat).ka);
    assert(kd =~= material_data(*mat).kd);
    assert(ks =~= material_data(*mat).ks);
    match &mat.map_kd {
        Some(name) => Material::PhongMaterialWithTexture(
            PhongMaterial::new_with_texture(ka, kd, ks, shininess, name),
        ),
        None => Material::PhongMaterial(PhongMaterial::new_without_texture(ka, kd, ks, shininess)),
    }
}

} // verus!

verus! {

/// The geometry of a mesh file: positions, texture coordinates and normals,
/// each number held by its single-precision bit pattern.
#[derive(Debug, PartialEq, Eq)]
pub struct ObjData {
    pub position: Vec<[u32; 3]>,
    pub texture: Vec<[u32; 2]>,
    pub normal: Vec<[u32; 3]>,
}

impl IndexTuple {
    /// Whether two corners name the same position, texture coordinates and
    /// normal.
    pub fn same(&self, other: &IndexTuple) -> (r: bool)
        ensures
            r == (*self == *other),
    {
        let textures = match (self.1, other.1) {
            (Some(a), Some(b)) => a == b,
            (None, None) => true,
            _ => false,
        };
        let normals = match (self.2, other.2) {
            (Some(a), Some(b)) => a == b,
            (None, None) => true,
            _ => false,
        };
        self.0 == other.0 && textures && normals
    }

    /// Whether the file holds what the corner names.
    pub open spec fn in_range(self, data: &ObjData) -> bool {
        &&& self.0 < data.position@.len()
        &&& self.1 matches Some(i) ==> i < data.texture@.len()
        &&& self.2 matches Some(i) ==> i < data.normal@.len()
    }
}

/// The corners of some triangles, triangle by triangle.
pub open spec fn corners(triangles: Seq<[IndexTuple; 3]>) -> Seq<IndexTuple> {
    Seq::new(3 * triangles.len(), |i: int| triangles[i / 3]@[i % 3])
}

/// Where in a run of corners each distinct corner stands first, in rising
/// order.
pub open spec fn first_seen(corners: Seq<IndexTuple>) -> Seq<int>
    decreases corners.len(),
{
    if corners.len() == 0 {
        Seq::empty()
    } else if corners.drop_last().contains(corners.last()) {
        first_seen(corners.drop_last())
    } else {
        first_seen(corners.drop_last()).push(corners.len() - 1)
    }
}

/// The twelve words of the vertex at a corner: the position with the weight
/// one; the normal the corner names, or else the normal of the face, with
/// the weight zero; the texture coordinates the corner names, or else zero,
/// padded with zeros.
pub open spec fn corner_vertex(data: &ObjData, corner: IndexTuple, face_normal: [u32; 3]) -> Seq<
    u32,
> {
    let position = data.position@[corner.0 as int];
    let normal = match corner.2 {
        Some(i) => data.normal@[i as int],
        None => face_normal,
    };
    let uv = match corner.1 {
        Some(i) => data.texture@[i as int],
        None => [0u32, 0u32],
    };
    seq![
        position@[0],
        position@[1],
        position@[2],
        ONE,
        normal@[0],
        normal@[1],
        normal@[2],
        0u32,
        uv@[0],
        uv@[1],
        0u32,
        0u32,
    ]
}

/// Whether `vertices` and `indices` are the arrays of the mesh of some
/// triangles. Every distinct corner is one vertex; the vertices are counted
/// from one, in the order in which their corners stand first, and the
/// vertex zero is all zero. A vertex takes the face normal, where it needs
/// one, from the triangle in which its corner stands first. Each index is
/// the number of its corner's vertex. The vertex array holds twelve words
/// for each vertex and is four times as long as that takes; what follows the
/// vertices is zero.
pub open spec fn is_mesh_of(
    data: &ObjData,
    triangles: Seq<[IndexTuple; 3]>,
    face_normals: Seq<[u32; 3]>,
    vertices: Seq<u32>,
    indices: Seq<u32>,
) -> bool {
    let c = corners(triangles);
    let f = first_seen(c);
    &&& indices.len() == c.len()
    &&& forall|j: int|
        0 <= j < c.len() ==> 1 <= #[trigger] indices[j] <= f.len() && c[f[indices[j] - 1]] == c[j]
    &&& vertices.len() == 48 * (f.len() + 1)
    &&& forall|m: int|
        0 <= m < f.len() ==> #[trigger] vertices.subrange(12 * (m + 1), 12 * (m + 2))
            == corner_vertex(data, c[f[m]], face_normals[f[m] / 3])
    &&& forall|w: int|
        0 <= w < 12 || 12 * (f.len() + 1) <= w < 48 * (f.len() + 1) ==> #[trigger] vertices[w] == 0
}

/// Where a corner stands among those seen, if it does.
fn find_corner(seen: &Vec<IndexTuple>, corner: &IndexTuple) -> (found: Option<usize>)
    ensures
        match found {
            Some(m) => m < seen@.len() && seen@[m as int] == *corner,
            None => forall|m: int| 0 <= m < seen@.len() ==> seen@[m] != *corner,
        },
{
    let mut m: usize = 0;
    while m < seen.len()
        invariant
            m <= seen@.len(),
            forall|k: int| 0 <= k < m ==> seen@[k] != *corner,
        decreases seen@.len() - m,
    {
        if seen[m].same(corner) {
            return Some(m);
        }
        m += 1;
    }
    None
}

/// Builds the vertex and index arrays of the mesh of some triangles, with
/// one face normal for each triangle. The file holds what the corners name,
/// and the triangles are few enough for their corners to be counted in 32
/// bits and for the vertex array to be indexed.
pub fn create_vertex_and_index_buffer(
    loaded: &ObjData,
    triangles: &Vec<[IndexTuple; 3]>,
    face_normals: &Vec<[u32; 3]>,
) -> (arrays: (Vec<u32>, Vec<u32>))
    requires
        face_normals@.len() == triangles@.len(),
        forall|t: int, c: int|
            0 <= t < triangles@.len() && 0 <= c < 3 ==> (#[trigger] triangles@[t]@[c]).in_range(
                loaded,
            ),
        3 * triangles@.len() < u32::MAX,
        144 * triangles@.len() + 48 <= usize::MAX,
    ensures
        is_mesh_of(loaded, triangles@, face_normals@, arrays.0@, arrays.1@),
{
    let ghost c = corners(triangles@);
    let mut seen: Vec<IndexTuple> = Vec::new();
    let mut vertices: Vec<u32> = crate::util::boxed_slice::alloc_box_buffer(12);
    let mut indices: Vec<u32> = Vec::new();
    let total: usize = 3 * triangles.len();
    let mut k: usize = 0;
    assert(c.take(0) =~= Seq::<IndexTuple>::empty());
    while k < total
        invariant
            k <= total,
            total == c.len(),
            total == 3 * triangles@.len(),
            c == corners(triangles@),
            face_normals@.len() == triangles@.len(),
            forall|t: int, i: int|
                0 <= t < triangles@.len() && 0 <= i < 3 ==> (#[trigger] triangles@[t]@[i]).in_range(
                    loaded,
                ),
            3 * triangles@.len() < u32::MAX,
            seen@.len() <= k,
            seen@.len() == first_seen(c.take(k as int)).len(),
            forall|m: int|
                0 <= m < seen@.len() ==> 0 <= #[trigger] first_seen(c.take(k as int))[m] < k
                    && seen@[m] == c[first_seen(c.take(k as int))[m]],
            indices@.len() == k,
            forall|j: int|
                0 <= j < k ==> 1 <= #[trigger] indices@[j] <= seen@.len() && seen@[indices@[j] - 1]
                    == c[j],
            vertices@.len() == 12 * (seen@.len() + 1),
            forall|w: int| 0 <= w < 12 ==> vertices@[w] == 0,
            forall|m: int|
                0 <= m < seen@.len() ==> #[trigger] vertices@.subrange(12 * (m + 1), 12 * (m + 2))
                    == corner_vertex(
                    loaded,
                    c[first_seen(c.take(k as int))[m]],
                    face_normals@[first_seen(c.take(k as int))[m] / 3],
                ),
        decreases total - k,
    {
        let ghost before = c.take(k as int);
        let ghost after = c.take(k as int + 1);
        let ghost firsts = first_seen(before);
        let ghost old_vertices = vertices@;
        let corner = triangles[k / 3][k % 3];
        proof {
            assert(after.drop_last() =~= before);
            assert(after.last() == c[k as int]);
            assert(corner == c[k as int]);
            assert(corner.in_range(loaded));
        }
        let idx: usize = match find_corner(&seen, &corner) {
            Some(m) => {
                proof {
                    assert(before[firsts[m as int]] == corner);
                    assert(before.contains(corner));
                    assert(first_seen(after) == firsts);
                }
                m + 1
            },
            None => {
                proof {
                    if before.contains(corner) {
                        let j = choose|j: int| 0 <= j < before.len() && before[j] == corner;
                        assert(seen@[indices@[j] - 1] == c[j]);
                    }
                    assert(first_seen(after) == firsts.push(k as int));
                }
                let normal: [u32; 3] = match corner.2 {
                    Some(i) => loaded.normal[i],
                    None => face_normals[k / 3],
                };
                let uv: [u32; 2] = match corner.1 {
                    Some(i) => loaded.texture[i],
                    None => [0, 0],
                };
                let position: [u32; 3] = loaded.position[corner.0];
                vertices.push(position[0]);
                vertices.push(position[1]);
                vertices.push(position[2]);
                vertices.push(ONE);
                vertices.push(normal[0]);
                vertices.push(normal[1]);
                vertices.push(normal[2]);
                vertices.push(0);
                vertices.push(uv[0]);
                vertices.push(uv[1]);
                vertices.push(0);
                vertices.push(0);
                seen.push(corner);
                proof {
                    let m = seen@.len() - 1;
                    assert(vertices@.subrange(12 * (m + 1), 12 * (m + 2)) =~= corner_vertex(
                        loaded,
                        corner,
                        face_normals@[k as int / 3],
                    ));
                    assert forall|e: int| 0 <= e < m implies #[trigger] vertices@.subrange(
                        12 * (e + 1),
                        12 * (e + 2),
                    ) == old_vertices.subrange(12 * (e + 1), 12 * (e + 2)) by {
                        assert(vertices@.subrange(12 * (e + 1), 12 * (e + 2))
                            =~= old_vertices.subrange(12 * (e + 1), 12 * (e + 2)));
                    }
                }
                seen.len()
            },
        };
        indices.push(idx as u32);
        k += 1;
    }
    assert(c.take(total as int) =~= c);
    let ghost firsts = first_seen(c);
    let ghost packed = vertices@;
    let length: usize = 48 * (seen.len() + 1);
    while vertices.len() < length
        invariant
            length == 48 * (seen@.len() + 1),
            12 * (seen@.len() + 1) <= vertices@.len() <= length,
            packed.len() == 12 * (seen@.len() + 1),
            forall|w: int| 0 <= w < packed.len() ==> #[trigger] vertices@[w] == packed[w],
            forall|w: int| packed.len() <= w < vertices@.len() ==> #[trigger] vertices@[w] == 0,
            forall|w: int| 0 <= w < 12 ==> #[trigger] packed[w] == 0,
            c == corners(triangles@),
            firsts == first_seen(c),
            seen@.len() == firsts.len(),
            forall|m: int|
                0 <= m < seen@.len() ==> 0 <= #[trigger] firsts[m] < c.len() && seen@[m]
                    == c[firsts[m]],
            indices@.len() == c.len(),
            forall|j: int|
                0 <= j < c.len() ==> 1 <= #[trigger] indices@[j] <= seen@.len() && seen@[indices@[j]
                    - 1] == c[j],
            face_normals@.len() == triangles@.len(),
            c.len() == 3 * triangles@.len(),
            forall|m: int|
                0 <= m < seen@.len() ==> #[trigger] packed.subrange(12 * (m + 1), 12 * (m + 2))
                    == corner_vertex(loaded, c[firsts[m]], face_normals@[firsts[m] / 3]),
        decreases length - vertices@.len(),
    {
        vertices.push(0);
    }
    proof {
        assert forall|m: int| 0 <= m < firsts.len() implies #[trigger] vertices@.subrange(
            12 * (m + 1),
            12 * (m + 2),
        ) == corner_vertex(loaded, c[firsts[m]], face_normals@[firsts[m] / 3]) by {
            assert(vertices@.subrange(12 * (m + 1), 12 * (m + 2)) =~= packed.subrange(
                12 * (m + 1),
                12 * (m + 2),
            ));
        }
        assert(indices@.len() == c.len());
        assert forall|j: int| 0 <= j < c.len() implies 1 <= #[trigger] indices@[j] <= firsts.len()
            && c[firsts[indices@[j] - 1]] == c[j] by {
            let m = indices@[j] - 1;
            assert(seen@[m] == c[firsts[m]]);
        }
        assert(vertices@.len() == 48 * (firsts.len() + 1));
        assert forall|w: int|
            0 <= w < 12 || 12 * (firsts.len() + 1) <= w < 48 * (firsts.len() + 1) implies #[trigger] vertices@[w]
            == 0 by {
            if w < 12 {
                assert(vertices@[w] == packed[w]);
            }
        }
    }
    (vertices, indices)
}

} // verus!

verus! {

/// Whether the corner at the place `p` of a run stands nowhere before `p`.
pub open spec fn stands_first(c: Seq<IndexTuple>, p: int) -> bool {
    &&& 0 <= p < c.len()
    &&& forall|j: int| 0 <= j < p ==> #[trigger] c[j] != c[p]
}

/// The places where distinct corners stand first rise, and at each the
/// corner stands for the first time.
pub proof fn lemma_first_seen_places(c: Seq<IndexTuple>)
    ensures
        first_seen(c).len() <= c.len(),
        forall|m: int| 0 <= m < first_seen(c).len() ==> stands_first(c, #[trigger] first_seen(c)[m]),
        forall|m: int, e: int|
            0 <= m < e < first_seen(c).len() ==> #[trigger] first_seen(c)[m] < #[trigger] first_seen(
                c,
            )[e],
    decreases c.len(),
{
    if c.len() > 0 {
        let earlier = c.drop_last();
        let f = first_seen(earlier);
        lemma_first_seen_places(earlier);
        assert forall|m: int| 0 <= m < first_seen(c).len() implies stands_first(
            c,
            #[trigger] first_seen(c)[m],
        ) by {
            if m < f.len() {
                let p = f[m];
                assert(stands_first(earlier, p));
                assert forall|j: int| 0 <= j < p implies #[trigger] c[j] != c[p] by {
                    assert(earlier[j] != earlier[p]);
                }
            } else {
                let p = c.len() - 1;
                assert forall|j: int| 0 <= j < p implies #[trigger] c[j] != c[p] by {
                    assert(earlier[j] == c[j]);
                }
            }
        }
        assert forall|m: int, e: int| 0 <= m < e < first_seen(c).len() implies #[trigger] first_seen(
            c,
        )[m] < #[trigger] first_seen(c)[e] by {
            if e >= f.len() {
                assert(stands_first(earlier, f[m]));
            }
        }
    }
}

/// The corners at two different places where distinct corners stand first
/// differ.
pub proof fn lemma_first_seen_distinct(c: Seq<IndexTuple>, m: int, e: int)
    requires
        0 <= m < e < first_seen(c).len(),
    ensures
        first_seen(c)[m] < first_seen(c)[e],
        c[first_seen(c)[m]] != c[first_seen(c)[e]],
{
    lemma_first_seen_places(c);
    assert(first_seen(c)[m] < first_seen(c)[e]);
    assert(stands_first(c, first_seen(c)[e]));
}

/// The triangles, the file and the face normals settle the arrays of the
/// mesh: two pairs of arrays that are both the mesh's are the same.
pub proof fn lemma_mesh_unique(
    data: &ObjData,
    triangles: Seq<[IndexTuple; 3]>,
    face_normals: Seq<[u32; 3]>,
    vertices: Seq<u32>,
    indices: Seq<u32>,
    other_vertices: Seq<u32>,
    other_indices: Seq<u32>,
)
    requires
        is_mesh_of(data, triangles, face_normals, vertices, indices),
        is_mesh_of(data, triangles, face_normals, other_vertices, other_indices),
    ensures
        vertices == other_vertices,
        indices == other_indices,
{
    let c = corners(triangles);
    let f = first_seen(c);
    assert forall|j: int| 0 <= j < indices.len() implies indices[j] == other_indices[j] by {
        let m = indices[j] - 1;
        let e = other_indices[j] - 1;
        assert(c[f[m]] == c[j] && c[f[e]] == c[j]);
        if m < e {
            lemma_first_seen_distinct(c, m, e);
        } else if e < m {
            lemma_first_seen_distinct(c, e, m);
        }
    }
    assert(indices =~= other_indices);
    assert forall|w: int| 0 <= w < vertices.len() implies vertices[w] == other_vertices[w] by {
        if 12 <= w < 12 * (f.len() + 1) {
            let m = w / 12 - 1;
            let part = vertices.subrange(12 * (m + 1), 12 * (m + 2));
            let other_part = other_vertices.subrange(12 * (m + 1), 12 * (m + 2));
            assert(part == other_part);
            assert(part[w - 12 * (m + 1)] == vertices[w]);
            assert(other_part[w - 12 * (m + 1)] == other_vertices[w]);
        }
    }
    assert(vertices =~= other_vertices);
}

} // verus!

verus! {

/// The triangles of the first `upto` of some polygons, polygon by polygon.
pub open spec fn fans(polygons: Seq<SimplePolygon>, upto: nat) -> Seq<[IndexTuple; 3]>
    decreases upto,
{
    if upto == 0 || upto > polygons.len() {
        Seq::empty()
    } else {
        fans(polygons, (upto - 1) as nat) + fan(polygons[upto - 1].0@)
    }
}

/// Splits every polygon into the triangles of its fan. One polygon of fewer
/// than three corners makes the whole an error: no polygon is passed over.
pub fn triangulate(polygons: &Vec<SimplePolygon>) -> (result: Result<
    Vec<[IndexTuple; 3]>,
    LoadObjError,
>)
    ensures
        (exists|i: int| 0 <= i < polygons@.len() && (#[trigger] polygons@[i]).0@.len() < 3)
            ==> result == Err::<Vec<[IndexTuple; 3]>, LoadObjError>(LoadObjError::TooFewVertices),
        (forall|i: int| 0 <= i < polygons@.len() ==> (#[trigger] polygons@[i]).0@.len() >= 3)
            ==> result is Ok && result->Ok_0@ == fans(polygons@, polygons@.len()),
{
    let mut triangles: Vec<[IndexTuple; 3]> = Vec::new();
    let mut p: usize = 0;
    while p < polygons.len()
        invariant
            p <= polygons@.len(),
            forall|i: int| 0 <= i < p ==> (#[trigger] polygons@[i]).0@.len() >= 3,
            triangles@ == fans(polygons@, p as nat),
        decreases polygons@.len() - p,
    {
        match split_poly(&polygons[p]) {
            Err(e) => {
                return Err(e);
            },
            Ok(fan_triangles) => {
                let ghost before = triangles@;
                let mut t: usize = 0;
                while t < fan_triangles.len()
                    invariant
                        t <= fan_triangles@.len(),
                        triangles@ == before + fan_triangles@.take(t as int),
                    decreases fan_triangles@.len() - t,
                {
                    triangles.push(fan_triangles[t]);
                    assert(fan_triangles@.take(t as int + 1) =~= fan_triangles@.take(t as int).push(
                        fan_triangles@[t as int],
                    ));
                    assert(before + fan_triangles@.take(t as int + 1) =~= (before
                        + fan_triangles@.take(t as int)).push(fan_triangles@[t as int]));
                    t += 1;
                }
                assert(fan_triangles@.take(fan_triangles@.len() as int) =~= fan_triangles@);
            },
        }
        p += 1;
    }
    Ok(triangles)
}

/// The material a group of faces names: one that a material file defined,
/// or only the name of one that none did.
#[derive(Debug, PartialEq, Eq)]
pub enum ObjMaterial {
    Ref(String),
    Mtl(MtlMaterial),
}

/// A named group of faces, split into triangles, with the normal of each
/// triangle's face.
#[derive(Debug, PartialEq, Eq)]
pub struct ObjGroup {
    pub name: String,
    pub material: Option<ObjMaterial>,
    pub triangles: Vec<[IndexTuple; 3]>,
    pub face_normals: Vec<[u32; 3]>,
}

/// An object of a mesh file: its groups in order.
#[derive(Debug, PartialEq, Eq)]
pub struct ObjObject {
    pub groups: Vec<ObjGroup>,
}

impl ObjGroup {
    /// Whether the group's mesh can be built from the file: there is one
    /// face normal for each triangle, the file holds what the corners name,
    /// and the triangles are few enough for their corners to be counted in
    /// 32 bits and for the vertex array to be indexed.
    pub open spec fn fits(&self, data: &ObjData) -> bool {
        &&& self.face_normals@.len() == self.triangles@.len()
        &&& forall|t: int, c: int|
            0 <= t < self.triangles@.len() && 0 <= c < 3 ==> (#[trigger] self.triangles@[t]@[c]).in_range(
                data,
            )
        &&& 3 * self.triangles@.len() < u32::MAX
        &&& 144 * self.triangles@.len() + 48 <= usize::MAX
    }

    /// The name of the material that the group names and no file defined, if
    /// materials are to be assigned and there is such a name.
    pub open spec fn unresolved(&self, assign_materials: bool) -> Option<Seq<char>> {
        match self.material {
            Some(ObjMaterial::Ref(name)) if assign_materials => Some(name@),
            _ => None,
        }
    }

    /// The material of the group's mesh: the default where materials are not
    /// assigned or the group names none, else the renderer's material for the
    /// one the group names.
    pub open spec fn material_view(&self, assign_materials: bool) -> MaterialView {
        match self.material {
            Some(ObjMaterial::Mtl(mat)) if assign_materials => match mat.map_kd {
                Some(name) => MaterialView::PhongMaterialWithTexture(
                    PhongMaterialWithTextureView {
                        data: material_data(mat),
                        map_kd: name@,
                        texture_loaded: false,
                        buffer: None,
                        bind_group: None,
                    },
                ),
                None => MaterialView::PhongMaterial(
                    PhongMaterial { data: material_data(mat), buffer: None, bind_group: None },
                ),
            },
            _ => MaterialView::PhongMaterial(default_phong()),
        }
    }

    /// Whether `node` is the node of the group: a childless node at the
    /// identity, named as the group is, that carries the group's mesh with
    /// the group's material, nothing of it on the device.
    pub open spec fn is_node(&self, data: &ObjData, assign_materials: bool, node: Object3DView) -> bool {
        &&& node.name == Some(self.name@)
        &&& node.matrix == identity()
        &&& node.children.len() == 0
        &&& node.matrix_bind_group is None
        &&& node.matrix_buffer is None
        &&& node.object matches Object3DObjectView::Mesh(mesh) && {
            &&& mesh.material == self.material_view(assign_materials)
            &&& mesh.vertex_buffer is None
            &&& mesh.index_buffer is None
            &&& is_mesh_of(
                data,
                self.triangles@,
                self.face_normals@,
                mesh.vertex_array,
                mesh.index_array,
            )
        }
    }

    /// Whether the group's mesh can be built from the file.
    pub fn check_fits(&self, data: &ObjData) -> (r: bool)
        ensures
            r == self.fits(data),
    {
        if self.face_normals.len() != self.triangles.len() {
            return false;
        }
        if self.triangles.len() > 1_431_655_764 || self.triangles.len() > (usize::MAX - 48) / 144 {
            return false;
        }
        let mut t: usize = 0;
        while t < self.triangles.len()
            invariant
                t <= self.triangles@.len(),
                self.face_normals@.len() == self.triangles@.len(),
                3 * self.triangles@.len() < u32::MAX,
                144 * self.triangles@.len() + 48 <= usize::MAX,
                forall|i: int, c: int|
                    0 <= i < t && 0 <= c < 3 ==> (#[trigger] self.triangles@[i]@[c]).in_range(data),
            decreases self.triangles@.len() - t,
        {
            let mut c: usize = 0;
            while c < 3
                invariant
                    c <= 3,
                    t < self.triangles@.len(),
                    forall|i: int, e: int|
                        0 <= i < t && 0 <= e < 3 ==> (#[trigger] self.triangles@[i]@[e]).in_range(
                            data,
                        ),
                    forall|e: int| 0 <= e < c ==> (#[trigger] self.triangles@[t as int]@[e]).in_range(data),
                decreases 3 - c,
            {
                let corner = self.triangles[t][c];
                let texture_ok = match corner.1 {
                    Some(i) => i < data.texture.len(),
                    None => true,
                };
                let normal_ok = match corner.2 {
                    Some(i) => i < data.normal.len(),
                    None => true,
                };
                if !(corner.0 < data.position.len() && texture_ok && normal_ok) {
                    assert(!self.triangles@[t as int]@[c as int].in_range(data));
                    return false;
                }
                c += 1;
            }
            t += 1;
        }
        true
    }

    /// The material of the group's mesh, or the error that the group names
    /// a material no file defined.
    pub fn choose_material(&self, assign_materials: bool) -> (result: Result<Material, LoadObjError>)
        ensures
            match self.unresolved(assign_materials) {
                Some(name) => result matches Err(LoadObjError::MaterialNotLoaded(n)) && n@ == name,
                None => result matches Ok(material) && material@ == self.material_view(
                    assign_materials,
                ),
            },
    {
        if !assign_materials {
            return Ok(default_material());
        }
        match &self.material {
            Some(ObjMaterial::Mtl(mat)) => Ok(obj_material_to_renderer_material(mat)),
            Some(ObjMaterial::Ref(x)) => Err(LoadObjError::MaterialNotLoaded(x.clone())),
            None => Ok(default_material()),
        }
    }
}

} // verus!

verus! {

/// The first material name among the first `upto` groups that no file
/// defined, if materials are to be assigned and there is one.
pub open spec fn groups_unresolved(groups: Seq<ObjGroup>, assign_materials: bool, upto: nat) -> Option<
    Seq<char>,
>
    decreases upto,
{
    if upto == 0 || upto > groups.len() {
        None
    } else {
        match groups_unresolved(groups, assign_materials, (upto - 1) as nat) {
            Some(name) => Some(name),
            None => groups[upto - 1].unresolved(assign_materials),
        }
    }
}

/// The first material name among the groups of the first `upto` objects
/// that no file defined, if materials are to be assigned and there is one.
pub open spec fn objects_unresolved(
    objects: Seq<ObjObject>,
    assign_materials: bool,
    upto: nat,
) -> Option<Seq<char>>
    decreases upto,
{
    if upto == 0 || upto > objects.len() {
        None
    } else {
        match objects_unresolved(objects, assign_materials, (upto - 1) as nat) {
            Some(name) => Some(name),
            None => groups_unresolved(
                objects[upto - 1].groups@,
                assign_materials,
                objects[upto - 1].groups@.len(),
            ),
        }
    }
}

/// A name found among the first groups is still the first when more
/// groups are looked at.
pub proof fn lemma_groups_unresolved_stays(
    groups: Seq<ObjGroup>,
    assign_materials: bool,
    found: nat,
    upto: nat,
)
    requires
        found <= upto <= groups.len(),
        groups_unresolved(groups, assign_materials, found) is Some,
    ensures
        groups_unresolved(groups, assign_materials, upto) == groups_unresolved(
            groups,
            assign_materials,
            found,
        ),
    decreases upto,
{
    if found < upto {
        lemma_groups_unresolved_stays(groups, assign_materials, found, (upto - 1) as nat);
    }
}

/// A name found among the first objects is still the first when more
/// objects are looked at.
pub proof fn lemma_objects_unresolved_stays(
    objects: Seq<ObjObject>,
    assign_materials: bool,
    found: nat,
    upto: nat,
)
    requires
        found <= upto <= objects.len(),
        objects_unresolved(objects, assign_materials, found) is Some,
    ensures
        objects_unresolved(objects, assign_materials, upto) == objects_unresolved(
            objects,
            assign_materials,
            found,
        ),
    decreases upto,
{
    if found < upto {
        lemma_objects_unresolved_stays(objects, assign_materials, found, (upto - 1) as nat);
    }
}

/// Whether a node is a plain parent: like the empty node but for its
/// children.
pub open spec fn is_parent(node: Object3DView) -> bool {
    node == Object3DView { children: node.children, ..empty_node() }
}

impl ObjObject {
    /// Whether `node` is the node of the object: a plain parent with one
    /// child for each group, in order.
    pub open spec fn is_node(&self, data: &ObjData, assign_materials: bool, node: Object3DView) -> bool {
        &&& is_parent(node)
        &&& node.children.len() == self.groups@.len()
        &&& forall|g: int|
            0 <= g < self.groups@.len() ==> (#[trigger] self.groups@[g]).is_node(
                data,
                assign_materials,
                node.children[g],
            )
    }

    /// Builds the node of the object, or fails with the first material name
    /// among its groups that no file defined. Every group's mesh can be
    /// built from the file.
    pub fn to_node(&self, data: &ObjData, assign_materials: bool) -> (result: Result<
        Object3D,
        LoadObjError,
    >)
        requires
            forall|g: int| 0 <= g < self.groups@.len() ==> (#[trigger] self.groups@[g]).fits(data),
        ensures
            match groups_unresolved(self.groups@, assign_materials, self.groups@.len()) {
                Some(name) => result matches Err(LoadObjError::MaterialNotLoaded(n)) && n@ == name,
                None => result matches Ok(node) && self.is_node(data, assign_materials, node@),
            },
    {
        let mut groups = Object3D::create_empty();
        let mut g: usize = 0;
        proof {
            lemma_view_children(groups);
        }
        while g < self.groups.len()
            invariant
                g <= self.groups@.len(),
                forall|e: int| 0 <= e < self.groups@.len() ==> (#[trigger] self.groups@[e]).fits(data),
                groups_unresolved(self.groups@, assign_materials, g as nat) is None,
                is_parent(groups@),
                groups.children@.len() == g,
                forall|e: int|
                    0 <= e < g ==> (#[trigger] self.groups@[e]).is_node(
                        data,
                        assign_materials,
                        groups.children@[e]@,
                    ),
            decreases self.groups@.len() - g,
        {
            let group = &self.groups[g];
            assert(group.fits(data));
            let material = match group.choose_material(assign_materials) {
                Ok(material) => material,
                Err(e) => {
                    proof {
                        lemma_groups_unresolved_stays(
                            self.groups@,
                            assign_materials,
                            (g + 1) as nat,
                            self.groups@.len(),
                        );
                    }
                    return Err(e);
                },
            };
            let (vertex_array, index_array) = create_vertex_and_index_buffer(
                data,
                &group.triangles,
                &group.face_normals,
            );
            let object3d = Mesh::new_object_3d(
                Some(group.name.clone()),
                vertex_array,
                index_array,
                material,
            );
            assert(group.is_node(data, assign_materials, object3d@));
            proof {
                lemma_view_children(groups);
            }
            groups.children.push(object3d);
            proof {
                lemma_view_children(groups);
                assert(groups@.children.len() == g + 1);
            }
            g += 1;
        }
        proof {
            lemma_view_children(groups);
        }
        Ok(groups)
    }
}

/// Whether `node` is the tree of some objects: a plain parent with one
/// child for each object, in order, and below each the nodes of its groups.
pub open spec fn is_tree_of(
    objects: Seq<ObjObject>,
    data: &ObjData,
    assign_materials: bool,
    node: Object3DView,
) -> bool {
    &&& is_parent(node)
    &&& node.children.len() == objects.len()
    &&& forall|o: int|
        0 <= o < objects.len() ==> (#[trigger] objects[o]).is_node(
            data,
            assign_materials,
            node.children[o],
        )
}

/// Turns the objects of a mesh file into a tree of scene nodes: a root, a
/// node for each object below it, and below that a mesh node for each of the
/// object's groups. `assign_materials` says whether the file's materials
/// could be read; if not, every mesh gets the default material. A group
/// that names a material no file defined makes the whole an error, and the
/// first such name is reported. Every group's mesh can be built from the
/// file.
pub fn load_obj(loaded: &ObjData, objects: &Vec<ObjObject>, assign_materials: bool) -> (result: Result<
    Object3D,
    LoadObjError,
>)
    requires
        forall|o: int, g: int|
            0 <= o < objects@.len() && 0 <= g < objects@[o].groups@.len()
                ==> (#[trigger] objects@[o].groups@[g]).fits(loaded),
    ensures
        match objects_unresolved(objects@, assign_materials, objects@.len()) {
            Some(name) => result matches Err(LoadObjError::MaterialNotLoaded(n)) && n@ == name,
            None => result matches Ok(tree) && is_tree_of(objects@, loaded, assign_materials, tree@),
        },
{
    let mut tree = Object3D::create_empty();
    let mut o: usize = 0;
    proof {
        lemma_view_children(tree);
    }
    while o < objects.len()
        invariant
            o <= objects@.len(),
            forall|i: int, g: int|
                0 <= i < objects@.len() && 0 <= g < objects@[i].groups@.len()
                    ==> (#[trigger] objects@[i].groups@[g]).fits(loaded),
            objects_unresolved(objects@, assign_materials, o as nat) is None,
            is_parent(tree@),
            tree.children@.len() == o,
            forall|e: int|
                0 <= e < o ==> (#[trigger] objects@[e]).is_node(
                    loaded,
                    assign_materials,
                    tree.children@[e]@,
                ),
        decreases objects@.len() - o,
    {
        let node = match objects[o].to_node(loaded, assign_materials) {
            Ok(node) => node,
            Err(e) => {
                proof {
                    lemma_objects_unresolved_stays(
                        objects@,
                        assign_materials,
                        (o + 1) as nat,
                        objects@.len(),
                    );
                }
                return Err(e);
            },
        };
        proof {
            lemma_view_children(tree);
        }
        tree.children.push(node);
        proof {
            lemma_view_children(tree);
            assert(tree@.children.len() == o + 1);
        }
        o += 1;
    }
    proof {
        lemma_view_children(tree);
    }
    Ok(tree)
}

} // verus!
