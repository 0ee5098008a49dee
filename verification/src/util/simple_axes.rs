use vstd::prelude::*;
use crate::renderer::material::{Material, MaterialView, PhongMaterial, PhongMaterialData};
use crate::scene::mesh::{Mesh, MeshView};
use crate::scene::object3d::{Object3D, Object3DObjectView, Object3DView};
use crate::util::matrix_util::{identity, ONE};

verus! {

/// Half the width of a bar, five hundredths, as a single-precision bit
/// pattern.
pub const WIDTH: u32 = 0x3d4c_cccd;

/// The same, negative.
pub const MINUS_WIDTH: u32 = 0xbd4c_cccd;

/// Half the length of a bar, five, as a single-precision bit pattern.
pub const LENGTH: u32 = 0x40a0_0000;

/// The same, negative.
pub const MINUS_LENGTH: u32 = 0xc0a0_0000;

/// The height of the normal the bars carry, a tenth, as a single-precision
/// bit pattern.
pub const NORMAL: u32 = 0x3dcc_cccd;

/// The twelve words of a corner of a bar: the point at `x` and `z` on the
/// ground with the weight one, the bars' normal, no texture coordinates.
pub open spec fn axes_vertex(x: u32, z: u32) -> Seq<u32> {
    seq![x, 0u32, z, ONE, 0u32, 0u32, NORMAL, 0u32, 0u32, 0u32, 0u32, 0u32]
}

/// The vertices of the two bars: the four corners of the bar along the z
/// axis, then the four corners of the bar along the x axis.
pub open spec fn axes_vertices() -> Seq<u32> {
    axes_vertex(MINUS_WIDTH, MINUS_LENGTH) + axes_vertex(MINUS_WIDTH, LENGTH) + axes_vertex(
        WIDTH,
        MINUS_LENGTH,
    ) + axes_vertex(WIDTH, LENGTH) + axes_vertex(MINUS_LENGTH, MINUS_WIDTH) + axes_vertex(
        MINUS_LENGTH,
        WIDTH,
    ) + axes_vertex(LENGTH, MINUS_WIDTH) + axes_vertex(LENGTH, WIDTH)
}

/// The triangles of the two bars: each bar is two triangles, and each
/// triangle is there in both windings so that the bar shows from above and
/// from below.
pub open spec fn axes_indices() -> Seq<u32> {
    seq![
        0u32, 1u32, 2u32, 1u32, 2u32, 3u32,
        0u32, 2u32, 1u32, 1u32, 3u32, 2u32,
        4u32, 5u32, 6u32, 5u32, 6u32, 7u32,
        4u32, 6u32, 5u32, 5u32, 7u32, 6u32,
    ]
}

/// The material of the bars: black all through, with the shininess one.
pub open spec fn axes_material() -> PhongMaterial {
    PhongMaterial {
        data: PhongMaterialData {
            ka: [0u32, 0u32, 0u32],
            kd: [0u32, 0u32, 0u32],
            ks: [0u32, 0u32, 0u32],
            shininess: ONE,
        },
        buffer: None,
        bind_group: None,
    }
}

fn push_axes_vertex(vertices: &mut Vec<u32>, x: u32, z: u32)
    ensures
        final(vertices)@ == old(vertices)@ + axes_vertex(x, z),
{
    vertices.push(x);
    vertices.push(0);
    vertices.push(z);
    vertices.push(ONE);
    vertices.push(0);
    vertices.push(0);
    vertices.push(NORMAL);
    vertices.push(0);
    vertices.push(0);
    vertices.push(0);
    vertices.push(0);
    vertices.push(0);
    assert(vertices@ =~= old(vertices)@ + axes_vertex(x, z));
}

/// A node named `simple_axes` that marks the ground: two thin black bars
/// through the origin, one along the x axis and one along the z axis.
pub fn simple_axes() -> (node: Object3D)
    ensures
        node@ == (Object3DView {
            name: Some("simple_axes"@),
            matrix: identity(),
            object: Object3DObjectView::Mesh(
                MeshView {
                    vertex_array: axes_vertices(),
                    index_array: axes_indices(),
                    material: MaterialView::PhongMaterial(axes_material()),
                    vertex_buffer: None,
                    index_buffer: None,
                },
            ),
            children: Seq::empty(),
            matrix_bind_group: None,
            matrix_buffer: None,
        }),
{
    let mut vertex_array: Vec<u32> = Vec::new();
    push_axes_vertex(&mut vertex_array, MINUS_WIDTH, MINUS_LENGTH);
    push_axes_vertex(&mut vertex_array, MINUS_WIDTH, LENGTH);
    push_axes_vertex(&mut vertex_array, WIDTH, MINUS_LENGTH);
    push_axes_vertex(&mut vertex_array, WIDTH, LENGTH);
    push_axes_vertex(&mut vertex_array, MINUS_LENGTH, MINUS_WIDTH);
    push_axes_vertex(&mut vertex_array, MINUS_LENGTH, WIDTH);
    push_axes_vertex(&mut vertex_array, LENGTH, MINUS_WIDTH);
    push_axes_vertex(&mut vertex_array, LENGTH, WIDTH);
    assert(vertex_array@ =~= axes_vertices());
    let indices: [u32; 24] = [
        0, 1, 2, 1, 2, 3,
        0, 2, 1, 1, 3, 2,
        4, 5, 6, 5, 6, 7,
        4, 6, 5, 5, 7, 6,
    ];
    let mut index_array: Vec<u32> = Vec::new();
    let mut i: usize = 0;
    while i < 24
        invariant
            i <= 24,
            indices@ == axes_indices(),
            index_array@ == axes_indices().take(i as int),
        decreases 24 - i,
    {
        index_array.push(indices[i]);
        assert(axes_indices().take(i as int + 1) =~= axes_indices().take(i as int).push(
            axes_indices()[i as int],
        ));
        i += 1;
    }
    assert(index_array@ =~= axes_indices());
    let black: [u32; 3] = [0, 0, 0];
    assert(black =~= axes_material().data.ka);
    Mesh::new_object_3d(
        Some("simple_axes".to_string()),
        vertex_array,
        index_array,
        Material::PhongMaterial(PhongMaterial::new_without_texture(black, black, black, ONE)),
    )
}

} // verus!
