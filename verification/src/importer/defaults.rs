use vstd::prelude::*;
use crate::renderer::material::{Material, MaterialView, PhongMaterial, PhongMaterialData};
use crate::util::matrix_util::ONE;

verus! {

/// The bit pattern of the single-precision number nearest to eight tenths.
pub const EIGHT_TENTHS: u32 = 0x3f4c_cccd;

/// The bit pattern of the single-precision number three.
pub const SHININESS: u32 = 0x4040_0000;

/// The material of geometry that names none: no ambient light, a light grey
/// diffuse colour, white highlights of the shininess three.
pub open spec fn default_phong() -> PhongMaterial {
    PhongMaterial {
        data: PhongMaterialData {
            ka: [0u32, 0u32, 0u32],
            kd: [EIGHT_TENTHS, EIGHT_TENTHS, EIGHT_TENTHS],
            ks: [ONE, ONE, ONE],
            shininess: SHININESS,
        },
        buffer: None,
        bind_group: None,
    }
}

/// The material of geometry that names none.
pub fn default_material() -> (material: Material)
    ensures
        material@ == MaterialView::PhongMaterial(default_phong()),
{
    let ka: [u32; 3] = [0, 0, 0];
    let kd: [u32; 3] = [EIGHT_TENTHS, EIGHT_TENTHS, EIGHT_TENTHS];
    let ks: [u32; 3] = [ONE, ONE, ONE];
    assert(ka =~= default_phong().data.ka);
    assert(kd =~= default_phong().data.kd);
    assert(ks =~= default_phong().data.ks);
    Material::PhongMaterial(PhongMaterial::new_without_texture(ka, kd, ks, SHININESS))
}

} // verus!
