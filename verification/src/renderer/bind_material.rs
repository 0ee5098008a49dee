use vstd::prelude::*;
use crate::renderer::material::{Material, MaterialView};
use crate::renderer::staging_belt_and_command_encoder::{RenderCommand, RenderPass};

verus! {

/// Whether a material can be bound: it is a Phong material without texture
/// and has its bind group.
pub open spec fn bindable(material: MaterialView) -> bool {
    material matches MaterialView::PhongMaterial(mat) && mat.bind_group is Some
}

/// The command that binds a material: its bind group goes to the group one.
pub open spec fn bind_material_command(material: MaterialView) -> RenderCommand {
    RenderCommand::SetBindGroup { index: 1, bind_group: material->PhongMaterial_0.bind_group->0 }
}

impl RenderPass {
    /// Binds a material's uniforms for the draw calls that follow. Textured
    /// materials cannot be bound, and a material that was never written has
    /// nothing to bind.
    pub fn bind_material(&mut self, material: &Material)
        requires
            bindable(material@),
        ensures
            final(self)@.commands == old(self)@.commands.push(bind_material_command(material@)),
            final(self)@.clear_color == old(self)@.clear_color,
    {
        match material {
            Material::PhongMaterial(mat) => {
                self.set_bind_group(1, &mat.bind_group.unwrap());
            },
            Material::PhongMaterialWithTexture(_mat) => {},
        }
    }
}

} // verus!
