//! A shape paired with the material covering it.

use vstd::prelude::*;
use crate::material::Materials;
use crate::shape::Shapes;

verus! {

/// One renderable object: a shape and its material, owned by the scene.
#[derive(Clone, Copy, PartialEq, Eq, Structural, Debug)]
pub struct SceneObject {
    pub material: Materials,
    pub shape: Shapes,
}

impl SceneObject {
    /// Pairs a shape with a material.
    pub fn new(shape: Shapes, material: Materials) -> (o: SceneObject)
        ensures
            o.shape == shape,
            o.material == material,
    {
        SceneObject { material, shape }
    }
}

} // verus!
