//! The four shapes of the scene and the model each is drawn with.
use vstd::prelude::*;
use crate::scene::Scene;
use crate::shape::{
    draw_call, sphere_mesh, Cube, DrawCall, Pyramid, Shape, Sphere, UniformLocations,
    CUBE_VERTICES, PYRAMID_VERTICES, SPHERE_DIVISIONS,
};
use crate::transform::{left_cube_plan, pyramid_plan, right_cube_plan, sphere_plan, Step};

verus! {

/// One shape's draw call together with the plan of its model matrix.
pub struct ModelDraw {
    pub call: DrawCall,
    pub model: Vec<Step>,
}

/// The shapes of the scene, in drawing order: two cubes, the pyramid and
/// the sphere.
pub struct Scenery {
    pub left_cube: Cube,
    pub right_cube: Cube,
    pub pyramid: Pyramid,
    pub sphere: Sphere,
}

impl Scenery {
    /// The shapes held in the four vertex arrays; the sphere has
    /// [`SPHERE_DIVISIONS`] latitude and longitude divisions.
    pub fn new(left_cube: u32, right_cube: u32, pyramid: u32, sphere: u32) -> (r: Scenery)
        ensures
            r.left_cube.vertex_array_of() == left_cube,
            r.left_cube.vertex_count_of() == CUBE_VERTICES,
            r.right_cube.vertex_array_of() == right_cube,
            r.right_cube.vertex_count_of() == CUBE_VERTICES,
            r.pyramid.vertex_array_of() == pyramid,
            r.pyramid.vertex_count_of() == PYRAMID_VERTICES,
            r.sphere.vertex_array_of() == sphere,
            r.sphere.vertex_count_of() == 6 * 80 * 79,
            r.sphere.vertex_count_of() == sphere_mesh(
                SPHERE_DIVISIONS as nat,
                SPHERE_DIVISIONS as nat,
            ).len(),
    {
        assert(6 * SPHERE_DIVISIONS * (SPHERE_DIVISIONS - 1) == 37920) by (nonlinear_arith);
        Scenery {
            left_cube: Cube::new(left_cube),
            right_cube: Cube::new(right_cube),
            pyramid: Pyramid::new(pyramid),
            sphere: Sphere::new(sphere, SPHERE_DIVISIONS, SPHERE_DIVISIONS),
        }
    }

    /// Each shape's draw call with the program's uniforms `u`, paired with
    /// its model plan for the state `scene`, in drawing order.
    pub fn draw_list(&self, scene: &Scene, u: &UniformLocations) -> (r: Vec<ModelDraw>)
        ensures
            r@.len() == 4,
            r@[0].call == draw_call(
                self.left_cube.vertex_array_of(),
                self.left_cube.vertex_count_of(),
                *u,
            ),
            r@[0].model@ == left_cube_plan(*scene),
            r@[1].call == draw_call(
                self.right_cube.vertex_array_of(),
                self.right_cube.vertex_count_of(),
                *u,
            ),
            r@[1].model@ == right_cube_plan(*scene),
            r@[2].call == draw_call(
                self.pyramid.vertex_array_of(),
                self.pyramid.vertex_count_of(),
                *u,
            ),
            r@[2].model@ == pyramid_plan(*scene),
            r@[3].call == draw_call(self.sphere.vertex_array_of(), self.sphere.vertex_count_of(), *u),
            r@[3].model@ == sphere_plan(*scene),
    {
        let mut r: Vec<ModelDraw> = Vec::new();
        r.push(ModelDraw { call: self.left_cube.draw(u), model: scene.left_cube_model() });
        r.push(ModelDraw { call: self.right_cube.draw(u), model: scene.right_cube_model() });
        r.push(ModelDraw { call: self.pyramid.draw(u), model: scene.pyramid_model() });
        r.push(ModelDraw { call: self.sphere.draw(u), model: scene.sphere_model() });
        r
    }
}

} // verus!
