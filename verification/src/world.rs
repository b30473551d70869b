//! The scene: one light, the shape collection, and the full
//! ray-to-color pipeline.

use crate::color::Color;
use crate::computation::{
    spec_comp_eyev, spec_comp_normalv, spec_comp_over_point, spec_comp_point, Computation,
};
use crate::consts::{black, spec_black, white};
use crate::fixed::{Fx, SCALE};
use crate::intersection::{
    hit, iview, ivs, sort_intersections, spec_hit, spec_sort, Intersection,
};
use crate::light::Light;
use crate::material::{spec_lighting, Material};
use crate::matrice::Matrice;
use crate::point::Point;
use crate::ray::Ray;
use crate::shape::{
    shape_id_view, shape_material, shape_transform, spec_shape_intersect, Shape,
};
use crate::tuple::{t_magnitude, t_sub, Tuple};
use crate::vector::{v_normalize, Vector};
use vstd::prelude::*;
use vstd::seq_lib::group_to_multiset_ensures;

verus! {

/// One light and the shapes, in insertion order.
#[derive(Debug)]
pub struct World {
    pub light: Light,
    pub shapes: Vec<Shape>,
}

/// The identity-tagged roots of one shape along a ray; empty on a miss.
pub open spec fn shape_pairs(s: Shape, r: Ray) -> Seq<(Seq<char>, Fx)> {
    match spec_shape_intersect(s, r) {
        None => Seq::empty(),
        Some(roots) => roots.map_values(|t: Fx| (shape_id_view(s), t)),
    }
}

/// All tagged roots of the first `n` shapes, in shape order.
pub open spec fn world_pairs_prefix(shapes: Seq<Shape>, r: Ray, n: nat) -> Seq<(Seq<char>, Fx)>
    decreases n,
{
    if n == 0 {
        Seq::empty()
    } else {
        world_pairs_prefix(shapes, r, (n - 1) as nat) + shape_pairs(shapes[n - 1], r)
    }
}

pub open spec fn spec_world_pairs(shapes: Seq<Shape>, r: Ray) -> Seq<(Seq<char>, Fx)> {
    world_pairs_prefix(shapes, r, shapes.len())
}

/// Every intersection of the world along a ray, ascending by distance.
pub open spec fn spec_world_sorted(shapes: Seq<Shape>, r: Ray) -> Seq<(Seq<char>, Fx)> {
    spec_sort(spec_world_pairs(shapes, r))
}

/// The first shape carrying the identity, in insertion order.
pub open spec fn spec_find_shape(shapes: Seq<Shape>, id: Seq<char>) -> Option<Shape>
    decreases shapes.len(),
{
    if shapes.len() == 0 {
        None
    } else if shape_id_view(shapes[0]) == id {
        Some(shapes[0])
    } else {
        spec_find_shape(shapes.drop_first(), id)
    }
}

/// A point is shadowed when something stands between it and the light:
/// the hit along the ray toward the light lies short of the light's
/// distance. A point at the light itself is never shadowed.
pub open spec fn spec_is_shadowed(shapes: Seq<Shape>, light: Light, p: Tuple) -> bool {
    let v = t_sub(light.position.position, p);
    let distance = t_magnitude(v);
    if distance.raw == 0 {
        false
    } else {
        let ray = Ray {
            origin: Point { position: p },
            direction: Vector { position: v_normalize(v) },
        };
        match spec_hit(spec_world_sorted(shapes, ray)) {
            Some(h) => h.1.raw < distance.raw,
            None => false,
        }
    }
}

/// Shade one hit against a given shape: its material lit at the point,
/// with the shadow test cast from the nudged over point.
pub open spec fn spec_shade_for(
    s: Shape,
    shapes: Seq<Shape>,
    light: Light,
    pt: Tuple,
    over: Tuple,
    eye: Tuple,
    nv: Tuple,
) -> Color {
    spec_lighting(
        shape_material(s),
        light,
        shape_transform(s),
        pt,
        eye,
        nv,
        spec_is_shadowed(shapes, light, over),
    )
}

/// Shade a precomputed hit: the shape is looked up by identity first.
pub open spec fn spec_shade_hit(
    shapes: Seq<Shape>,
    light: Light,
    object_id: Seq<char>,
    pt: Tuple,
    over: Tuple,
    eye: Tuple,
    nv: Tuple,
) -> Color {
    match spec_find_shape(shapes, object_id) {
        Some(s) => spec_shade_for(s, shapes, light, pt, over, eye, nv),
        None => spec_black(),
    }
}

/// What one ray sees: black where nothing is hit, otherwise the
/// visible hit shaded through the Phong model with shadowing.
pub open spec fn spec_color_at(shapes: Seq<Shape>, light: Light, r: Ray) -> Color {
    match spec_hit(spec_world_sorted(shapes, r)) {
        None => spec_black(),
        Some(h) => match spec_find_shape(shapes, h.0) {
            None => spec_black(),
            Some(s) => spec_shade_for(
                s,
                shapes,
                light,
                spec_comp_point(r, h.1),
                spec_comp_over_point(s, r, h.1),
                spec_comp_eyev(r),
                spec_comp_normalv(s, r, h.1),
            ),
        },
    }
}

/// Every tagged root carries the identity of one of the first `n`
/// shapes.
pub proof fn lemma_world_pairs_ids(shapes: Seq<Shape>, r: Ray, n: nat)
    requires
        n <= shapes.len(),
    ensures
        forall|k: int|
            0 <= k < world_pairs_prefix(shapes, r, n).len() ==> exists|j: int|
                0 <= j < n && (#[trigger] world_pairs_prefix(shapes, r, n)[k]).0
                    == shape_id_view(shapes[j]),
    decreases n,
{
    if n > 0 {
        lemma_world_pairs_ids(shapes, r, (n - 1) as nat);
        let prev = world_pairs_prefix(shapes, r, (n - 1) as nat);
        let cur = world_pairs_prefix(shapes, r, n);
        let tail = shape_pairs(shapes[n - 1], r);
        assert forall|k: int| 0 <= k < cur.len() implies exists|j: int|
            0 <= j < n && (#[trigger] cur[k]).0 == shape_id_view(shapes[j]) by {
            if k < prev.len() {
                assert(cur[k] == prev[k]);
                let j = choose|j: int|
                    0 <= j < n - 1 && (#[trigger] prev[k]).0 == shape_id_view(shapes[j]);
                assert(0 <= j < n && cur[k].0 == shape_id_view(shapes[j]));
            } else {
                assert(cur[k] == tail[k - prev.len()]);
                assert(tail[k - prev.len()].0 == shape_id_view(shapes[n - 1]));
                assert(0 <= n - 1 < n && cur[k].0 == shape_id_view(shapes[n - 1]));
            }
        }
    }
}

/// A shape that carries the identity makes the lookup succeed.
pub proof fn lemma_find_shape_exists(shapes: Seq<Shape>, id: Seq<char>)
    requires
        exists|j: int| 0 <= j < shapes.len() && shape_id_view(#[trigger] shapes[j]) == id,
    ensures
        spec_find_shape(shapes, id) is Some,
    decreases shapes.len(),
{
    let j = choose|j: int| 0 <= j < shapes.len() && shape_id_view(#[trigger] shapes[j]) == id;
    if shape_id_view(shapes[0]) == id {
    } else {
        assert(j != 0);
        assert(shapes.drop_first()[j - 1] == shapes[j]);
        lemma_find_shape_exists(shapes.drop_first(), id);
    }
}

/// The runtime linear search lands on the same shape as the lookup.
pub proof fn lemma_find_shape_index(shapes: Seq<Shape>, id: Seq<char>, i: int)
    requires
        0 <= i < shapes.len(),
        forall|k: int| 0 <= k < i ==> shape_id_view(#[trigger] shapes[k]) != id,
        shape_id_view(shapes[i]) == id,
    ensures
        spec_find_shape(shapes, id) == Some(shapes[i]),
    decreases i,
{
    if i == 0 {
    } else {
        assert(shape_id_view(shapes[0]) != id);
        assert forall|k: int|
            0 <= k < i - 1 implies shape_id_view(#[trigger] shapes.drop_first()[k]) != id by {
            assert(shapes.drop_first()[k] == shapes[k + 1]);
        }
        assert(shapes.drop_first()[i - 1] == shapes[i]);
        lemma_find_shape_index(shapes.drop_first(), id, i - 1);
    }
}

/// When no shape carries the identity the lookup comes back empty.
pub proof fn lemma_find_shape_none(shapes: Seq<Shape>, id: Seq<char>)
    requires
        forall|k: int| 0 <= k < shapes.len() ==> shape_id_view(#[trigger] shapes[k]) != id,
    ensures
        spec_find_shape(shapes, id) is None,
    decreases shapes.len(),
{
    if shapes.len() > 0 {
        assert forall|k: int|
            0 <= k < shapes.drop_first().len() implies shape_id_view(
            #[trigger] shapes.drop_first()[k],
        ) != id by {
            assert(shapes.drop_first()[k] == shapes[k + 1]);
        }
        lemma_find_shape_none(shapes.drop_first(), id);
    }
}

/// The hit of a world intersection names a shape of the world.
pub proof fn lemma_hit_id_is_registered(shapes: Seq<Shape>, r: Ray, h: (Seq<char>, Fx))
    requires
        spec_hit(spec_world_sorted(shapes, r)) == Some(h),
    ensures
        spec_find_shape(shapes, h.0) is Some,
{
    broadcast use group_to_multiset_ensures;

    let pairs = spec_world_pairs(shapes, r);
    let sorted = spec_world_sorted(shapes, r);
    crate::intersection::lemma_hit_characterization(sorted);
    let k = choose|k: int|
        0 <= k < sorted.len() && sorted[k] == h && h.1.raw > 0 && (forall|j: int|
            0 <= j < k ==> (#[trigger] sorted[j]).1.raw <= 0);
    assert(sorted.contains(h));
    crate::intersection::lemma_sort_multiset(pairs);
    assert(sorted.to_multiset().count(h) > 0);
    assert(pairs.to_multiset().count(h) > 0);
    assert(pairs.contains(h));
    let k2 = choose|k2: int| 0 <= k2 < pairs.len() && pairs[k2] == h;
    lemma_world_pairs_ids(shapes, r, shapes.len());
    let j = choose|j: int|
        0 <= j < shapes.len() && (#[trigger] pairs[k2]).0 == shape_id_view(shapes[j]);
    assert(0 <= j < shapes.len() && shape_id_view(shapes[j]) == h.0);
    lemma_find_shape_exists(shapes, h.0);
}

impl World {
    /// Every shape of the world is well formed.
    pub open spec fn wf(&self) -> bool {
        forall|k: int| 0 <= k < self.shapes@.len() ==> (#[trigger] self.shapes@[k]).wf()
    }

    /// An empty world with the given light.
    pub fn new(light: Light) -> (r: World)
        ensures
            r.wf(),
            r.light == light,
            r.shapes@.len() == 0,
    {
        World { light, shapes: Vec::new() }
    }

    /// Register one more shape; insertion order is kept.
    pub fn add_shape(&mut self, shape: Shape)
        requires
            shape.wf(),
        ensures
            final(self).shapes@ == old(self).shapes@.push(shape),
            final(self).light == old(self).light,
            old(self).wf() ==> final(self).wf(),
    {
        self.shapes.push(shape);
    }

    /// Every shape's intersections along the ray, ascending by
    /// distance; nothing when no shape is met.
    pub fn intersect(&self, ray: &Ray) -> (res: Option<Vec<Intersection>>)
        requires
            self.wf(),
        ensures
            match res {
                None => spec_world_sorted(self.shapes@, *ray).len() == 0,
                Some(v) => v@.len() > 0 && ivs(v@) == spec_world_sorted(self.shapes@, *ray),
            },
    {
        let mut result: Vec<Intersection> = Vec::new();
        let mut si: usize = 0;
        while si < self.shapes.len()
            invariant
                self.wf(),
                si <= self.shapes@.len(),
                ivs(result@) == world_pairs_prefix(self.shapes@, *ray, si as nat),
            decreases self.shapes@.len() - si,
        {
            let shape = &self.shapes[si];
            let ghost pre = result@;
            match Intersection::intersects(shape, ray) {
                Some(mut ixs) => {
                    let ghost add = ixs@;
                    result.append(&mut ixs);
                    proof {
                        assert(result@ == pre + add);
                        assert(ivs(pre + add) =~= ivs(pre) + ivs(add));
                        assert(ivs(add) == shape_pairs(self.shapes@[si as int], *ray));
                    }
                },
                None => {
                    proof {
                        assert(shape_pairs(self.shapes@[si as int], *ray) =~= Seq::empty());
                        assert(ivs(result@) =~= ivs(pre) + shape_pairs(
                            self.shapes@[si as int],
                            *ray,
                        ));
                    }
                },
            }
            si += 1;
        }
        proof {
            crate::intersection::lemma_sort_len(ivs(result@));
        }
        if result.len() == 0 {
            return None;
        }
        sort_intersections(&mut result);
        Some(result)
    }

    /// Whether something stands between the point and the light.
    pub fn is_shadowed(&self, point: &Point) -> (r: bool)
        requires
            self.wf(),
        ensures
            r == spec_is_shadowed(self.shapes@, self.light, point.position),
    {
        let v = self.light.position.sub(*point);
        let distance = v.magnitude();
        if distance.raw == 0 {
            return false;
        }
        let direction = v.normalize();
        let ray = Ray::new(*point, direction);
        match self.intersect(&ray) {
            Some(xs) => match hit(xs) {
                Some(h) => h.t.raw < distance.raw,
                None => false,
            },
            None => false,
        }
    }

    /// Shade a precomputed hit: the shape is looked back up by its
    /// identity, which must name a registered shape.
    pub fn shade_hit(&self, comps: &Computation) -> (r: Color)
        requires
            self.wf(),
            spec_find_shape(self.shapes@, comps.object_id@) is Some,
        ensures
            r == spec_shade_hit(
                self.shapes@,
                self.light,
                comps.object_id@,
                comps.point.position,
                comps.over_point.position,
                comps.eyev.position,
                comps.normalv.position,
            ),
    {
        let shadowed = self.is_shadowed(&comps.over_point);
        let n = self.shapes.len();
        let mut idx: usize = 0;
        while idx < n
            invariant
                self.wf(),
                n == self.shapes@.len(),
                idx <= n,
                shadowed == spec_is_shadowed(
                    self.shapes@,
                    self.light,
                    comps.over_point.position,
                ),
                forall|k: int|
                    0 <= k < idx ==> shape_id_view(#[trigger] self.shapes@[k])
                        != comps.object_id@,
            decreases n - idx,
        {
            let sid = self.shapes[idx].get_shape_id();
            if sid == comps.object_id {
                proof {
                    lemma_find_shape_index(self.shapes@, comps.object_id@, idx as int);
                }
                let shape = &self.shapes[idx];
                return shape.get_material().lighting(
                    &self.light,
                    shape,
                    &comps.point,
                    &comps.eyev,
                    &comps.normalv,
                    shadowed,
                );
            }
            idx += 1;
        }
        proof {
            lemma_find_shape_none(self.shapes@, comps.object_id@);
            assert(false);
        }
        black()
    }

    /// What the ray sees: background black on a miss, the shaded
    /// visible hit otherwise. The single outside entry point for one
    /// ray's color.
    pub fn color_at(&self, ray: &Ray) -> (r: Color)
        requires
            self.wf(),
        ensures
            r == spec_color_at(self.shapes@, self.light, *ray),
    {
        let xs = match self.intersect(ray) {
            Some(xs) => xs,
            None => {
                return black();
            },
        };
        let ghost gxs = xs@;
        let h = match hit(xs) {
            Some(h) => h,
            None => {
                return black();
            },
        };
        proof {
            lemma_hit_id_is_registered(self.shapes@, *ray, iview(h));
        }
        let n = self.shapes.len();
        let mut idx: usize = 0;
        while idx < n
            invariant
                self.wf(),
                n == self.shapes@.len(),
                idx <= n,
                spec_hit(spec_world_sorted(self.shapes@, *ray)) == Some(iview(h)),
                forall|k: int|
                    0 <= k < idx ==> shape_id_view(#[trigger] self.shapes@[k]) != h.shape_id@,
            decreases n - idx,
        {
            let sid = self.shapes[idx].get_shape_id();
            if sid == h.shape_id {
                proof {
                    lemma_find_shape_index(self.shapes@, h.shape_id@, idx as int);
                }
                let shape = &self.shapes[idx];
                let comps = Computation::new(ray, &h, shape);
                return self.shade_hit(&comps);
            }
            idx += 1;
        }
        proof {
            lemma_find_shape_none(self.shapes@, h.shape_id@);
            assert(false);
        }
        black()
    }
}

/// The outer sphere's material in the default two-sphere world.
pub open spec fn spec_outer_material() -> Material {
    Material {
        color: Color {
            rgb: Tuple {
                x: Fx { raw: 800_000_000 },
                y: Fx { raw: SCALE as i64 },
                z: Fx { raw: 600_000_000 },
            },
        },
        ambient: Fx { raw: 100_000_000 },
        diffuse: Fx { raw: 700_000_000 },
        specular: Fx { raw: 200_000_000 },
        shininess: Fx { raw: (200 * SCALE) as i64 },
        pattern: None,
    }
}

impl Default for World {
    /// The default two-sphere scene: a white light at `(-10, 10, -10)`,
    /// an outer unit sphere with the soft green material, and an inner
    /// sphere at half scale.
    fn default() -> (r: World)
        ensures
            r.wf(),
            r.light.position.position == (Tuple {
                x: Fx { raw: ((-10) * SCALE) as i64 },
                y: Fx { raw: (10 * SCALE) as i64 },
                z: Fx { raw: ((-10) * SCALE) as i64 },
            }),
            r.light.intensity == crate::consts::spec_white(),
            r.shapes@.len() == 2,
            shape_transform(r.shapes@[0]) == crate::matrice::spec_identity(4),
            shape_material(r.shapes@[0]) == spec_outer_material(),
            shape_transform(r.shapes@[1]) == crate::transformations::spec_scaling(
                Fx { raw: 500_000_000 },
                Fx { raw: 500_000_000 },
                Fx { raw: 500_000_000 },
            ),
            shape_material(r.shapes@[1]) == crate::material::spec_default_material(),
    {
        let light = Light::new(
            Point::new(Fx { raw: -10 * SCALE }, Fx { raw: 10 * SCALE }, Fx { raw: -10 * SCALE }),
            white(),
        );
        let mut w = World::new(light);
        let m1 = Material::new(
            Color::new(Fx { raw: 800_000_000 }, Fx { raw: SCALE }, Fx { raw: 600_000_000 }),
            Fx { raw: 100_000_000 },
            Fx { raw: 700_000_000 },
            Fx { raw: 200_000_000 },
            Fx { raw: 200 * SCALE },
            None,
        );
        let mut s1 = crate::shape::sphere::Sphere::default();
        s1.set_material(m1);
        let half = Fx { raw: 500_000_000 };
        let mut s2 = crate::shape::sphere::Sphere::default();
        s2.set_transform(crate::transformations::scaling(half, half, half));
        w.add_shape(Shape::Sphere(s1));
        w.add_shape(Shape::Sphere(s2));
        w
    }
}

} // verus!
