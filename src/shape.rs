//! The drawable shapes and the procedural sphere's triangulation.
//!
//! Each shape owns a vertex array on the graphics server, filled once at
//! start-up with positions in attribute slot 0 and colours in slot 1, and
//! drawn as a non-indexed triangle list. Drawing never changes a shape: it
//! only says which calls to issue.
use vstd::prelude::*;

verus! {

/// Vertices of the cube: six faces of two triangles.
pub const CUBE_VERTICES: i32 = 36;
/// Vertices of the pyramid: a square base of two triangles and four sides.
pub const PYRAMID_VERTICES: i32 = 18;
/// Attribute slot of vertex positions.
pub const POSITION_SLOT: u32 = 0;
/// Attribute slot of vertex colours.
pub const COLOUR_SLOT: u32 = 1;
/// Latitude and longitude divisions of the scene's sphere.
pub const SPHERE_DIVISIONS: usize = 80;
/// Location value of a uniform that the program does not use.
pub const NOT_FOUND: i32 = -1;

/// Where the shader program takes each uniform, or [`NOT_FOUND`].
#[derive(Clone, Copy, Debug, PartialEq, Eq)]
pub struct UniformLocations {
    pub model: i32,
    pub view: i32,
    pub projection: i32,
    pub colour_mode: i32,
}

/// The calls that draw one shape: set the model matrix when the program
/// uses it, bind the vertex array, and draw `count` vertices from `first`
/// as triangles.
#[derive(Clone, Copy, Debug, PartialEq, Eq)]
pub struct DrawCall {
    pub model_location: Option<i32>,
    pub vertex_array: u32,
    pub first: i32,
    pub count: i32,
}

/// `loc` when it names a uniform, none when it is [`NOT_FOUND`].
pub open spec fn found(loc: i32) -> Option<i32> {
    if loc != NOT_FOUND {
        Some(loc)
    } else {
        None
    }
}

/// The draw call for vertex array `vao` of `count` vertices.
pub open spec fn draw_call(vao: u32, count: i32, u: UniformLocations) -> DrawCall {
    DrawCall { model_location: found(u.model), vertex_array: vao, first: 0, count }
}

/// A uniform location, or none when the program does not use that uniform.
pub fn uniform_location(loc: i32) -> (r: Option<i32>)
    ensures
        r == found(loc),
{
    if loc != NOT_FOUND {
        Some(loc)
    } else {
        None
    }
}

/// Something that owns a vertex array and can be drawn from it.
pub trait Shape {
    spec fn vertex_array_of(&self) -> u32;

    spec fn vertex_count_of(&self) -> i32;

    /// The calls that draw the shape with the program's uniforms `u`.
    fn draw(&self, u: &UniformLocations) -> (r: DrawCall)
        ensures
            r == draw_call(self.vertex_array_of(), self.vertex_count_of(), *u),
    ;
}

pub struct Cube {
    vao: u32,
    vertex_count: i32,
}

pub struct Pyramid {
    vao: u32,
    vertex_count: i32,
}

pub struct Sphere {
    vao: u32,
    vertex_count: i32,
}

impl Cube {
    /// The cube held in vertex array `vao`.
    pub fn new(vao: u32) -> (r: Cube)
        ensures
            r.vertex_array_of() == vao,
            r.vertex_count_of() == CUBE_VERTICES,
    {
        Cube { vao, vertex_count: CUBE_VERTICES }
    }
}

impl Shape for Cube {
    closed spec fn vertex_array_of(&self) -> u32 {
        self.vao
    }

    closed spec fn vertex_count_of(&self) -> i32 {
        self.vertex_count
    }

    fn draw(&self, u: &UniformLocations) -> (r: DrawCall) {
        DrawCall {
            model_location: uniform_location(u.model),
            vertex_array: self.vao,
            first: 0,
            count: self.vertex_count,
        }
    }
}

impl Pyramid {
    /// The pyramid held in vertex array `vao`.
    pub fn new(vao: u32) -> (r: Pyramid)
        ensures
            r.vertex_array_of() == vao,
            r.vertex_count_of() == PYRAMID_VERTICES,
    {
        Pyramid { vao, vertex_count: PYRAMID_VERTICES }
    }
}

impl Shape for Pyramid {
    closed spec fn vertex_array_of(&self) -> u32 {
        self.vao
    }

    closed spec fn vertex_count_of(&self) -> i32 {
        self.vertex_count
    }

    fn draw(&self, u: &UniformLocations) -> (r: DrawCall) {
        DrawCall {
            model_location: uniform_location(u.model),
            vertex_array: self.vao,
            first: 0,
            count: self.vertex_count,
        }
    }
}

impl Shape for Sphere {
    closed spec fn vertex_array_of(&self) -> u32 {
        self.vao
    }

    closed spec fn vertex_count_of(&self) -> i32 {
        self.vertex_count
    }

    fn draw(&self, u: &UniformLocations) -> (r: DrawCall) {
        DrawCall {
            model_location: uniform_location(u.model),
            vertex_array: self.vao,
            first: 0,
            count: self.vertex_count,
        }
    }
}

/// Drawing a shape changes nothing, and the same shape drawn twice with the
/// same uniforms issues the same calls both times, naming the shape's own
/// vertex array and vertex count.
pub proof fn lemma_draw_repeatable<S: Shape>(s: S, u: UniformLocations, d1: DrawCall, d2: DrawCall)
    requires
        d1 == draw_call(s.vertex_array_of(), s.vertex_count_of(), u),
        d2 == draw_call(s.vertex_array_of(), s.vertex_count_of(), u),
    ensures
        d1 == d2,
        d1.vertex_array == s.vertex_array_of(),
        d1.count == s.vertex_count_of(),
        d1.first == 0,
{
}

/// A vertex of the sphere's latitude/longitude grid: ring `lat` from the
/// north pole (0) to the south pole (the number of latitude divisions), and
/// meridian `long`. On the unit sphere it lies at
/// (cos φ sin θ, sin φ sin θ, cos θ) with θ = π·lat/lats and φ = 2π·long/longs.
#[derive(Clone, Copy, Debug, PartialEq, Eq)]
pub struct GridPoint {
    pub lat: usize,
    pub long: usize,
}

pub open spec fn gp(lat: nat, long: nat) -> GridPoint {
    GridPoint { lat: lat as usize, long: long as usize }
}

/// The first `i` triangles of the northern cap: the pole and two
/// neighbouring points of the first ring.
pub open spec fn top_cap(longs: nat, i: nat) -> Seq<GridPoint>
    decreases i,
{
    if i == 0 {
        seq![]
    } else {
        top_cap(longs, (i - 1) as nat) + seq![gp(0, 0), gp(1, (i - 1) as nat), gp(1, i % longs)]
    }
}

/// The first `i` quads, two triangles each, between rings `ring` and `ring + 1`.
pub open spec fn band(longs: nat, ring: nat, i: nat) -> Seq<GridPoint>
    decreases i,
{
    if i == 0 {
        seq![]
    } else {
        let a = (i - 1) as nat;
        let b = i % longs;
        band(longs, ring, a) + seq![
            gp(ring, a), gp(ring, b), gp(ring + 1, a),
            gp(ring + 1, a), gp(ring, b), gp(ring + 1, b),
        ]
    }
}

/// The bands between rings 1 and `k + 1`.
pub open spec fn bands(longs: nat, k: nat) -> Seq<GridPoint>
    decreases k,
{
    if k == 0 {
        seq![]
    } else {
        bands(longs, (k - 1) as nat) + band(longs, k, longs)
    }
}

/// The first `i` triangles of the southern cap: two neighbouring points of
/// the last ring and the pole.
pub open spec fn bottom_cap(lats: nat, longs: nat, i: nat) -> Seq<GridPoint>
    decreases i,
{
    if i == 0 {
        seq![]
    } else {
        bottom_cap(lats, longs, (i - 1) as nat) + seq![
            gp((lats - 1) as nat, (i - 1) as nat), gp((lats - 1) as nat, i % longs), gp(lats, 0),
        ]
    }
}

/// The sphere's triangle list: northern cap, bands, southern cap.
pub open spec fn sphere_mesh(lats: nat, longs: nat) -> Seq<GridPoint> {
    top_cap(longs, longs) + bands(longs, (lats - 2) as nat) + bottom_cap(lats, longs, longs)
}

proof fn lemma_cap_lengths(lats: nat, longs: nat, i: nat)
    ensures
        top_cap(longs, i).len() == 3 * i,
        bottom_cap(lats, longs, i).len() == 3 * i,
        band(longs, lats, i).len() == 6 * i,
    decreases i,
{
    if i > 0 {
        lemma_cap_lengths(lats, longs, (i - 1) as nat);
    }
}

proof fn lemma_bands_length(longs: nat, k: nat)
    ensures
        bands(longs, k).len() == 6 * longs * k,
    decreases k,
{
    if k > 0 {
        lemma_bands_length(longs, (k - 1) as nat);
        lemma_cap_lengths(k, longs, longs);
        assert(6 * longs * (k - 1) + 6 * longs == 6 * longs * k) by (nonlinear_arith);
    } else {
        assert(6 * longs * k == 0) by (nonlinear_arith)
            requires
                k == 0,
        ;
    }
}

/// The sphere of `lats` latitude divisions and `longs` longitude divisions
/// has `2 × longs × (lats − 1)` triangles: `longs` in each cap and
/// `2 × longs × (lats − 2)` in the bands between.
pub proof fn lemma_sphere_triangle_count(lats: nat, longs: nat)
    requires
        lats >= 2,
    ensures
        sphere_mesh(lats, longs).len() == 3 * (2 * longs * (lats - 1)),
        sphere_mesh(lats, longs).len() == 3 * (longs + 2 * longs * (lats - 2) + longs),
{
    lemma_cap_lengths(lats, longs, longs);
    lemma_bands_length(longs, (lats - 2) as nat);
    assert(3 * longs + 6 * longs * (lats - 2) + 3 * longs == 3 * (2 * longs * (lats - 1)))
        by (nonlinear_arith)
        requires
            lats >= 2,
    ;
    assert(3 * longs + 6 * longs * (lats - 2) + 3 * longs == 3 * (longs + 2 * longs * (lats - 2)
        + longs)) by (nonlinear_arith);
}


/// Whether `p` is a point of the grid of `lats` × `longs` divisions.
pub open spec fn on_grid(p: GridPoint, lats: nat, longs: nat) -> bool {
    p.lat <= lats && p.long < longs
}

/// Whether every point of `ps` is a point of the grid.
pub open spec fn all_on_grid(ps: Seq<GridPoint>, lats: nat, longs: nat) -> bool {
    forall|k: int| 0 <= k < ps.len() ==> #[trigger] on_grid(ps[k], lats, longs)
}

proof fn lemma_append_on_grid(a: Seq<GridPoint>, b: Seq<GridPoint>, lats: nat, longs: nat)
    requires
        all_on_grid(a, lats, longs),
        all_on_grid(b, lats, longs),
    ensures
        all_on_grid(a + b, lats, longs),
{
    assert forall|k: int| 0 <= k < (a + b).len() implies #[trigger] on_grid((a + b)[k], lats, longs) by {
        if k < a.len() {
            assert((a + b)[k] == a[k]);
        } else {
            assert((a + b)[k] == b[k - a.len()]);
        }
    }
}

proof fn lemma_caps_on_grid(lats: nat, longs: nat, i: nat)
    requires
        lats >= 1,
        i <= longs,
    ensures
        all_on_grid(top_cap(longs, i), lats, longs),
        all_on_grid(bottom_cap(lats, longs, i), lats, longs),
    decreases i,
{
    if i > 0 {
        lemma_caps_on_grid(lats, longs, (i - 1) as nat);
        let t = seq![gp(0, 0), gp(1, (i - 1) as nat), gp(1, i % longs)];
        let b = seq![gp((lats - 1) as nat, (i - 1) as nat), gp((lats - 1) as nat, i % longs), gp(lats, 0)];
        assert(all_on_grid(t, lats, longs));
        assert(all_on_grid(b, lats, longs));
        lemma_append_on_grid(top_cap(longs, (i - 1) as nat), t, lats, longs);
        lemma_append_on_grid(bottom_cap(lats, longs, (i - 1) as nat), b, lats, longs);
    }
}

proof fn lemma_band_on_grid(lats: nat, longs: nat, ring: nat, i: nat)
    requires
        ring + 1 <= lats,
        i <= longs,
    ensures
        all_on_grid(band(longs, ring, i), lats, longs),
    decreases i,
{
    if i > 0 {
        lemma_band_on_grid(lats, longs, ring, (i - 1) as nat);
        let a = (i - 1) as nat;
        let b = i % longs;
        let q = seq![
            gp(ring, a), gp(ring, b), gp(ring + 1, a),
            gp(ring + 1, a), gp(ring, b), gp(ring + 1, b),
        ];
        assert(all_on_grid(q, lats, longs));
        lemma_append_on_grid(band(longs, ring, a), q, lats, longs);
    }
}

proof fn lemma_bands_on_grid(lats: nat, longs: nat, k: nat)
    requires
        k + 1 <= lats,
    ensures
        all_on_grid(bands(longs, k), lats, longs),
    decreases k,
{
    if k > 0 {
        lemma_bands_on_grid(lats, longs, (k - 1) as nat);
        lemma_band_on_grid(lats, longs, k, longs);
        lemma_append_on_grid(bands(longs, (k - 1) as nat), band(longs, k, longs), lats, longs);
    }
}

/// Every vertex of the sphere's triangle list is a point of its grid, so it
/// lies on the unit sphere at the position that [`GridPoint`] describes.
pub proof fn lemma_sphere_on_grid(lats: nat, longs: nat)
    requires
        lats >= 2,
    ensures
        all_on_grid(sphere_mesh(lats, longs), lats, longs),
{
    lemma_caps_on_grid(lats, longs, longs);
    lemma_bands_on_grid(lats, longs, (lats - 2) as nat);
    lemma_append_on_grid(top_cap(longs, longs), bands(longs, (lats - 2) as nat), lats, longs);
    lemma_append_on_grid(
        top_cap(longs, longs) + bands(longs, (lats - 2) as nat),
        bottom_cap(lats, longs, longs),
        lats,
        longs,
    );
}

impl Sphere {
    /// The sphere of `num_lats` latitude and `num_longs` longitude divisions,
    /// whose triangle list, as [`Sphere::generate_sphere`] builds it, is held
    /// in vertex array `vao`.
    pub fn new(vao: u32, num_lats: usize, num_longs: usize) -> (r: Sphere)
        requires
            num_lats >= 2,
            6 * num_longs * (num_lats - 1) <= i32::MAX,
        ensures
            r.vertex_array_of() == vao,
            r.vertex_count_of() == 6 * num_longs * (num_lats - 1),
            r.vertex_count_of() == sphere_mesh(num_lats as nat, num_longs as nat).len(),
    {
        proof {
            lemma_sphere_triangle_count(num_lats as nat, num_longs as nat);
            assert(3 * (2 * num_longs * (num_lats - 1)) == 6 * num_longs * (num_lats - 1))
                by (nonlinear_arith);
            assert(6 * num_longs <= 6 * num_longs * (num_lats - 1)) by (nonlinear_arith)
                requires
                    num_lats >= 2,
            ;
        }
        let count = 6 * num_longs * (num_lats - 1);
        Sphere { vao, vertex_count: count as i32 }
    }

    /// The triangle list of the sphere with `num_lats` latitude and
    /// `num_longs` longitude divisions, as grid points, three per triangle.
    pub fn generate_sphere(num_lats: usize, num_longs: usize) -> (r: Vec<GridPoint>)
        requires
            num_lats >= 2,
        ensures
            r@ == sphere_mesh(num_lats as nat, num_longs as nat),
            r@.len() == 3 * (2 * num_longs * (num_lats - 1)),
            all_on_grid(r@, num_lats as nat, num_longs as nat),
    {
        let ghost longs = num_longs as nat;
        let mut r: Vec<GridPoint> = Vec::new();
        let mut i: usize = 0;
        while i < num_longs
            invariant
                longs == num_longs as nat,
                i <= num_longs,
                r@ == top_cap(longs, i as nat),
            decreases num_longs - i,
        {
            let j = (i + 1) % num_longs;
            r.push(GridPoint { lat: 0, long: 0 });
            r.push(GridPoint { lat: 1, long: i });
            r.push(GridPoint { lat: 1, long: j });
            i += 1;
            assert(r@ =~= top_cap(longs, i as nat));
        }
        let mut lat: usize = 0;
        while lat < num_lats - 2
            invariant
                longs == num_longs as nat,
                num_lats >= 2,
                lat <= num_lats - 2,
                r@ == top_cap(longs, longs) + bands(longs, lat as nat),
            decreases num_lats - 2 - lat,
        {
            let ring = lat + 1;
            let mut i: usize = 0;
            while i < num_longs
                invariant
                    longs == num_longs as nat,
                    num_lats >= 2,
                    lat < num_lats - 2,
                    ring == lat + 1,
                    i <= num_longs,
                    r@ == top_cap(longs, longs) + bands(longs, lat as nat) + band(
                        longs,
                        ring as nat,
                        i as nat,
                    ),
                decreases num_longs - i,
            {
                let j = (i + 1) % num_longs;
                r.push(GridPoint { lat: ring, long: i });
                r.push(GridPoint { lat: ring, long: j });
                r.push(GridPoint { lat: ring + 1, long: i });
                r.push(GridPoint { lat: ring + 1, long: i });
                r.push(GridPoint { lat: ring, long: j });
                r.push(GridPoint { lat: ring + 1, long: j });
                i += 1;
                assert(r@ =~= top_cap(longs, longs) + bands(longs, lat as nat) + band(
                    longs,
                    ring as nat,
                    i as nat,
                ));
            }
            lat += 1;
            assert(r@ =~= top_cap(longs, longs) + bands(longs, lat as nat));
        }
        let last = num_lats - 1;
        let mut i: usize = 0;
        while i < num_longs
            invariant
                longs == num_longs as nat,
                num_lats >= 2,
                last == num_lats - 1,
                i <= num_longs,
                r@ == top_cap(longs, longs) + bands(longs, (num_lats - 2) as nat) + bottom_cap(
                    num_lats as nat,
                    longs,
                    i as nat,
                ),
            decreases num_longs - i,
        {
            r.push(GridPoint { lat: last, long: i });
            r.push(GridPoint { lat: last, long: (i + 1) % num_longs });
            r.push(GridPoint { lat: num_lats, long: 0 });
            i += 1;
            assert(r@ =~= top_cap(longs, longs) + bands(longs, (num_lats - 2) as nat) + bottom_cap(
                num_lats as nat,
                longs,
                i as nat,
            ));
        }
        proof {
            lemma_sphere_triangle_count(num_lats as nat, longs);
            lemma_sphere_on_grid(num_lats as nat, longs);
        }
        r
    }
}

} // verus!
