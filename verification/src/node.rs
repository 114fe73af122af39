//! Grid nodes: each frame a node re-derives its rendered position, radius
//! and color from the bearing toward, and the distance to, the attractor.
//!
//! The bearing enters as a scaled unit vector (sin, cos of the angle between
//! the origin-to-resting-center vector and the origin-to-attractor vector,
//! supplied by the host); everything after that is exact integer arithmetic.

use vstd::prelude::*;

use crate::math::{COORD_LIMIT, sqrt_floor, isqrt, is_sqrt_floor, lemma_sqrt_floor_unique};
use crate::rng::{ColorRng, spec_next_state, spec_channel};

verus! {

/// Orbit radius, in whole units: every node sits on a circle of this radius
/// around its resting center.
pub const ORBIT_UNITS: i64 = 30;

/// Distance (milli-units) under which a node flashes a random color.
pub const COLOR_DIST: i64 = 100_000;

/// Largest magnitude a rendered position can reach: a coordinate plus the
/// orbit offset.
pub const POS_LIMIT: i64 = 1_000_030_000;

/// A bearing as a scaled unit vector: sine and cosine of the angle, each in
/// [-SCALE, SCALE].
#[derive(Clone, Copy, PartialEq, Eq, Structural, Debug)]
pub struct Dir {
    pub sin: i64,
    pub cos: i64,
}

impl Dir {
    /// Both components in range, and the vector within rounding distance of
    /// unit length: scaling the true sine and cosine of an angle to
    /// [-SCALE, SCALE] and rounding each component moves the squared length
    /// away from SCALE² by well under 2000.
    pub open spec fn wf(self) -> bool {
        &&& -1000 <= self.sin <= 1000
        &&& -1000 <= self.cos <= 1000
        &&& 998_000 <= self.sin * self.sin + self.cos * self.cos <= 1_002_000
    }
}

/// An RGBA color, each channel scaled to [0, SCALE].
#[derive(Clone, Copy, PartialEq, Eq, Structural, Debug)]
pub struct Color {
    pub r: i64,
    pub g: i64,
    pub b: i64,
    pub a: i64,
}

/// Solid white, fully opaque.
pub open spec fn spec_white() -> Color {
    Color { r: 1000, g: 1000, b: 1000, a: 1000 }
}

impl Color {
    pub open spec fn wf(self) -> bool {
        &&& 0 <= self.r <= 1000
        &&& 0 <= self.g <= 1000
        &&& 0 <= self.b <= 1000
        &&& 0 <= self.a <= 1000
    }

    /// Solid white, fully opaque.
    pub fn white() -> (c: Color)
        ensures
            c == spec_white(),
            c.wf(),
    {
        Color { r: 1000, g: 1000, b: 1000, a: 1000 }
    }
}

/// The node radius (milli-units) produced by a distance to the attractor:
/// 2 units plus 1000 units divided by the distance, the quotient capped at
/// 50 units. A zero distance takes the cap (the uncapped value would be
/// unbounded).
pub open spec fn spec_radius(dist: int) -> int {
    if dist <= 0 {
        52_000
    } else if 1_000_000_000int / dist < 50_000 {
        2_000 + 1_000_000_000int / dist
    } else {
        52_000
    }
}

/// For every distance, the radius lies in [2, 52] units.
pub proof fn lemma_radius_bounds(dist: int)
    ensures
        2_000 <= spec_radius(dist) <= 52_000,
{
    if dist > 0 {
        vstd::arithmetic::div_mod::lemma_div_pos_is_pos(1_000_000_000, dist);
    }
}

/// The rounded-down Euclidean distance between two points (milli-units).
pub open spec fn spec_dist(ax: int, ay: int, bx: int, by: int) -> int {
    sqrt_floor((ax - bx) * (ax - bx) + (ay - by) * (ay - by))
}

/// A grid cell: an immutable resting center plus the rendered position,
/// radius and color recomputed every frame.
#[derive(Clone, Copy, PartialEq, Eq, Structural, Debug)]
pub struct Node {
    pub center_x: i64,
    pub center_y: i64,
    pub x: i64,
    pub y: i64,
    pub radius: i64,
    pub color: Color,
}

impl Node {
    pub open spec fn wf(self) -> bool {
        &&& -COORD_LIMIT <= self.center_x <= COORD_LIMIT
        &&& -COORD_LIMIT <= self.center_y <= COORD_LIMIT
        &&& -POS_LIMIT <= self.x <= POS_LIMIT
        &&& -POS_LIMIT <= self.y <= POS_LIMIT
        &&& 0 <= self.radius
        &&& self.color.wf()
    }

    /// The rendered position this node takes against a bearing `dir`: the
    /// resting center displaced by the orbit radius along (sin, cos).
    pub open spec fn spec_pos_x(self, dir: Dir) -> int {
        self.center_x + 30 * dir.sin
    }

    pub open spec fn spec_pos_y(self, dir: Dir) -> int {
        self.center_y + 30 * dir.cos
    }

    /// The distance from the rendered position to an attractor at (tx, ty).
    pub open spec fn spec_target_dist(self, tx: int, ty: int, dir: Dir) -> int {
        spec_dist(self.spec_pos_x(dir), self.spec_pos_y(dir), tx, ty)
    }

    /// Creates a node at rest: current position as given, the given radius,
    /// solid white.
    pub fn new(center_x: i64, center_y: i64, x: i64, y: i64, radius: i64) -> (n: Node)
        requires
            -COORD_LIMIT <= center_x <= COORD_LIMIT,
            -COORD_LIMIT <= center_y <= COORD_LIMIT,
            -POS_LIMIT <= x <= POS_LIMIT,
            -POS_LIMIT <= y <= POS_LIMIT,
            0 <= radius,
        ensures
            n == (Node { center_x, center_y, x, y, radius, color: spec_white() }),
            n.wf(),
    {
        Node { center_x, center_y, x, y, radius, color: Color::white() }
    }
}

/// One frame of a node against an attractor at (tx, ty), bearing `dir`, and
/// a generator in state `s`: the node afterwards, paired with the generator
/// state afterwards. The position moves onto the orbit circle; the radius
/// follows the distance; inside the color-flash distance three channels are
/// drawn from the generator, otherwise the color is solid white and the
/// generator is untouched.
pub open spec fn spec_update_node(n: Node, tx: int, ty: int, dir: Dir, s: int) -> (Node, int) {
    let nx = n.spec_pos_x(dir);
    let ny = n.spec_pos_y(dir);
    let d = spec_dist(nx, ny, tx, ty);
    if d < 100_000 {
        let s1 = spec_next_state(s);
        let s2 = spec_next_state(s1);
        let s3 = spec_next_state(s2);
        (
            Node {
                x: nx as i64,
                y: ny as i64,
                radius: spec_radius(d) as i64,
                color: Color {
                    r: spec_channel(s1) as i64,
                    g: spec_channel(s2) as i64,
                    b: spec_channel(s3) as i64,
                    a: 1000,
                },
                ..n
            },
            s3,
        )
    } else {
        (
            Node { x: nx as i64, y: ny as i64, radius: spec_radius(d) as i64, color: spec_white(), ..n },
            s,
        )
    }
}

impl Node {
    /// Advances this node for one frame against the already-advanced
    /// attractor position (tx, ty). `dir` is the bearing of the attractor
    /// as seen from the origin-to-center angle; `rng` feeds the proximity
    /// color flash. The result is exactly `spec_update_node` of the inputs.
    pub fn update(&mut self, tx: i64, ty: i64, dir: Dir, rng: &mut ColorRng)
        requires
            old(self).wf(),
            dir.wf(),
            -COORD_LIMIT <= tx <= COORD_LIMIT,
            -COORD_LIMIT <= ty <= COORD_LIMIT,
            old(rng).wf(),
        ensures
            (*final(self), final(rng).state as int)
                == spec_update_node(*old(self), tx as int, ty as int, dir, old(rng).state as int),
            final(self).wf(),
            final(rng).wf(),
            final(self).center_x == old(self).center_x,
            final(self).center_y == old(self).center_y,
            2_000 <= final(self).radius <= 52_000,
            ({
                let ox = final(self).x - final(self).center_x;
                let oy = final(self).y - final(self).center_y;
                898_200_000 <= ox * ox + oy * oy <= 901_800_000
            }),
    {
        proof {
            assert(898_200_000 <= (30 * dir.sin) * (30 * dir.sin) + (30 * dir.cos) * (30
                * dir.cos) <= 901_800_000) by (nonlinear_arith)
                requires
                    998_000 <= dir.sin * dir.sin + dir.cos * dir.cos <= 1_002_000,
            ;
        }
        let nx: i64 = self.center_x + 30 * dir.sin;
        let ny: i64 = self.center_y + 30 * dir.cos;
        self.x = nx;
        self.y = ny;

        let dx: i64 = nx - tx;
        let dy: i64 = ny - ty;
        proof {
            assert(0 <= dx * dx <= 2_000_030_000 * 2_000_030_000) by (nonlinear_arith)
                requires
                    -2_000_030_000 <= dx <= 2_000_030_000,
            ;
            assert(0 <= dy * dy <= 2_000_030_000 * 2_000_030_000) by (nonlinear_arith)
                requires
                    -2_000_030_000 <= dy <= 2_000_030_000,
            ;
        }
        let sq: i64 = dx * dx + dy * dy;
        let d64: u64 = isqrt(sq as u64);
        proof {
            assert(is_sqrt_floor(sq as int, d64 as int));
            assert((d64 as int) * (d64 as int) <= sq as int);
            assert(d64 as int <= 3_000_000_000) by (nonlinear_arith)
                requires
                    (d64 as int) * (d64 as int) <= sq as int,
                    sq as int <= 2 * (2_000_030_000 * 2_000_030_000),
                    0 <= d64 as int,
            ;
        }
        let d: i64 = d64 as i64;

        let boost: i64 = if d == 0 {
            50_000
        } else {
            let q: i64 = 1_000_000_000 / d;
            if q < 50_000 {
                q
            } else {
                50_000
            }
        };
        self.radius = 2_000 + boost;
        proof {
            lemma_radius_bounds(d as int);
        }

        if d < COLOR_DIST {
            let r: i64 = rng.next_channel();
            let g: i64 = rng.next_channel();
            let b: i64 = rng.next_channel();
            self.color = Color { r, g, b, a: 1000 };
        } else {
            self.color = Color::white();
        }
    }
}

/// The squared displacement of a node's rendered position from its resting
/// center is 900 times the squared length of the bearing vector; whenever
/// the bearing is an exact unit vector, the distance from the rendered
/// position to the resting center is exactly the orbit radius of 30 units.
pub proof fn lemma_orbit_displacement(n: Node, tx: int, ty: int, dir: Dir, s: int)
    requires
        n.wf(),
        dir.wf(),
    ensures
        ({
            let n2 = spec_update_node(n, tx, ty, dir, s).0;
            (n2.x - n.center_x) * (n2.x - n.center_x) + (n2.y - n.center_y) * (n2.y - n.center_y)
                == 900 * (dir.sin * dir.sin + dir.cos * dir.cos)
        }),
        dir.sin * dir.sin + dir.cos * dir.cos == 1_000_000 ==> ({
            let n2 = spec_update_node(n, tx, ty, dir, s).0;
            spec_dist(n2.x as int, n2.y as int, n.center_x as int, n.center_y as int) == 30_000
        }),
{
    let n2 = spec_update_node(n, tx, ty, dir, s).0;
    assert(n2.x == n.center_x + 30 * dir.sin);
    assert(n2.y == n.center_y + 30 * dir.cos);
    assert((30 * dir.sin) * (30 * dir.sin) + (30 * dir.cos) * (30 * dir.cos)
        == 900 * (dir.sin * dir.sin + dir.cos * dir.cos)) by (nonlinear_arith);
    if dir.sin * dir.sin + dir.cos * dir.cos == 1_000_000 {
        let sq = (n2.x - n.center_x) * (n2.x - n.center_x) + (n2.y - n.center_y) * (n2.y
            - n.center_y);
        assert(sq == 900_000_000);
        assert(is_sqrt_floor(900_000_000, 30_000)) by (nonlinear_arith);
        lemma_sqrt_floor_unique(900_000_000, 30_000);
    }
}

/// The color rule: at or beyond the flash distance the color is exactly
/// solid white; inside it the alpha is exactly full and every channel lies
/// in [0, 1] (the channel values themselves are generator-dependent).
pub proof fn lemma_color_rule(n: Node, tx: int, ty: int, dir: Dir, s: int)
    requires
        n.wf(),
        dir.wf(),
    ensures
        n.spec_target_dist(tx, ty, dir) >= 100_000
            ==> spec_update_node(n, tx, ty, dir, s).0.color == spec_white(),
        n.spec_target_dist(tx, ty, dir) < 100_000 ==> ({
            let c = spec_update_node(n, tx, ty, dir, s).0.color;
            c.a == 1000 && c.wf()
        }),
{
}

} // verus!
