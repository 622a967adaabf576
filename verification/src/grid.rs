//! Topology of the square lattice that carries the water surface.
//!
//! A grid of size `g` has `g * g` vertices in row-major order (`x` runs
//! fastest, then `z`) and `(g - 1) * (g - 1)` square cells, each split into two
//! triangles along the same diagonal. Positions are not stored here: a vertex
//! is known by its index and by its lattice coordinates.

use vstd::prelude::*;
use vstd::arithmetic::div_mod::lemma_fundamental_div_mod_converse;
use vstd::arithmetic::div_mod::lemma_fundamental_div_mod;

verus! {

/// Why a grid cannot be made.
#[derive(Clone, Copy, Debug, PartialEq, Eq, Structural)]
pub enum GridError {
    /// Fewer than two vertices per side: the spacing between vertices would be
    /// undefined.
    TooSmall,
    /// The vertex count does not fit in 32 bits, or the index list does not fit
    /// in memory.
    TooLarge,
}

/// Largest grid size whose vertex count fits in 32 bits.
pub const MAX_GRID_SIZE: usize = 65535;

/// Number of index entries per cell: two triangles of three corners.
pub const INDICES_PER_CELL: usize = 6;

/// The vertex count of a grid of size `g` fits in 32 bits, and its index list
/// can be held in a vector.
pub open spec fn spec_grid_fits(g: nat) -> bool {
    g * g <= u32::MAX && 6 * ((g - 1) * (g - 1)) <= usize::MAX
}

/// Index of the vertex at lattice coordinates `(x, z)`, in row-major order.
pub open spec fn spec_vertex_index(g: nat, x: nat, z: nat) -> nat {
    z * g + x
}

/// Number of entries of the index list of a grid of size `g`.
pub open spec fn spec_index_count(g: nat) -> nat {
    (6 * ((g - 1) * (g - 1))) as nat
}

/// Entry `k` of the index list of a grid of size `g`. Cell `k / 6` lies at
/// `(x, z)` with lower-left vertex `v = z * g + x`; its six entries are
/// `v, v + g, v + 1` and `v + 1, v + g, v + g + 1`.
pub open spec fn spec_triangle_corner(g: nat, k: nat) -> nat {
    let cell = k / 6;
    let corner = k % 6;
    let v = spec_vertex_index(g, cell % ((g - 1) as nat), cell / ((g - 1) as nat));
    if corner == 0 {
        v
    } else if corner == 1 || corner == 4 {
        v + g
    } else if corner == 2 || corner == 3 {
        v + 1
    } else {
        v + g + 1
    }
}

/// Upward component of the normal of triangle `t` of a grid of size `g`, with
/// the corners taken at their lattice coordinates on a flat surface: the
/// cross product of the edges from the first corner to the second and to the
/// third. It is positive where the triangle's front faces up.
pub open spec fn spec_triangle_normal_up(g: nat, t: nat) -> int {
    let a = spec_triangle_corner(g, 3 * t);
    let b = spec_triangle_corner(g, 3 * t + 1);
    let c = spec_triangle_corner(g, 3 * t + 2);
    (b / g - a / g) * (c % g - a % g) - (b % g - a % g) * (c / g - a / g)
}

/// The index list of a grid of size `g`: cells in row-major order, six entries
/// per cell.
pub open spec fn spec_triangle_indices(g: nat) -> Seq<u32> {
    Seq::new(spec_index_count(g), |k: int| spec_triangle_corner(g, k as nat) as u32)
}

/// A square lattice of at least two by two vertices.
pub struct SurfaceGrid {
    grid_size: usize,
}

impl SurfaceGrid {
    #[verifier::type_invariant]
    spec fn inv(self) -> bool {
        2 <= self.grid_size && spec_grid_fits(self.grid_size as nat)
    }

    /// Number of vertices per side.
    pub closed spec fn size(self) -> nat {
        self.grid_size as nat
    }

    /// Makes a grid with `grid_size` vertices per side. A size below two is
    /// refused as too small, one that does not fit as too large.
    pub fn new(grid_size: usize) -> (made: Result<SurfaceGrid, GridError>)
        ensures
            grid_size < 2 ==> made == Err::<SurfaceGrid, GridError>(GridError::TooSmall),
            grid_size >= 2 && !spec_grid_fits(grid_size as nat) ==> made == Err::<
                SurfaceGrid,
                GridError,
            >(GridError::TooLarge),
            grid_size >= 2 && spec_grid_fits(grid_size as nat) ==> made.is_ok()
                && made.unwrap().size() == grid_size,
    {
        if grid_size < 2 {
            return Err(GridError::TooSmall);
        }
        if grid_size > MAX_GRID_SIZE {
            assert(grid_size * grid_size > u32::MAX) by (nonlinear_arith)
                requires
                    grid_size >= 65536,
            ;
            return Err(GridError::TooLarge);
        }
        assert(grid_size * grid_size <= u32::MAX) by (nonlinear_arith)
            requires
                grid_size <= 65535,
        ;
        assert((grid_size - 1) * (grid_size - 1) <= u32::MAX) by (nonlinear_arith)
            requires
                2 <= grid_size <= 65535,
        ;
        let per_side: usize = grid_size - 1;
        let cells: usize = per_side * per_side;
        if cells > usize::MAX / INDICES_PER_CELL {
            return Err(GridError::TooLarge);
        }
        Ok(SurfaceGrid { grid_size })
    }

    /// Number of vertices per side.
    pub fn grid_size(&self) -> (g: usize)
        ensures
            g == self.size(),
            g >= 2,
            spec_grid_fits(g as nat),
    {
        proof {
            use_type_invariant(self);
        }
        self.grid_size
    }

    /// Number of vertices: the square of the size.
    pub fn vertex_count(&self) -> (count: usize)
        ensures
            count == self.size() * self.size(),
    {
        proof {
            use_type_invariant(self);
        }
        self.grid_size * self.grid_size
    }

    /// Number of entries of the index list.
    pub fn index_count(&self) -> (count: usize)
        ensures
            count == spec_index_count(self.size()),
    {
        proof {
            use_type_invariant(self);
            lemma_square_monotone((self.grid_size - 1) as nat, self.grid_size as nat);
        }
        let per_side: usize = self.grid_size - 1;
        INDICES_PER_CELL * (per_side * per_side)
    }

    /// Index of the vertex at lattice coordinates `(x, z)`, or `None` where the
    /// coordinates lie outside the grid.
    pub fn vertex_index(&self, x: usize, z: usize) -> (index: Option<usize>)
        ensures
            index == if x < self.size() && z < self.size() {
                Some(spec_vertex_index(self.size(), x as nat, z as nat) as usize)
            } else {
                None
            },
            index.is_some() ==> index.unwrap() < self.size() * self.size(),
    {
        proof {
            use_type_invariant(self);
        }
        let g: usize = self.grid_size;
        if x < g && z < g {
            proof {
                lemma_vertex_index_in_range(g as nat, x as nat, z as nat);
            }
            Some(z * g + x)
        } else {
            None
        }
    }

    /// Lattice coordinates `(x, z)` of the vertex with this index, or `None`
    /// where the grid has no such vertex.
    pub fn lattice_coords(&self, index: usize) -> (coords: Option<(usize, usize)>)
        ensures
            coords == if index < self.size() * self.size() {
                Some(((index as nat % self.size()) as usize, (index as nat / self.size()) as usize))
            } else {
                None
            },
    {
        proof {
            use_type_invariant(self);
        }
        let g: usize = self.grid_size;
        if index < g * g {
            Some((index % g, index / g))
        } else {
            None
        }
    }

    /// The index list of the surface: for each cell, in row-major order, its two
    /// triangles.
    pub fn triangle_indices(&self) -> (indices: Vec<u32>)
        ensures
            indices@ == spec_triangle_indices(self.size()),
    {
        proof {
            use_type_invariant(self);
        }
        let g: usize = self.grid_size;
        let per_side: usize = g - 1;
        let mut indices: Vec<u32> = Vec::new();
        let mut z: usize = 0;
        while z < per_side
            invariant
                2 <= g,
                spec_grid_fits(g as nat),
                per_side == g - 1,
                z <= per_side,
                indices@.len() == 6 * (z * per_side),
                forall|k: int|
                    0 <= k < indices@.len() ==> indices@[k] == spec_triangle_corner(
                        g as nat,
                        k as nat,
                    ),
            decreases per_side - z,
        {
            let mut x: usize = 0;
            while x < per_side
                invariant
                    2 <= g,
                    spec_grid_fits(g as nat),
                    per_side == g - 1,
                    z < per_side,
                    x <= per_side,
                    indices@.len() == 6 * (z * per_side + x),
                    forall|k: int|
                        0 <= k < indices@.len() ==> indices@[k] == spec_triangle_corner(
                            g as nat,
                            k as nat,
                        ),
                decreases per_side - x,
            {
                let ghost cell: int = z * per_side + x;
                proof {
                    lemma_vertex_index_in_range(g as nat, (x + 1) as nat, (z + 1) as nat);
                    assert((z + 1) * g == z * g + g) by (nonlinear_arith);
                    lemma_fundamental_div_mod_converse(cell, per_side as int, z as int, x as int);
                }
                let v: usize = z * g + x;
                let lower_left: u32 = v as u32;
                let lower_right: u32 = (v + 1) as u32;
                let upper_left: u32 = (v + g) as u32;
                let upper_right: u32 = (v + g + 1) as u32;
                let ghost before: Seq<u32> = indices@;
                indices.push(lower_left);
                indices.push(upper_left);
                indices.push(lower_right);
                indices.push(lower_right);
                indices.push(upper_left);
                indices.push(upper_right);
                proof {
                    assert(indices@.len() == 6 * cell + 6);
                    assert forall|k: int| 0 <= k < indices@.len() implies indices@[k]
                        == spec_triangle_corner(g as nat, k as nat) by {
                        if k < 6 * cell {
                            assert(indices@[k] == before[k]);
                        } else {
                            assert(k / 6 == cell);
                            assert(k % 6 == k - 6 * cell);
                        }
                    }
                }
                x += 1;
            }
            proof {
                assert(z * per_side + per_side == (z + 1) * per_side) by (nonlinear_arith);
            }
            z += 1;
        }
        assert(indices@ =~= spec_triangle_indices(g as nat));
        indices
    }
}

/// Squaring keeps the order of natural numbers.
pub proof fn lemma_square_monotone(a: nat, b: nat)
    requires
        a <= b,
    ensures
        a * a <= b * b,
{
    assert(a * a <= b * b) by (nonlinear_arith)
        requires
            0 <= a <= b,
    ;
}

/// A vertex inside the grid has an index below the number of vertices.
pub proof fn lemma_vertex_index_in_range(g: nat, x: nat, z: nat)
    requires
        x < g,
        z < g,
    ensures
        spec_vertex_index(g, x, z) < g * g,
{
    assert(z * g + x < g * g) by (nonlinear_arith)
        requires
            0 <= x < g,
            0 <= z < g,
    ;
}

/// Row-major order: the index of a vertex gives back its coordinates, and the
/// coordinates of an index give back the index.
pub proof fn lemma_row_major(g: nat, x: nat, z: nat)
    requires
        x < g,
        z < g,
    ensures
        spec_vertex_index(g, x, z) % g == x,
        spec_vertex_index(g, x, z) / g == z,
{
    lemma_fundamental_div_mod_converse((z * g + x) as int, g as int, z as int, x as int);
}

/// Every index below the number of vertices is the index of the vertex at its
/// own coordinates, which lie inside the grid.
pub proof fn lemma_row_major_inverse(g: nat, index: nat)
    requires
        0 < g,
        index < g * g,
    ensures
        index % g < g,
        index / g < g,
        spec_vertex_index(g, index % g, index / g) == index,
{
    lemma_fundamental_div_mod(index as int, g as int);
    let q = index / g;
    assert(g * q == q * g) by (nonlinear_arith);
    if q >= g {
        assert(q * g >= g * g) by (nonlinear_arith)
            requires
                q >= g,
                g > 0,
        ;
    }
}

/// Every entry of the index list names a vertex of the grid.
pub proof fn lemma_corner_in_range(g: nat, k: nat)
    requires
        2 <= g,
        k < spec_index_count(g),
    ensures
        spec_triangle_corner(g, k) < g * g,
{
    let per_side = (g - 1) as nat;
    let cell = k / 6;
    assert(cell < per_side * per_side);
    lemma_row_major_inverse(per_side, cell);
    let x = cell % per_side;
    let z = cell / per_side;
    lemma_vertex_index_in_range(g, x + 1, z + 1);
    assert((z + 1) * g == z * g + g) by (nonlinear_arith);
}

/// The three corners of every triangle are three different vertices.
pub proof fn lemma_triangle_not_degenerate(g: nat, t: nat)
    requires
        2 <= g,
    ensures
        spec_triangle_corner(g, 3 * t) != spec_triangle_corner(g, 3 * t + 1),
        spec_triangle_corner(g, 3 * t) != spec_triangle_corner(g, 3 * t + 2),
        spec_triangle_corner(g, 3 * t + 1) != spec_triangle_corner(g, 3 * t + 2),
{
    assert((3 * t) / 6 == (3 * t + 1) / 6 && (3 * t) / 6 == (3 * t + 2) / 6);
    assert((3 * t) % 6 == 0 || (3 * t) % 6 == 3);
}

/// Every triangle of the grid is wound the same way: on the flat surface its
/// front faces up, with a normal of the same length for all.
pub proof fn lemma_triangles_face_up(g: nat, t: nat)
    requires
        2 <= g,
        3 * t < spec_index_count(g),
    ensures
        spec_triangle_normal_up(g, t) == 1,
{
    let per_side = (g - 1) as nat;
    let cell = (3 * t) / 6;
    assert(cell == (3 * t + 1) / 6 && cell == (3 * t + 2) / 6);
    assert((3 * t) % 6 == 0 || (3 * t) % 6 == 3);
    assert(cell < per_side * per_side);
    lemma_row_major_inverse(per_side, cell);
    let x = cell % per_side;
    let z = cell / per_side;
    let v = spec_vertex_index(g, x, z);
    assert((z + 1) * g == z * g + g) by (nonlinear_arith);
    lemma_row_major(g, x, z);
    lemma_row_major(g, x + 1, z);
    lemma_row_major(g, x, z + 1);
    lemma_row_major(g, x + 1, z + 1);
    assert(v + 1 == spec_vertex_index(g, x + 1, z));
    assert(v + g == spec_vertex_index(g, x, z + 1));
    assert(v + g + 1 == spec_vertex_index(g, x + 1, z + 1));
    let a = spec_triangle_corner(g, 3 * t);
    let b = spec_triangle_corner(g, 3 * t + 1);
    let c = spec_triangle_corner(g, 3 * t + 2);
    if (3 * t) % 6 == 0 {
        assert(a == v && b == v + g && c == v + 1);
        assert(b / g - a / g == 1 && c % g - a % g == 1);
        assert(b % g - a % g == 0);
    } else {
        assert((3 * t + 1) % 6 == 4 && (3 * t + 2) % 6 == 5);
        assert(a == v + 1 && b == v + g && c == v + g + 1);
        assert(b / g - a / g == 1 && c % g - a % g == 0);
        assert(b % g - a % g == -1 && c / g - a / g == 1);
    }
}

/// Every vertex of the grid is a corner of some triangle: the index list
/// leaves no vertex out.
pub proof fn lemma_every_vertex_used(g: nat, v: nat)
    requires
        2 <= g,
        v < g * g,
    ensures
        exists|k: nat| k < spec_index_count(g) && spec_triangle_corner(g, k) == v,
{
    lemma_row_major_inverse(g, v);
    let per_side = (g - 1) as nat;
    let x = v % g;
    let z = v / g;
    let cell_x = if x < per_side {
        x
    } else {
        (x - 1) as nat
    };
    let cell_z = if z < per_side {
        z
    } else {
        (z - 1) as nat
    };
    let cell = cell_z * per_side + cell_x;
    let corner: nat = if x == cell_x && z == cell_z {
        0
    } else if z == cell_z {
        2
    } else if x == cell_x {
        1
    } else {
        5
    };
    let k = 6 * cell + corner;
    lemma_vertex_index_in_range(per_side, cell_x, cell_z);
    lemma_fundamental_div_mod_converse(cell as int, per_side as int, cell_z as int, cell_x as int);
    assert(k / 6 == cell && k % 6 == corner);
    assert((cell_z + 1) * g == cell_z * g + g) by (nonlinear_arith);
    assert(spec_triangle_corner(g, k) == v);
    assert(k < spec_index_count(g));
}

} // verus!
