//! Renderer meshes with the topology of the surface and of the board.
//!
//! The index lists are computed and proved here; the renderer's mesh type only
//! stores them. Vertex attributes are left to the caller, who hands the mesh
//! back for its normals once the positions are written.

use vstd::prelude::*;
use bevy::render::mesh::{Indices, Mesh, PrimitiveTopology, VertexAttributeValues};
use bevy::render::render_asset::RenderAssetUsages;
use crate::grid::{
    lemma_corner_in_range, spec_grid_fits, spec_index_count, spec_triangle_corner,
    spec_triangle_indices, GridError, SurfaceGrid,
};
use crate::hull::{box_indices, lemma_box_index_in_range, spec_box_indices, BOX_VERTEX_COUNT};

verus! {

/// The renderer's mesh, carried through as an opaque value.
#[verifier::external_type_specification]
#[verifier::external_body]
pub struct ExMesh(bevy::render::mesh::Mesh);

/// The index list that a mesh holds, in order, each entry widened to 32 bits;
/// empty where the mesh has no index list.
pub uninterp spec fn mesh_indices(mesh: Mesh) -> Seq<u32>;

/// Whether a mesh draws its vertices as a list of separate triangles.
pub uninterp spec fn mesh_is_triangle_list(mesh: Mesh) -> bool;

/// Number of positions that a mesh holds, where it holds positions as triples
/// of single-precision numbers; `None` where it holds none or holds them in
/// another format.
pub uninterp spec fn mesh_position_count(mesh: Mesh) -> Option<nat>;

/// The mesh that `Mesh::compute_normals` leaves behind when it is called on
/// `mesh`: the same mesh with its normals computed anew from its positions and
/// triangles.
pub uninterp spec fn mesh_after_normals(mesh: Mesh) -> Mesh;

/// Calls `Mesh::new` for a triangle list that is kept in the main world and
/// in the render world. The claim: the new mesh has the topology it was made
/// with, and no positions.
#[verifier::external_body]
fn new_triangle_list() -> (mesh: Mesh)
    ensures
        mesh_is_triangle_list(mesh),
        mesh_position_count(mesh) is None,
{
    Mesh::new(
        PrimitiveTopology::TriangleList,
        RenderAssetUsages::MAIN_WORLD | RenderAssetUsages::RENDER_WORLD,
    )
}

/// Calls `Mesh::insert_indices` with 32-bit indices. The claim: afterwards the
/// mesh holds exactly the given index list, whatever it held before, and its
/// topology and positions are what they were.
#[verifier::external_body]
fn insert_indices(mesh: &mut Mesh, indices: Vec<u32>)
    ensures
        mesh_indices(*final(mesh)) == indices@,
        mesh_is_triangle_list(*final(mesh)) == mesh_is_triangle_list(*old(mesh)),
        mesh_position_count(*final(mesh)) == mesh_position_count(*old(mesh)),
{
    mesh.insert_indices(Indices::U32(indices));
}

/// Calls `Mesh::primitive_topology` and tells whether it is the triangle list.
#[verifier::external_body]
fn is_triangle_list(mesh: &Mesh) -> (yes: bool)
    ensures
        yes == mesh_is_triangle_list(*mesh),
{
    match mesh.primitive_topology() {
        PrimitiveTopology::TriangleList => true,
        _ => false,
    }
}

/// Calls `Mesh::attribute` for the position attribute. The claim: the result
/// is the number of positions where they are held as triples of
/// single-precision numbers, and `None` otherwise.
#[verifier::external_body]
fn position_count(mesh: &Mesh) -> (count: Option<usize>)
    ensures
        count.is_some() == mesh_position_count(*mesh).is_some(),
        count.is_some() ==> count.unwrap() == mesh_position_count(*mesh).unwrap(),
{
    match mesh.attribute(Mesh::ATTRIBUTE_POSITION) {
        Some(VertexAttributeValues::Float32x3(triples)) => Some(triples.len()),
        _ => None,
    }
}

/// Calls `Mesh::indices` and copies the index list out, 16-bit entries
/// widened. The claim: the copy is the mesh's index list, entry for entry.
#[verifier::external_body]
fn index_list(mesh: &Mesh) -> (indices: Vec<u32>)
    ensures
        indices@ == mesh_indices(*mesh),
{
    match mesh.indices() {
        Some(Indices::U32(list)) => list.clone(),
        Some(Indices::U16(list)) => list.iter().map(|index| u32::from(*index)).collect(),
        None => Vec::new(),
    }
}

/// Calls `Mesh::compute_normals`, which panics unless the mesh is a triangle
/// list with positions held as triples of single-precision numbers, and which
/// reads the position at every index of the index list. The claim: on such a
/// mesh it returns, the mesh it leaves behind depends on nothing but the mesh
/// it was given, and topology, index list and positions stay in place.
#[verifier::external_body]
fn compute_normals(mesh: &mut Mesh)
    requires
        spec_fit_for_normals(*old(mesh)),
    ensures
        *final(mesh) == mesh_after_normals(*old(mesh)),
        mesh_indices(*final(mesh)) == mesh_indices(*old(mesh)),
        mesh_is_triangle_list(*final(mesh)) == mesh_is_triangle_list(*old(mesh)),
        mesh_position_count(*final(mesh)) == mesh_position_count(*old(mesh)),
{
    mesh.compute_normals();
}

/// Every entry of `indices` names one of `vertex_count` vertices.
pub open spec fn spec_indices_in_range(indices: Seq<u32>, vertex_count: nat) -> bool {
    forall|k: int| 0 <= k < indices.len() ==> (#[trigger] indices[k]) < vertex_count
}

/// Normals can be computed for a mesh: it is a triangle list, it has
/// positions, and every index names one of them.
pub open spec fn spec_fit_for_normals(mesh: Mesh) -> bool {
    &&& mesh_is_triangle_list(mesh)
    &&& mesh_position_count(mesh) is Some
    &&& spec_indices_in_range(mesh_indices(mesh), mesh_position_count(mesh).unwrap())
}

/// Whether every entry of `indices` names one of `vertex_count` vertices.
pub fn indices_in_range(indices: &Vec<u32>, vertex_count: usize) -> (all: bool)
    ensures
        all == spec_indices_in_range(indices@, vertex_count as nat),
{
    let mut k: usize = 0;
    while k < indices.len()
        invariant
            k <= indices@.len(),
            forall|j: int| 0 <= j < k ==> (#[trigger] indices@[j]) < vertex_count,
        decreases indices@.len() - k,
    {
        if indices[k] as usize >= vertex_count {
            return false;
        }
        k += 1;
    }
    true
}

/// A triangle-list mesh whose index list is that of a surface grid with
/// `grid_size` vertices per side. It has no positions yet. A size that
/// `SurfaceGrid::new` refuses is refused here with the same error.
pub fn create_water_mesh(grid_size: usize) -> (made: Result<Mesh, GridError>)
    ensures
        match made {
            Ok(mesh) => {
                &&& grid_size >= 2
                &&& spec_grid_fits(grid_size as nat)
                &&& mesh_is_triangle_list(mesh)
                &&& mesh_position_count(mesh) is None
                &&& mesh_indices(mesh) == spec_triangle_indices(grid_size as nat)
            },
            Err(error) => {
                &&& grid_size < 2 ==> error == GridError::TooSmall
                &&& grid_size >= 2 ==> error == GridError::TooLarge && !spec_grid_fits(
                    grid_size as nat,
                )
            },
        },
{
    match SurfaceGrid::new(grid_size) {
        Ok(grid) => {
            let mut mesh = new_triangle_list();
            insert_indices(&mut mesh, grid.triangle_indices());
            Ok(mesh)
        },
        Err(error) => Err(error),
    }
}

/// A triangle-list mesh whose index list is that of the board's box. It has
/// no positions yet.
pub fn create_surfboard_mesh() -> (mesh: Mesh)
    ensures
        mesh_is_triangle_list(mesh),
        mesh_position_count(mesh) is None,
        mesh_indices(mesh) == spec_box_indices(),
{
    let mut mesh = new_triangle_list();
    insert_indices(&mut mesh, box_indices());
    mesh
}

/// Recomputes the normals of a mesh from its positions and triangles, where
/// that can be done; a mesh that is not fit for it is left as it is. Topology,
/// index list and positions stay in place either way.
pub fn recompute_normals(mesh: &mut Mesh) -> (done: bool)
    ensures
        done == spec_fit_for_normals(*old(mesh)),
        done ==> *final(mesh) == mesh_after_normals(*old(mesh)),
        !done ==> *final(mesh) == *old(mesh),
        mesh_indices(*final(mesh)) == mesh_indices(*old(mesh)),
        mesh_is_triangle_list(*final(mesh)) == mesh_is_triangle_list(*old(mesh)),
        mesh_position_count(*final(mesh)) == mesh_position_count(*old(mesh)),
{
    if !is_triangle_list(mesh) {
        return false;
    }
    match position_count(mesh) {
        Some(count) => {
            let indices: Vec<u32> = index_list(mesh);
            if indices_in_range(&indices, count) {
                compute_normals(mesh);
                true
            } else {
                false
            }
        },
        None => false,
    }
}

/// The index list of a grid names only vertices of the grid.
pub proof fn lemma_grid_indices_in_range(g: nat)
    requires
        2 <= g,
        spec_grid_fits(g),
    ensures
        spec_indices_in_range(spec_triangle_indices(g), g * g),
{
    assert forall|k: int| 0 <= k < spec_triangle_indices(g).len() implies (
    #[trigger] spec_triangle_indices(g)[k]) < g * g by {
        lemma_corner_in_range(g, k as nat);
        assert(spec_triangle_indices(g)[k] == spec_triangle_corner(g, k as nat) as u32);
    }
}

/// A surface mesh is fit for normals as soon as it has one position for each
/// vertex of its grid: the recomputation at the end of a tick is never
/// refused.
pub proof fn lemma_water_mesh_fit_for_normals(mesh: Mesh, g: nat)
    requires
        2 <= g,
        spec_grid_fits(g),
        mesh_is_triangle_list(mesh),
        mesh_indices(mesh) == spec_triangle_indices(g),
        mesh_position_count(mesh) == Some(g * g),
    ensures
        spec_fit_for_normals(mesh),
{
    lemma_grid_indices_in_range(g);
}

/// The board's mesh is fit for normals as soon as it has one position for each
/// corner of the box.
pub proof fn lemma_surfboard_mesh_fit_for_normals(mesh: Mesh)
    requires
        mesh_is_triangle_list(mesh),
        mesh_indices(mesh) == spec_box_indices(),
        mesh_position_count(mesh) == Some(BOX_VERTEX_COUNT as nat),
    ensures
        spec_fit_for_normals(mesh),
{
    assert forall|k: int| 0 <= k < spec_box_indices().len() implies (#[trigger] spec_box_indices()[k])
        < 8 by {
        lemma_box_index_in_range(k as nat);
    }
}

} // verus!
