use bevy::render::mesh::{Indices, Mesh, PrimitiveTopology, VertexAttributeValues};
use bevy::render::render_asset::RenderAssetUsages;
use gerstner_water::grid::{GridError, SurfaceGrid};
use gerstner_water::hull::{corner_signs, BOX_VERTEX_COUNT};
use gerstner_water::mesh::{
    create_surfboard_mesh, create_water_mesh, indices_in_range, recompute_normals,
};

fn flat_positions(grid_size: usize) -> Vec<[f32; 3]> {
    let grid = SurfaceGrid::new(grid_size).unwrap();
    (0..grid.vertex_count())
        .map(|index| {
            let (x, z) = grid.lattice_coords(index).unwrap();
            [x as f32, 0.0, z as f32]
        })
        .collect()
}

fn normals_of(mesh: &Mesh) -> Vec<[f32; 3]> {
    match mesh.attribute(Mesh::ATTRIBUTE_NORMAL) {
        Some(VertexAttributeValues::Float32x3(normals)) => normals.clone(),
        _ => panic!("no normals"),
    }
}

fn index_list(mesh: &Mesh) -> Vec<u32> {
    match mesh.indices() {
        Some(Indices::U32(list)) => list.clone(),
        Some(Indices::U16(_)) => panic!("16-bit indices"),
        None => panic!("no indices"),
    }
}

#[test]
fn water_mesh_holds_the_grid_index_list() {
    let mesh = create_water_mesh(3).unwrap();
    assert!(matches!(mesh.primitive_topology(), PrimitiveTopology::TriangleList));
    let expected: Vec<u32> = vec![
        0, 3, 1, 1, 3, 4, //
        1, 4, 2, 2, 4, 5, //
        3, 6, 4, 4, 6, 7, //
        4, 7, 5, 5, 7, 8,
    ];
    assert_eq!(index_list(&mesh), expected);
    assert_eq!(mesh.attributes().count(), 0);
}

#[test]
fn water_mesh_of_the_default_size() {
    let mesh = create_water_mesh(200).unwrap();
    let indices = index_list(&mesh);
    assert_eq!(indices.len(), 6 * 199 * 199);
    assert_eq!(&indices[0..6], &[0, 200, 1, 1, 200, 201]);
    assert_eq!(indices[indices.len() - 1], 39_999);
}

#[test]
fn water_mesh_refuses_a_degenerate_grid() {
    assert_eq!(create_water_mesh(0).err(), Some(GridError::TooSmall));
    assert_eq!(create_water_mesh(1).err(), Some(GridError::TooSmall));
    assert_eq!(create_water_mesh(65_536).err(), Some(GridError::TooLarge));
}

#[test]
fn surfboard_mesh_holds_the_box_index_list() {
    let mesh = create_surfboard_mesh();
    assert!(matches!(mesh.primitive_topology(), PrimitiveTopology::TriangleList));
    let indices = index_list(&mesh);
    assert_eq!(indices.len(), 36);
    assert_eq!(&indices[0..6], &[0, 1, 2, 2, 3, 0]);
    assert_eq!(&indices[30..36], &[3, 7, 4, 4, 0, 3]);
}

#[test]
fn indices_in_range_checks_every_entry() {
    assert!(indices_in_range(&vec![], 0));
    assert!(indices_in_range(&vec![0, 1, 2], 3));
    assert!(!indices_in_range(&vec![0, 1, 3], 3));
    assert!(!indices_in_range(&vec![3, 1, 0], 3));
    assert!(!indices_in_range(&vec![0], 0));
    assert!(indices_in_range(&vec![u32::MAX - 1], u32::MAX as usize));
}

#[test]
fn normals_of_a_flat_surface_point_up() {
    let mut mesh = create_water_mesh(3).unwrap();
    mesh.insert_attribute(Mesh::ATTRIBUTE_POSITION, flat_positions(3));
    assert!(recompute_normals(&mut mesh));
    assert_eq!(normals_of(&mesh), vec![[0.0, 1.0, 0.0]; 9]);
    assert_eq!(index_list(&mesh).len(), 24);
}

#[test]
fn normals_are_refused_without_positions() {
    let mut mesh = create_water_mesh(3).unwrap();
    assert!(!recompute_normals(&mut mesh));
    assert!(mesh.attribute(Mesh::ATTRIBUTE_NORMAL).is_none());
    assert_eq!(index_list(&mesh).len(), 24);
}

#[test]
fn normals_are_refused_with_too_few_positions() {
    let mut mesh = create_water_mesh(3).unwrap();
    let mut positions = flat_positions(3);
    positions.pop();
    mesh.insert_attribute(Mesh::ATTRIBUTE_POSITION, positions);
    assert!(!recompute_normals(&mut mesh));
    assert!(mesh.attribute(Mesh::ATTRIBUTE_NORMAL).is_none());
}

#[test]
fn normals_are_refused_for_another_topology() {
    let mut mesh = Mesh::new(PrimitiveTopology::LineList, RenderAssetUsages::default());
    mesh.insert_attribute(Mesh::ATTRIBUTE_POSITION, flat_positions(2));
    mesh.insert_indices(Indices::U32(vec![0, 1, 2]));
    assert!(!recompute_normals(&mut mesh));
    assert!(mesh.attribute(Mesh::ATTRIBUTE_NORMAL).is_none());
}

#[test]
fn normals_with_sixteen_bit_indices() {
    let mut mesh = Mesh::new(PrimitiveTopology::TriangleList, RenderAssetUsages::default());
    mesh.insert_attribute(Mesh::ATTRIBUTE_POSITION, flat_positions(2));
    mesh.insert_indices(Indices::U16(vec![0, 2, 1, 1, 2, 4]));
    assert!(!recompute_normals(&mut mesh));
    mesh.insert_indices(Indices::U16(vec![0, 2, 1, 1, 2, 3]));
    assert!(recompute_normals(&mut mesh));
    assert_eq!(normals_of(&mesh), vec![[0.0, 1.0, 0.0]; 4]);
}

#[test]
fn normals_without_an_index_list() {
    let mut mesh = Mesh::new(PrimitiveTopology::TriangleList, RenderAssetUsages::default());
    mesh.insert_attribute(
        Mesh::ATTRIBUTE_POSITION,
        vec![[0.0, 0.0, 0.0], [0.0, 0.0, 1.0], [1.0, 0.0, 0.0]],
    );
    assert!(recompute_normals(&mut mesh));
    assert_eq!(normals_of(&mesh), vec![[0.0, 1.0, 0.0]; 3]);
}

#[test]
fn normals_of_the_surfboard_box() {
    let mut mesh = create_surfboard_mesh();
    let positions: Vec<[f32; 3]> = (0..BOX_VERTEX_COUNT)
        .map(|corner| {
            let signs = corner_signs(corner).unwrap();
            [signs.length as f32 * 1.5, signs.thickness as f32 * 0.05, signs.width as f32 * 0.3]
        })
        .collect();
    mesh.insert_attribute(Mesh::ATTRIBUTE_POSITION, positions);
    assert!(recompute_normals(&mut mesh));
    assert_eq!(normals_of(&mesh).len(), 8);
    assert_eq!(index_list(&mesh).len(), 36);
}

#[test]
fn normals_depend_only_on_the_mesh() {
    let build = || {
        let mut mesh = create_water_mesh(3).unwrap();
        let mut positions = flat_positions(3);
        positions[4][1] = 0.75;
        positions[7][1] = -0.25;
        mesh.insert_attribute(Mesh::ATTRIBUTE_POSITION, positions);
        mesh
    };
    let mut first = build();
    let mut second = build();
    assert!(recompute_normals(&mut first));
    assert!(recompute_normals(&mut second));
    assert_eq!(normals_of(&first), normals_of(&second));
    assert_ne!(normals_of(&first), vec![[0.0, 1.0, 0.0]; 9]);
}
