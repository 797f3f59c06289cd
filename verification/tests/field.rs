use fox_field::components::Position;
use fox_field::field::{spawn_field, BlockSpawn};
use fox_field::item_box::{item_box_button_system, setup_item_box, ItemBox};
use fox_field::mesh::{create_cube_mesh, TexturePoint, Triple, Vertex};

#[test]
fn the_field_has_nine_rows_of_nine_blocks() {
    let blocks = spawn_field();
    assert_eq!(blocks.len(), 81);
    for x in 0..9i32 {
        for z in 0..9i32 {
            let block = blocks[(x * 9 + z) as usize];
            assert_eq!((block.x, block.z), (x, z));
            assert_eq!(
                block.position,
                Position {
                    x: (16 * x as i64 - 72) * 1_000_000,
                    y: 0,
                    z: (16 * z as i64 - 72) * 1_000_000,
                }
            );
            assert_eq!(block.selectable, (3..=5).contains(&x) && (3..=5).contains(&z));
        }
    }
}

#[test]
fn the_corners_and_the_middle_of_the_field() {
    let blocks = spawn_field();
    assert_eq!(
        blocks[0],
        BlockSpawn {
            x: 0,
            z: 0,
            position: Position { x: -72_000_000, y: 0, z: -72_000_000 },
            selectable: false,
        }
    );
    assert_eq!(
        blocks[40],
        BlockSpawn {
            x: 4,
            z: 4,
            position: Position { x: -8_000_000, y: 0, z: -8_000_000 },
            selectable: true,
        }
    );
    assert_eq!(
        blocks[80],
        BlockSpawn {
            x: 8,
            z: 8,
            position: Position { x: 56_000_000, y: 0, z: 56_000_000 },
            selectable: false,
        }
    );
    assert_eq!(blocks.iter().filter(|b| b.selectable).count(), 9);
}

#[test]
fn the_item_box_starts_hidden_with_four_items() {
    let (state, item_box) = setup_item_box();
    assert!(!state.is_visible);
    assert_eq!(item_box.items, vec!["item1", "item2", "item3", "rare_item"]);
}

#[test]
fn the_button_shows_and_hides_the_panel() {
    let (mut state, item_box) = setup_item_box();
    let update = item_box_button_system(&mut state, &item_box);
    assert!(state.is_visible);
    assert!(update.visible);
    assert_eq!(
        update.entries,
        Some(vec![
            "• item1".to_string(),
            "• item2".to_string(),
            "• item3".to_string(),
            "• rare_item".to_string(),
        ])
    );
    let update = item_box_button_system(&mut state, &item_box);
    assert!(!state.is_visible);
    assert!(!update.visible);
    assert_eq!(update.entries, None);
}

#[test]
fn an_empty_box_has_no_lines() {
    let item_box = ItemBox { items: Vec::new() };
    assert!(item_box.entries().is_empty());
}

fn cross(a: Triple, b: Triple, c: Triple) -> (i32, i32, i32) {
    let (ux, uy, uz) = (b.x - a.x, b.y - a.y, b.z - a.z);
    let (vx, vy, vz) = (c.x - a.x, c.y - a.y, c.z - a.z);
    (uy * vz - uz * vy, uz * vx - ux * vz, ux * vy - uy * vx)
}

#[test]
fn the_block_mesh_has_six_faces_of_two_triangles() {
    let mesh = create_cube_mesh();
    assert_eq!(mesh.vertices.len(), 24);
    assert_eq!(mesh.indices.len(), 36);
    assert_eq!(
        mesh.indices,
        vec![
            0, 3, 1, 1, 3, 2, 4, 5, 7, 5, 6, 7, 8, 11, 9, 9, 11, 10, 12, 13, 15, 13, 14, 15, 16,
            19, 17, 17, 19, 18, 20, 21, 23, 21, 22, 23,
        ]
    );
    assert_eq!(
        mesh.vertices[0],
        Vertex {
            position: Triple { x: -8, y: 8, z: -8 },
            normal: Triple { x: 0, y: 1, z: 0 },
            uv: TexturePoint { u: 0, v: 20 },
        }
    );
    assert_eq!(
        mesh.vertices[5],
        Vertex {
            position: Triple { x: 8, y: -8, z: -8 },
            normal: Triple { x: 0, y: -1, z: 0 },
            uv: TexturePoint { u: 0, v: 25 },
        }
    );
    assert_eq!(
        mesh.vertices[23],
        Vertex {
            position: Triple { x: 8, y: -8, z: -8 },
            normal: Triple { x: 0, y: 0, z: -1 },
            uv: TexturePoint { u: 100, v: 45 },
        }
    );
}

#[test]
fn every_triangle_of_the_block_mesh_shows_its_front_to_the_outside() {
    let mesh = create_cube_mesh();
    for v in &mesh.vertices {
        let n = v.normal;
        assert_eq!(n.x * n.x + n.y * n.y + n.z * n.z, 1);
        assert_eq!(v.position.x * n.x + v.position.y * n.y + v.position.z * n.z, 8);
    }
    for t in mesh.indices.chunks(3) {
        let (a, b, c) = (
            mesh.vertices[t[0] as usize],
            mesh.vertices[t[1] as usize],
            mesh.vertices[t[2] as usize],
        );
        assert_eq!(a.normal, b.normal);
        assert_eq!(a.normal, c.normal);
        let (x, y, z) = cross(a.position, b.position, c.position);
        assert_eq!(x * a.normal.x + y * a.normal.y + z * a.normal.z, 256);
    }
}
