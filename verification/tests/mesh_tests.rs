use astroshit::index_buffer::index_buffer_bytes;
use astroshit::mesh::{create_sphere, GridPoint};

fn gp(stack: u32, slice: u32) -> GridPoint {
    GridPoint { stack, slice }
}

#[test]
fn single_quad_sphere() {
    let (grid, indices) = create_sphere(1, 1);
    assert_eq!(grid, vec![gp(0, 0), gp(0, 1), gp(1, 0), gp(1, 1)]);
    assert_eq!(indices, vec![0, 1, 2, 1, 3, 2]);
}

#[test]
fn small_sphere_layout() {
    let (grid, indices) = create_sphere(2, 3);
    assert_eq!(grid.len(), 12);
    assert_eq!(indices.len(), 36);
    assert_eq!(grid[6], gp(1, 2));
    assert_eq!(grid[11], gp(2, 3));
    // the quad on ring 1 at slice 2 starts at vertex 1 * 4 + 2
    assert_eq!(&indices[30..36], &[6, 7, 10, 7, 11, 10]);
    assert_eq!(&indices[0..6], &[0, 1, 4, 1, 5, 4]);
}

#[test]
fn viewer_sphere_counts() {
    let (grid, indices) = create_sphere(24, 36);
    assert_eq!(grid.len(), 25 * 37);
    assert_eq!(indices.len(), 6 * 24 * 36);
    assert_eq!(*indices.iter().max().unwrap(), 924);
    for k in 0..grid.len() {
        assert_eq!(grid[k], gp((k / 37) as u32, (k % 37) as u32));
    }
}

#[test]
fn every_index_in_range_and_every_vertex_used() {
    let (grid, indices) = create_sphere(5, 7);
    let mut used = vec![false; grid.len()];
    for &i in &indices {
        assert!((i as usize) < grid.len());
        used[i as usize] = true;
    }
    assert!(used.iter().all(|u| *u));
}

#[test]
fn triangles_wind_alike() {
    let (grid, indices) = create_sphere(4, 6);
    for t in 0..indices.len() / 3 {
        let p = grid[indices[3 * t] as usize];
        let q = grid[indices[3 * t + 1] as usize];
        let r = grid[indices[3 * t + 2] as usize];
        let area = (q.slice as i64 - p.slice as i64) * (r.stack as i64 - p.stack as i64)
            - (q.stack as i64 - p.stack as i64) * (r.slice as i64 - p.slice as i64);
        assert_eq!(area, 1);
    }
}

#[test]
fn quads_share_their_diagonal() {
    let (_, indices) = create_sphere(3, 4);
    for q in 0..indices.len() / 6 {
        assert_eq!(indices[6 * q + 1], indices[6 * q + 3]);
        assert_eq!(indices[6 * q + 2], indices[6 * q + 5]);
    }
}

#[test]
fn sphere_without_quads() {
    let (grid, indices) = create_sphere(0, 5);
    assert_eq!(grid, vec![gp(0, 0), gp(0, 1), gp(0, 2), gp(0, 3), gp(0, 4), gp(0, 5)]);
    assert!(indices.is_empty());
    let (grid, indices) = create_sphere(3, 0);
    assert_eq!(grid, vec![gp(0, 0), gp(1, 0), gp(2, 0), gp(3, 0)]);
    assert!(indices.is_empty());
}

#[test]
fn index_bytes_are_native_order() {
    let indices = vec![1u32, 0x0102_0304, 924];
    let bytes = index_buffer_bytes(&indices);
    let mut expected = Vec::new();
    for i in &indices {
        expected.extend_from_slice(&i.to_ne_bytes());
    }
    assert_eq!(bytes, expected);
    assert_eq!(bytes.len(), 12);
    assert!(bytes[4..8] == [4, 3, 2, 1] || bytes[4..8] == [1, 2, 3, 4]);
}

#[test]
fn index_bytes_of_empty_list() {
    assert!(index_buffer_bytes(&Vec::new()).is_empty());
}
