use penteract::geometry::{generate_edges, generate_vertices, EDGE_COUNT, VERTEX_COUNT};

#[test]
fn test_vertex_count() {
    let vertices = generate_vertices();
    assert_eq!(vertices.len(), VERTEX_COUNT);
}

#[test]
fn test_vertex_values_are_plus_minus_one() {
    let vertices = generate_vertices();
    for v in &vertices {
        for i in 0..5 {
            let c = f32::from(v[i]);
            assert!(c == -1.0 || c == 1.0, "Vertex coordinate must be ±1.0, got {}", c);
        }
    }
}

#[test]
fn test_vertices_are_unique() {
    let vertices = generate_vertices();
    for i in 0..VERTEX_COUNT {
        for j in (i + 1)..VERTEX_COUNT {
            assert_ne!(vertices[i], vertices[j], "Duplicate vertices at {} and {}", i, j);
        }
    }
}

#[test]
fn test_edge_count() {
    let edges = generate_edges();
    assert_eq!(edges.len(), EDGE_COUNT);
}

#[test]
fn test_edges_differ_by_one_coordinate() {
    let vertices = generate_vertices();
    let edges = generate_edges();

    for &(a, b) in &edges {
        let mut diff_count = 0;
        for i in 0..5 {
            if (f32::from(vertices[a][i]) - f32::from(vertices[b][i])).abs() > f32::EPSILON {
                diff_count += 1;
            }
        }
        assert_eq!(
            diff_count, 1,
            "Edge ({}, {}) should differ in exactly 1 coordinate, found {}",
            a, b, diff_count
        );
    }
}

#[test]
fn test_edge_indices_in_range() {
    let edges = generate_edges();
    for &(a, b) in &edges {
        assert!(a < VERTEX_COUNT);
        assert!(b < VERTEX_COUNT);
        assert!(a < b, "Edges should be ordered a < b");
    }
}

#[test]
fn vertex_numbering_follows_bits() {
    let vertices = generate_vertices();
    assert_eq!(vertices[0], [-1, -1, -1, -1, -1]);
    assert_eq!(vertices[31], [1, 1, 1, 1, 1]);
    // 5 = 0b00101: bits 0 and 2 set.
    assert_eq!(vertices[5], [1, -1, 1, -1, -1]);
    assert_eq!(vertices[18], [-1, 1, -1, -1, 1]);
}

#[test]
fn edges_are_sorted_and_distinct() {
    let edges = generate_edges();
    for k in 1..EDGE_COUNT {
        assert!(edges[k - 1] < edges[k]);
    }
    assert_eq!(edges[0], (0, 1));
    assert_eq!(edges[1], (0, 2));
    assert_eq!(edges[4], (0, 16));
    assert_eq!(edges[5], (1, 3));
    assert_eq!(edges[EDGE_COUNT - 1], (30, 31));
    assert_eq!(edges[EDGE_COUNT - 2], (29, 31));
}

#[test]
fn every_single_coordinate_flip_is_an_edge() {
    let edges = generate_edges();
    for a in 0..VERTEX_COUNT {
        for j in 0..5 {
            let b = a ^ (1 << j);
            let pair = if a < b { (a, b) } else { (b, a) };
            assert!(edges.contains(&pair), "missing edge {:?}", pair);
        }
    }
}

#[test]
fn every_vertex_has_five_neighbours() {
    let edges = generate_edges();
    for v in 0..VERTEX_COUNT {
        let degree = edges.iter().filter(|&&(a, b)| a == v || b == v).count();
        assert_eq!(degree, 5);
    }
}
