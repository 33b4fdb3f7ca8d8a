use vstd::prelude::*;

verus! {

/// The number of vertices of a 5-cube: 2^5.
pub const VERTEX_COUNT: usize = 32;

/// The number of edges of a 5-cube: 5 * 2^4.
pub const EDGE_COUNT: usize = 80;

/// 2^j.
pub open spec fn two_pow(j: int) -> int
    decreases j,
{
    if j <= 0 {
        1
    } else {
        2 * two_pow(j - 1)
    }
}

/// Bit `j` of the vertex index `i` (0 or 1).
pub open spec fn bit(i: int, j: int) -> int {
    (i / two_pow(j)) % 2
}

/// Coordinate `j` of vertex `i`: +1 where bit `j` of `i` is set, -1 where it is clear.
pub open spec fn vertex_coordinate(i: int, j: int) -> int {
    if bit(i, j) == 1 {
        1
    } else {
        -1
    }
}

/// Number of coordinates below `n` in which the vertices `a` and `b` differ.
pub open spec fn differing_coordinates_below(a: int, b: int, n: int) -> int
    decreases n,
{
    if n <= 0 {
        0
    } else {
        differing_coordinates_below(a, b, n - 1) + if vertex_coordinate(a, n - 1) != vertex_coordinate(
            b,
            n - 1,
        ) {
            1int
        } else {
            0int
        }
    }
}

/// Number of the five coordinates in which the vertices `a` and `b` differ.
pub open spec fn differing_coordinates(a: int, b: int) -> int {
    differing_coordinates_below(a, b, 5)
}

/// Two vertices of the 5-cube are joined by an edge when they differ in exactly one coordinate.
pub open spec fn adjacent(a: int, b: int) -> bool {
    &&& 0 <= a < VERTEX_COUNT
    &&& 0 <= b < VERTEX_COUNT
    &&& differing_coordinates(a, b) == 1
}

/// An edge, written with its smaller endpoint first.
pub open spec fn is_edge(a: int, b: int) -> bool {
    a < b && adjacent(a, b)
}

/// Lexicographic order on index pairs.
pub open spec fn pair_lt(p: (usize, usize), q: (usize, usize)) -> bool {
    p.0 < q.0 || (p.0 == q.0 && p.1 < q.1)
}

proof fn lemma_two_pow_small()
    ensures
        two_pow(0) == 1,
        two_pow(1) == 2,
        two_pow(2) == 4,
        two_pow(3) == 8,
        two_pow(4) == 16,
{
    reveal_with_fuel(two_pow, 5);
}

/// `b` is `a` with one clear bit set.
spec fn sets_one_bit(a: int, b: int) -> bool {
    ||| (a % 2 == 0 && b == a + 1)
    ||| ((a / 2) % 2 == 0 && b == a + 2)
    ||| ((a / 4) % 2 == 0 && b == a + 4)
    ||| ((a / 8) % 2 == 0 && b == a + 8)
    ||| ((a / 16) % 2 == 0 && b == a + 16)
}

proof fn lemma_edge_iff_sets_one_bit(a: int, b: int)
    requires
        0 <= a < b < 32,
    ensures
        is_edge(a, b) <==> sets_one_bit(a, b),
{
    lemma_two_pow_small();
    reveal_with_fuel(differing_coordinates_below, 6);
}

proof fn lemma_shift_bit(i: usize, j: usize)
    requires
        i < VERTEX_COUNT,
        j < 5,
    ensures
        ((i >> j) & 1 == 1) == (bit(i as int, j as int) == 1),
{
    lemma_two_pow_small();
    if j == 0 {
        assert(((i >> j) & 1 == 1) == (i % 2 == 1)) by (bit_vector)
            requires
                j == 0,
        ;
    } else if j == 1 {
        assert(((i >> j) & 1 == 1) == ((i / 2) % 2 == 1)) by (bit_vector)
            requires
                j == 1,
        ;
    } else if j == 2 {
        assert(((i >> j) & 1 == 1) == ((i / 4) % 2 == 1)) by (bit_vector)
            requires
                j == 2,
        ;
    } else if j == 3 {
        assert(((i >> j) & 1 == 1) == ((i / 8) % 2 == 1)) by (bit_vector)
            requires
                j == 3,
        ;
    } else {
        assert(((i >> j) & 1 == 1) == ((i / 16) % 2 == 1)) by (bit_vector)
            requires
                j == 4,
        ;
    }
}

/// The 32 vertices of the 5-cube. Vertex `i` has coordinate `j` equal to +1 when bit `j`
/// of `i` is set and -1 when it is clear, so vertex 0 is (-1, ..., -1) and vertex 31 is
/// (+1, ..., +1).
pub fn generate_vertices() -> (vertices: [[i8; 5]; VERTEX_COUNT])
    ensures
        forall|i: int, j: int|
            0 <= i < VERTEX_COUNT && 0 <= j < 5 ==> #[trigger] vertices[i][j] == vertex_coordinate(i, j),
{
    let mut vertices = [[0i8; 5]; 32];
    let mut i: usize = 0;
    while i < VERTEX_COUNT
        invariant
            i <= VERTEX_COUNT,
            forall|k: int, j: int|
                0 <= k < i && 0 <= j < 5 ==> #[trigger] vertices[k][j] == vertex_coordinate(k, j),
        decreases VERTEX_COUNT - i,
    {
        let mut row = [0i8; 5];
        let mut j: usize = 0;
        while j < 5
            invariant
                i < VERTEX_COUNT,
                j <= 5,
                forall|m: int| 0 <= m < j ==> #[trigger] row[m] == vertex_coordinate(i as int, m),
            decreases 5 - j,
        {
            proof {
                lemma_shift_bit(i, j);
            }
            row[j] = if (i >> j) & 1 == 1 { 1 } else { -1 };
            j += 1;
        }
        vertices[i] = row;
        i += 1;
    }
    vertices
}

/// The vertex reached from `v` by flipping coordinate `j`.
pub open spec fn flip(v: int, j: int) -> int {
    if bit(v, j) == 1 {
        v - two_pow(j)
    } else {
        v + two_pow(j)
    }
}

proof fn lemma_differing_symmetric(a: int, b: int)
    ensures
        differing_coordinates(a, b) == differing_coordinates(b, a),
{
    reveal_with_fuel(differing_coordinates_below, 6);
}

/// No two vertices coincide: distinct vertex indices differ in some coordinate.
pub proof fn lemma_vertices_distinct(a: int, b: int)
    requires
        0 <= a < VERTEX_COUNT,
        0 <= b < VERTEX_COUNT,
        a != b,
    ensures
        exists|j: int| 0 <= j < 5 && #[trigger] vertex_coordinate(a, j) != vertex_coordinate(b, j),
{
    lemma_two_pow_small();
    assert(vertex_coordinate(a, 0) != vertex_coordinate(b, 0) || vertex_coordinate(a, 1)
        != vertex_coordinate(b, 1) || vertex_coordinate(a, 2) != vertex_coordinate(b, 2)
        || vertex_coordinate(a, 3) != vertex_coordinate(b, 3) || vertex_coordinate(a, 4)
        != vertex_coordinate(b, 4));
}

/// Every vertex has exactly five neighbours: the vertices adjacent to `v` are the five
/// vertices obtained by flipping one of its coordinates, and these five are pairwise distinct.
pub proof fn lemma_neighbours(v: int)
    requires
        0 <= v < VERTEX_COUNT,
    ensures
        forall|w: int|
            adjacent(v, w) <==> exists|j: int| 0 <= j < 5 && w == #[trigger] flip(v, j),
        forall|i: int, j: int| 0 <= i < j < 5 ==> #[trigger] flip(v, i) != #[trigger] flip(v, j),
{
    lemma_two_pow_small();
    assert forall|w: int| adjacent(v, w) implies exists|j: int|
        0 <= j < 5 && w == #[trigger] flip(v, j) by {
        lemma_differing_symmetric(v, w);
        assert(w != v) by {
            reveal_with_fuel(differing_coordinates_below, 6);
        }
        if w < v {
            lemma_edge_iff_sets_one_bit(w, v);
        } else {
            lemma_edge_iff_sets_one_bit(v, w);
        }
        let (lo, hi) = if w < v { (w, v) } else { (v, w) };
        if lo % 2 == 0 && hi == lo + 1 {
            assert(w == flip(v, 0));
        } else if (lo / 2) % 2 == 0 && hi == lo + 2 {
            assert(w == flip(v, 1));
        } else if (lo / 4) % 2 == 0 && hi == lo + 4 {
            assert(w == flip(v, 2));
        } else if (lo / 8) % 2 == 0 && hi == lo + 8 {
            assert(w == flip(v, 3));
        } else {
            assert(w == flip(v, 4));
        }
    }
    assert forall|w: int, j: int| 0 <= j < 5 && w == flip(v, j) implies adjacent(v, w) by {
        lemma_differing_symmetric(v, w);
        if bit(v, j) == 1 {
            lemma_edge_iff_sets_one_bit(w, v);
        } else {
            lemma_edge_iff_sets_one_bit(v, w);
        }
    }
}

/// Number of clear bits `j` of `a` for which `a + 2^j < b`: the edges `(a, c)`, `c < b`,
/// that start at `a`.
spec fn row_edges_below(a: int, b: int) -> int {
    (if a % 2 == 0 && a + 1 < b { 1int } else { 0int })
    + (if (a / 2) % 2 == 0 && a + 2 < b { 1int } else { 0int })
    + (if (a / 4) % 2 == 0 && a + 4 < b { 1int } else { 0int })
    + (if (a / 8) % 2 == 0 && a + 8 < b { 1int } else { 0int })
    + (if (a / 16) % 2 == 0 && a + 16 < b { 1int } else { 0int })
}

/// Number of edges whose smaller endpoint is below `a`.
spec fn edges_before_row(a: int) -> int
    decreases a,
{
    if a <= 0 {
        0
    } else {
        edges_before_row(a - 1) + row_edges_below(a - 1, VERTEX_COUNT as int)
    }
}

proof fn lemma_edges_before_row_monotone(x: int, y: int)
    requires
        0 <= x <= y,
    ensures
        edges_before_row(x) <= edges_before_row(y),
    decreases y - x,
{
    if x < y {
        lemma_edges_before_row_monotone(x, y - 1);
    }
}

proof fn lemma_edge_total()
    ensures
        edges_before_row(VERTEX_COUNT as int) == EDGE_COUNT,
{
    reveal_with_fuel(edges_before_row, 33);
}

proof fn lemma_xor_single_bit(a: usize, b: usize)
    by (bit_vector)
    requires
        a < b,
        b < 32,
    ensures
        ((a ^ b) != 0 && (a ^ b) & (((a ^ b) - 1) as usize) == 0) <==> (
            (a % 2 == 0 && b == a + 1)
            || ((a / 2) % 2 == 0 && b == a + 2)
            || ((a / 4) % 2 == 0 && b == a + 4)
            || ((a / 8) % 2 == 0 && b == a + 8)
            || ((a / 16) % 2 == 0 && b == a + 16)),
{
}

/// All edges of the 5-cube as index pairs `(a, b)` with `a < b`, in lexicographic order:
/// exactly the pairs of vertices that differ in one coordinate, each once.
pub fn generate_edges() -> (edges: [(usize, usize); EDGE_COUNT])
    ensures
        forall|k: int|
            0 <= k < EDGE_COUNT ==> #[trigger] is_edge(edges[k].0 as int, edges[k].1 as int),
        forall|k: int, l: int| 0 <= k < l < EDGE_COUNT ==> pair_lt(edges[k], edges[l]),
        forall|a: int, b: int|
            #![trigger is_edge(a, b)]
            is_edge(a, b) ==> exists|k: int|
                0 <= k < EDGE_COUNT && #[trigger] edges[k] == (a as usize, b as usize),
{
    let mut edges = [(0usize, 0usize); 80];
    let mut count: usize = 0;
    let mut a: usize = 0;
    while a < VERTEX_COUNT
        invariant
            a <= VERTEX_COUNT,
            count <= EDGE_COUNT,
            count == edges_before_row(a as int),
            forall|k: int| 0 <= k < count ==> #[trigger] is_edge(edges[k].0 as int, edges[k].1 as int),
            forall|k: int| 0 <= k < count ==> (#[trigger] edges[k]).0 < a,
            forall|k: int, l: int| 0 <= k < l < count ==> pair_lt(edges[k], edges[l]),
            forall|x: int, y: int|
                #![trigger is_edge(x, y)]
                is_edge(x, y) && x < a ==> exists|k: int|
                    0 <= k < count && #[trigger] edges[k] == (x as usize, y as usize),
        decreases VERTEX_COUNT - a,
    {
        let mut b: usize = a + 1;
        proof {
            lemma_edges_before_row_monotone(a as int + 1, VERTEX_COUNT as int);
            lemma_edge_total();
        }
        while b < VERTEX_COUNT
            invariant
                a < VERTEX_COUNT,
                a < b <= VERTEX_COUNT,
                count <= EDGE_COUNT,
                edges_before_row(a as int + 1) <= EDGE_COUNT,
                count == edges_before_row(a as int) + row_edges_below(a as int, b as int),
                forall|k: int| 0 <= k < count ==> #[trigger] is_edge(edges[k].0 as int, edges[k].1 as int),
                forall|k: int| 0 <= k < count ==> pair_lt(#[trigger] edges[k], (a, b)),
                forall|k: int, l: int| 0 <= k < l < count ==> pair_lt(edges[k], edges[l]),
                forall|x: int, y: int|
                    #![trigger is_edge(x, y)]
                    is_edge(x, y) && (x < a || (x == a && y < b)) ==> exists|k: int|
                        0 <= k < count && #[trigger] edges[k] == (x as usize, y as usize),
            decreases VERTEX_COUNT - b,
        {
            let xor = a ^ b;
            proof {
                lemma_xor_single_bit(a, b);
                lemma_edge_iff_sets_one_bit(a as int, b as int);
            }
            let ghost prev = edges;
            let ghost prev_count = count;
            if xor != 0 && (xor & (xor - 1)) == 0 {
                edges[count] = (a, b);
                count += 1;
            }
            proof {
                assert forall|x: int, y: int|
                    #![trigger is_edge(x, y)]
                    is_edge(x, y) && (x < a || (x == a && y < b + 1)) implies exists|k: int|
                        0 <= k < count && #[trigger] edges[k] == (x as usize, y as usize) by {
                    if x == a && y == b {
                        assert(edges[prev_count as int] == (x as usize, y as usize));
                    } else {
                        let k = choose|k: int|
                            0 <= k < prev_count && #[trigger] prev[k] == (x as usize, y as usize);
                        assert(edges[k] == prev[k]);
                    }
                }
            }
            b += 1;
        }
        a += 1;
    }
    proof {
        lemma_edge_total();
    }
    edges
}

} // verus!
