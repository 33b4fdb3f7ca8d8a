use vstd::prelude::*;

verus! {

/// The number of rotation planes in 5-space: C(5, 2) = 10.
pub const PLANE_COUNT: usize = 10;

/// The ten coordinate planes of 5-space. Axes: X = 0, Y = 1, Z = 2, W = 3, V = 4.
#[derive(Debug, Clone, Copy, PartialEq, Eq, Structural)]
pub enum RotationPlane {
    XY,
    XZ,
    XW,
    XV,
    YZ,
    YW,
    YV,
    ZW,
    ZV,
    WV,
}

/// Number of pairs `(i, j)`, `i < j < 5`, whose first axis is below `i`:
/// the row of first axis `k` holds `4 - k` pairs.
pub open spec fn pairs_before_row(i: int) -> int
    decreases i,
{
    if i <= 0 {
        0
    } else {
        pairs_before_row(i - 1) + (4 - (i - 1))
    }
}

/// Position of the pair `(i, j)`, `i < j < 5`, in the lexicographic list of all such pairs.
pub open spec fn pair_rank(i: int, j: int) -> int {
    pairs_before_row(i) + (j - i - 1)
}

impl RotationPlane {
    /// Position of the plane in the canonical order XY, XZ, ..., WV.
    pub open spec fn spec_index(self) -> int {
        match self {
            RotationPlane::XY => 0,
            RotationPlane::XZ => 1,
            RotationPlane::XW => 2,
            RotationPlane::XV => 3,
            RotationPlane::YZ => 4,
            RotationPlane::YW => 5,
            RotationPlane::YV => 6,
            RotationPlane::ZW => 7,
            RotationPlane::ZV => 8,
            RotationPlane::WV => 9,
        }
    }

    /// The two axes `(i, j)`, `i < j`, that span the plane, as its name spells them.
    pub open spec fn axes(self) -> (int, int) {
        match self {
            RotationPlane::XY => (0, 1),
            RotationPlane::XZ => (0, 2),
            RotationPlane::XW => (0, 3),
            RotationPlane::XV => (0, 4),
            RotationPlane::YZ => (1, 2),
            RotationPlane::YW => (1, 3),
            RotationPlane::YV => (1, 4),
            RotationPlane::ZW => (2, 3),
            RotationPlane::ZV => (2, 4),
            RotationPlane::WV => (3, 4),
        }
    }

    /// All ten planes in canonical order.
    pub const ALL: [RotationPlane; PLANE_COUNT] = [
        RotationPlane::XY,
        RotationPlane::XZ,
        RotationPlane::XW,
        RotationPlane::XV,
        RotationPlane::YZ,
        RotationPlane::YW,
        RotationPlane::YV,
        RotationPlane::ZW,
        RotationPlane::ZV,
        RotationPlane::WV,
    ];

    /// Position of the plane in the canonical order.
    pub fn index(self) -> (r: usize)
        ensures
            r == self.spec_index(),
            r < PLANE_COUNT,
    {
        match self {
            RotationPlane::XY => 0,
            RotationPlane::XZ => 1,
            RotationPlane::XW => 2,
            RotationPlane::XV => 3,
            RotationPlane::YZ => 4,
            RotationPlane::YW => 5,
            RotationPlane::YV => 6,
            RotationPlane::ZW => 7,
            RotationPlane::ZV => 8,
            RotationPlane::WV => 9,
        }
    }

    /// The two axis indices `(i, j)` that span the plane: the pair with `i < j < 5`
    /// whose rank in the lexicographic list of such pairs is the plane's index.
    pub fn axis_indices(self) -> (r: (usize, usize))
        ensures
            r.0 < r.1 < 5,
            (r.0 as int, r.1 as int) == self.axes(),
            pair_rank(r.0 as int, r.1 as int) == self.spec_index(),
    {
        proof {
            reveal_with_fuel(pairs_before_row, 5);
        }
        match self {
            RotationPlane::XY => (0, 1),
            RotationPlane::XZ => (0, 2),
            RotationPlane::XW => (0, 3),
            RotationPlane::XV => (0, 4),
            RotationPlane::YZ => (1, 2),
            RotationPlane::YW => (1, 3),
            RotationPlane::YV => (1, 4),
            RotationPlane::ZW => (2, 3),
            RotationPlane::ZV => (2, 4),
            RotationPlane::WV => (3, 4),
        }
    }
}


/// Name of an axis: X, Y, Z, W, V for 0 to 4.
pub open spec fn axis_letter(a: int) -> char {
    if a == 0 {
        'X'
    } else if a == 1 {
        'Y'
    } else if a == 2 {
        'Z'
    } else if a == 3 {
        'W'
    } else {
        'V'
    }
}

impl RotationPlane {
    /// The plane's name: the letters of its two axes.
    pub fn label(self) -> (r: &'static str)
        ensures
            r@ == seq![axis_letter(self.axes().0), axis_letter(self.axes().1)],
    {
        match self {
            RotationPlane::XY => {
                proof {
                    reveal_strlit("XY");
                }
                "XY"
            },
            RotationPlane::XZ => {
                proof {
                    reveal_strlit("XZ");
                }
                "XZ"
            },
            RotationPlane::XW => {
                proof {
                    reveal_strlit("XW");
                }
                "XW"
            },
            RotationPlane::XV => {
                proof {
                    reveal_strlit("XV");
                }
                "XV"
            },
            RotationPlane::YZ => {
                proof {
                    reveal_strlit("YZ");
                }
                "YZ"
            },
            RotationPlane::YW => {
                proof {
                    reveal_strlit("YW");
                }
                "YW"
            },
            RotationPlane::YV => {
                proof {
                    reveal_strlit("YV");
                }
                "YV"
            },
            RotationPlane::ZW => {
                proof {
                    reveal_strlit("ZW");
                }
                "ZW"
            },
            RotationPlane::ZV => {
                proof {
                    reveal_strlit("ZV");
                }
                "ZV"
            },
            RotationPlane::WV => {
                proof {
                    reveal_strlit("WV");
                }
                "WV"
            },
        }
    }
}

/// `ALL` lists every plane exactly once, in canonical order: its entry `k` is the plane of index `k`.
pub proof fn lemma_all_in_canonical_order()
    ensures
        forall|k: int| 0 <= k < PLANE_COUNT ==> (#[trigger] RotationPlane::ALL[k]).spec_index() == k,
        forall|p: RotationPlane| RotationPlane::ALL[p.spec_index()] == p,
{
}

/// The ten planes are exactly the ten coordinate planes of 5-space: each plane is spanned by a
/// pair of axes `i < j < 5` ranked by its index, distinct planes have distinct axes, and every
/// pair of axes spans one of the planes.
pub proof fn lemma_planes_are_axis_pairs()
    ensures
        forall|p: RotationPlane|
            0 <= (#[trigger] p.axes()).0 < p.axes().1 < 5 && pair_rank(p.axes().0, p.axes().1)
                == p.spec_index(),
        forall|p: RotationPlane, q: RotationPlane| #[trigger] p.axes() == #[trigger] q.axes() ==> p == q,
        forall|i: int, j: int|
            0 <= i < j < 5 ==> 0 <= #[trigger] pair_rank(i, j) < PLANE_COUNT
                && RotationPlane::ALL[pair_rank(i, j)].axes() == (i, j),
{
    reveal_with_fuel(pairs_before_row, 5);
}

/// Distinct planes have distinct labels.
pub proof fn lemma_labels_distinct(p: RotationPlane, q: RotationPlane)
    requires
        p != q,
    ensures
        seq![axis_letter(p.axes().0), axis_letter(p.axes().1)] != seq![
            axis_letter(q.axes().0),
            axis_letter(q.axes().1),
        ],
{
    let sp = seq![axis_letter(p.axes().0), axis_letter(p.axes().1)];
    let sq = seq![axis_letter(q.axes().0), axis_letter(q.axes().1)];
    if sp == sq {
        assert(sp[0] == sq[0] && sp[1] == sq[1]);
    }
}

} // verus!
