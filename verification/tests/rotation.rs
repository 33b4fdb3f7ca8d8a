use penteract::rotation::{RotationPlane, PLANE_COUNT};

#[test]
fn test_plane_count() {
    assert_eq!(RotationPlane::ALL.len(), PLANE_COUNT);
}

#[test]
fn all_planes_in_canonical_order() {
    for (k, plane) in RotationPlane::ALL.iter().enumerate() {
        assert_eq!(plane.index(), k);
    }
}

#[test]
fn axis_indices_enumerate_all_pairs() {
    let mut expected = Vec::new();
    for i in 0..5 {
        for j in (i + 1)..5 {
            expected.push((i, j));
        }
    }
    let got: Vec<(usize, usize)> = RotationPlane::ALL.iter().map(|p| p.axis_indices()).collect();
    assert_eq!(got, expected);
    assert_eq!(RotationPlane::YV.axis_indices(), (1, 4));
    assert_eq!(RotationPlane::WV.axis_indices(), (3, 4));
}

#[test]
fn labels_spell_the_axes() {
    let letters = ['X', 'Y', 'Z', 'W', 'V'];
    for plane in RotationPlane::ALL {
        let (i, j) = plane.axis_indices();
        let expected: String = [letters[i], letters[j]].iter().collect();
        assert_eq!(plane.label(), expected);
    }
    assert_eq!(RotationPlane::XY.label(), "XY");
    assert_eq!(RotationPlane::ZV.label(), "ZV");
}

#[test]
fn labels_are_distinct() {
    for p in RotationPlane::ALL {
        for q in RotationPlane::ALL {
            assert_eq!(p == q, p.label() == q.label());
        }
    }
}
