use planet_viewer::fx::FX_ONE;
use planet_viewer::mesh::{Face, FaceMesh, FxVec3, build_face_mesh};

fn to_f64(v: i64) -> f64 {
    v as f64 / FX_ONE as f64
}

fn all_faces() -> [Face; 6] {
    [Face::YPos, Face::YNeg, Face::XNeg, Face::XPos, Face::ZPos, Face::ZNeg]
}

fn len_f64(p: FxVec3) -> f64 {
    let (x, y, z) = (to_f64(p.x), to_f64(p.y), to_f64(p.z));
    (x * x + y * y + z * z).sqrt()
}

fn max_abs_comp(p: FxVec3) -> i64 {
    let ax = p.x.abs();
    let ay = p.y.abs();
    let az = p.z.abs();
    ax.max(ay).max(az)
}

#[test]
fn grid_size_counts() {
    for r in [2u32, 3, 4, 10, 17] {
        let m = build_face_mesh(r, Face::XPos, true);
        let r = r as usize;
        assert_eq!(m.positions.len(), r * r);
        assert_eq!(m.normals.len(), r * r);
        assert_eq!(m.indices.len(), 6 * (r - 1) * (r - 1));
    }
}

#[test]
fn index_pattern_minimal_grid() {
    let m = build_face_mesh(2, Face::YPos, false);
    assert_eq!(m.indices, vec![0, 3, 2, 0, 1, 3]);
}

#[test]
fn index_pattern_first_cells() {
    let m = build_face_mesh(3, Face::YPos, false);
    // cell (0,0): i = 0; cell (1,0): i = 1; cell (0,1): i = 3; cell (1,1): i = 4
    assert_eq!(
        m.indices,
        vec![
            0, 4, 3, 0, 1, 4, //
            1, 5, 4, 1, 2, 5, //
            3, 7, 6, 3, 4, 7, //
            4, 8, 7, 4, 5, 8,
        ]
    );
}

#[test]
fn indices_always_in_range() {
    for r in [2u32, 5, 9] {
        let m = build_face_mesh(r, Face::ZNeg, true);
        for &i in &m.indices {
            assert!((i as usize) < (r * r) as usize);
        }
    }
}

#[test]
fn cube_positions_minimal_grid_exact() {
    let s = FX_ONE;
    let m = build_face_mesh(2, Face::YPos, false);
    assert_eq!(m.positions[0], FxVec3 { x: -s, y: s, z: s });
    assert_eq!(m.positions[1], FxVec3 { x: s, y: s, z: s });
    assert_eq!(m.positions[2], FxVec3 { x: -s, y: s, z: -s });
    assert_eq!(m.positions[3], FxVec3 { x: s, y: s, z: -s });
}

#[test]
fn cube_invariant_surface_and_normals() {
    let s = FX_ONE;
    let expected_normals = [
        FxVec3 { x: 0, y: s, z: 0 },
        FxVec3 { x: 0, y: -s, z: 0 },
        FxVec3 { x: -s, y: 0, z: 0 },
        FxVec3 { x: s, y: 0, z: 0 },
        FxVec3 { x: 0, y: 0, z: s },
        FxVec3 { x: 0, y: 0, z: -s },
    ];
    for (k, f) in all_faces().into_iter().enumerate() {
        let m = build_face_mesh(5, f, false);
        for p in &m.positions {
            assert_eq!(max_abs_comp(*p), s);
        }
        for n in &m.normals {
            assert_eq!(*n, expected_normals[k]);
        }
    }
}

#[test]
fn spherify_position_equals_normal_and_unit_length() {
    for f in all_faces() {
        let m = build_face_mesh(6, f, true);
        for (p, n) in m.positions.iter().zip(m.normals.iter()) {
            assert_eq!(p, n);
            assert!((len_f64(*p) - 1.0).abs() < 1e-3);
        }
    }
}

#[test]
fn face_corners_cover_cube_corners() {
    let s = FX_ONE;
    let r = 3u32;
    let mut seen = std::collections::BTreeSet::new();
    for f in all_faces() {
        let m = build_face_mesh(r, f, false);
        let last = (r - 1) as usize;
        for &(x, y) in &[(0usize, 0usize), (last, 0), (0, last), (last, last)] {
            let p = m.positions[x + y * r as usize];
            assert!(p.x.abs() == s && p.y.abs() == s && p.z.abs() == s);
            seen.insert((p.x, p.y, p.z));
        }
    }
    assert_eq!(seen.len(), 8);
    for sx in [-s, s] {
        for sy in [-s, s] {
            for sz in [-s, s] {
                assert!(seen.contains(&(sx, sy, sz)));
            }
        }
    }
}

#[test]
fn build_is_deterministic() {
    let a = build_face_mesh(7, Face::ZPos, true);
    let b = build_face_mesh(7, Face::ZPos, true);
    assert_eq!(a.positions, b.positions);
    assert_eq!(a.normals, b.normals);
    assert_eq!(a.indices, b.indices);
}

#[test]
fn sphere_positions_interior_are_not_cube_points() {
    // The center vertex of a spherified face keeps length one; the cube
    // point there would have length one as well only along the normal.
    let m = build_face_mesh(3, Face::YPos, true);
    let center = m.positions[4];
    assert_eq!(center, FxVec3 { x: 0, y: FX_ONE, z: 0 });
    let corner = m.positions[0];
    assert!((len_f64(corner) - 1.0).abs() < 1e-3);
    assert!(corner.y < FX_ONE);
}

fn mesh_eq(a: &FaceMesh, b: &FaceMesh) -> bool {
    a.positions == b.positions && a.normals == b.normals && a.indices == b.indices
}

#[test]
fn faces_differ_between_cube_and_sphere() {
    let a = build_face_mesh(4, Face::XPos, false);
    let b = build_face_mesh(4, Face::XPos, true);
    assert!(!mesh_eq(&a, &b));
}
