use kyu::{ParamPair, SpherePoint, UVSphere, Vertex};

/// The floating-point position a grid-form point denotes on the unit
/// sphere.
fn to_xyz(p: &SpherePoint, slice_count: u32, stack_count: u32) -> (f64, f64, f64) {
    let pi = std::f64::consts::PI;
    let lat = pi * (p.lat_steps as f64) / (stack_count as f64);
    let lon = 2.0 * pi * (p.lon_steps as f64) / (slice_count as f64);
    (lat.sin() * lon.sin(), lat.cos(), lat.sin() * lon.cos())
}

#[test]
fn uv_sphere_output() {
    let uv_sphere = UVSphere::create_from(16, 16).unwrap();
    assert!(
        uv_sphere.faces().unwrap().len() % 3 == 0,
        "Created indices must be matched to a multiplier of 3."
    );
}

#[test]
fn position_count_formula() {
    for &(s, t) in &[(3u32, 2u32), (3, 3), (4, 7), (16, 16), (5, 2)] {
        let mesh = UVSphere::create_from(s, t).unwrap();
        let expected = 1 + (s as usize) * ((t as usize) - 1) + 1;
        assert_eq!(mesh.positions().len(), expected);
        assert_eq!(mesh.normals().unwrap().len(), expected);
        assert!(mesh.uv0s().is_none());
    }
}

#[test]
fn face_index_count_formula() {
    for &(s, t) in &[(3u32, 2u32), (3, 3), (4, 7), (16, 16), (5, 2)] {
        let mesh = UVSphere::create_from(s, t).unwrap();
        let index_entries = 3 * mesh.faces().unwrap().len();
        let (s, t) = (s as usize, t as usize);
        assert_eq!(index_entries, 3 * s + 6 * s * (t - 2) + 3 * s);
        assert!(index_entries % 3 == 0);
    }
}

#[test]
fn positions_lie_on_unit_sphere() {
    for &(s, t) in &[(3u32, 2u32), (8, 5), (16, 16)] {
        let mesh = UVSphere::create_from(s, t).unwrap();
        for p in mesh.positions() {
            let (x, y, z) = to_xyz(p, s, t);
            let norm = (x * x + y * y + z * z).sqrt();
            assert!((norm - 1.0).abs() < 1e-12);
        }
    }
}

#[test]
fn invalid_counts_are_rejected() {
    assert!(UVSphere::create_from(2, 5).is_none());
    assert!(UVSphere::create_from(5, 1).is_none());
    assert!(UVSphere::create_from(3, 2).is_some());
    assert!(kyu::create_uv_sphere_vertices(2, 5).is_none());
    assert!(kyu::create_uv_sphere_vertices(5, 1).is_none());
}

#[test]
fn faces_wind_outward() {
    for &(s, t) in &[(3u32, 2u32), (4, 4), (6, 5), (16, 16)] {
        let mesh = UVSphere::create_from(s, t).unwrap();
        let positions = mesh.positions();
        for face in mesh.faces().unwrap() {
            face.visit_enumerated(|_, vertex: &Vertex| {
                // A corner uses the normal of its own position index and
                // carries no UV index.
                assert_eq!(vertex.normal_index, Some(vertex.position_index));
                assert!(vertex.uv0_index.is_none());
            });
            let idx = face_indices(face);
            let v0 = to_xyz(&positions[idx[0] as usize], s, t);
            let v1 = to_xyz(&positions[idx[1] as usize], s, t);
            let v2 = to_xyz(&positions[idx[2] as usize], s, t);
            let e1 = (v1.0 - v0.0, v1.1 - v0.1, v1.2 - v0.2);
            let e2 = (v2.0 - v0.0, v2.1 - v0.1, v2.2 - v0.2);
            let n = (
                e1.1 * e2.2 - e1.2 * e2.1,
                e1.2 * e2.0 - e1.0 * e2.2,
                e1.0 * e2.1 - e1.1 * e2.0,
            );
            let centroid = (v0.0 + v1.0 + v2.0, v0.1 + v1.1 + v2.1, v0.2 + v1.2 + v2.2);
            let signed = n.0 * centroid.0 + n.1 * centroid.1 + n.2 * centroid.2;
            assert!(signed > 0.0, "face winds inward");
        }
    }
}

/// The three position indices of a face, in winding order.
fn face_indices(face: &kyu::Face) -> [u32; 3] {
    let cell = std::cell::RefCell::new([0u32; 3]);
    face.visit_enumerated(|i, vertex: &Vertex| {
        cell.borrow_mut()[i] = vertex.position_index;
    });
    cell.into_inner()
}

#[test]
fn minimal_sphere_scenario() {
    let mesh = UVSphere::create_from(3, 2).unwrap();
    assert_eq!(mesh.positions().len(), 5);
    assert_eq!(mesh.faces().unwrap().len(), 6);

    let expected = [
        (0.0, 1.0, 0.0),
        (0.0, 0.0, 1.0),
        (0.866025403784, 0.0, -0.5),
        (-0.866025403784, 0.0, -0.5),
        (0.0, -1.0, 0.0),
    ];
    for (p, want) in mesh.positions().iter().zip(expected.iter()) {
        let (x, y, z) = to_xyz(p, 3, 2);
        assert!((x - want.0).abs() < 1e-9);
        assert!((y - want.1).abs() < 1e-9);
        assert!((z - want.2).abs() < 1e-9);
    }

    // North cap fans (0, i+1, next+1); south cap mirrors around the last
    // vertex.
    let faces = mesh.faces().unwrap();
    assert_eq!(face_indices(&faces[0]), [0, 1, 2]);
    assert_eq!(face_indices(&faces[1]), [0, 2, 3]);
    assert_eq!(face_indices(&faces[2]), [0, 3, 1]);
    assert_eq!(face_indices(&faces[3]), [1, 4, 2]);
    assert_eq!(face_indices(&faces[4]), [2, 4, 3]);
    assert_eq!(face_indices(&faces[5]), [3, 4, 1]);
}

#[test]
fn face_indices_are_in_range_and_distinct() {
    for &(s, t) in &[(3u32, 2u32), (4, 4), (16, 16)] {
        let mesh = UVSphere::create_from(s, t).unwrap();
        let n = mesh.positions().len() as u32;
        for face in mesh.faces().unwrap() {
            let [a, b, c] = face_indices(face);
            assert!(a < n && b < n && c < n);
            assert!(a != b && b != c && a != c);
        }
    }
}

#[test]
fn normals_equal_positions() {
    let mesh = UVSphere::create_from(6, 4).unwrap();
    assert_eq!(mesh.positions(), mesh.normals().unwrap());
}

#[test]
fn sampled_vertices_and_parameters() {
    let (points, params) = kyu::create_uv_sphere_vertices(4, 3).unwrap();

    let expected_points = [
        (0u32, 0u32),
        (1, 0),
        (1, 1),
        (1, 2),
        (1, 3),
        (2, 0),
        (2, 1),
        (2, 2),
        (2, 3),
        (3, 0),
    ];
    assert_eq!(points.len(), expected_points.len());
    for (p, &(lat, lon)) in points.iter().zip(expected_points.iter()) {
        assert_eq!(*p, SpherePoint { lat_steps: lat, lon_steps: lon });
    }

    // One record for the pole, then per band the grid records plus the
    // seam-closing one at longitude 2π, then the closing south record.
    assert_eq!(params.len(), 1 + 2 * (4 + 1) + 1);
    assert_eq!(params[0], ParamPair::Steps { lon_steps: 0, lat_steps: 0 });
    for band in 0..2u32 {
        for lon in 0..=4u32 {
            assert_eq!(
                params[(1 + band * 5 + lon) as usize],
                ParamPair::Steps { lon_steps: lon, lat_steps: band + 1 }
            );
        }
    }
    assert_eq!(params[11], ParamPair::SouthPole);
}

#[test]
fn vertex_reference_builders() {
    let v = Vertex::from_position(7);
    assert_eq!(v.position_index, 7);
    assert!(v.uv0_index.is_none());
    assert!(v.normal_index.is_none());

    let v = v.with_normal(9);
    assert_eq!(v.position_index, 7);
    assert!(v.uv0_index.is_none());
    assert_eq!(v.normal_index, Some(9));
}

#[test]
fn visit_enumerated_visits_in_order() {
    let face = kyu::Face::from_triangle(
        Vertex::from_position(5).with_normal(5),
        Vertex::from_position(8).with_normal(8),
        Vertex::from_position(2).with_normal(2),
    );
    let seen = std::cell::RefCell::new(Vec::new());
    face.visit_enumerated(|i, vertex: &Vertex| {
        seen.borrow_mut().push((i, vertex.position_index));
    });
    assert_eq!(seen.into_inner(), vec![(0, 5), (1, 8), (2, 2)]);
}
