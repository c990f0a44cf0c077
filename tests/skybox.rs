use skycam::skybox::{
    faces, skybox_corners, skybox_indices, Corner, CubeFace, CUBEMAP_SIZE, INDEX_COUNT,
    SKYBOX_DIR, VERTEX_COUNT,
};

fn positions(far: f32) -> Vec<[f32; 3]> {
    let half = far / 2.0;
    skybox_corners()
        .iter()
        .map(|c| [c.x as f32 * half, c.y as f32 * half, c.z as f32 * half])
        .collect()
}

#[test]
fn mesh_sizes() {
    assert_eq!(skybox_corners().len(), VERTEX_COUNT);
    assert_eq!(VERTEX_COUNT, 24);
    assert_eq!(skybox_indices().len(), INDEX_COUNT);
    assert_eq!(INDEX_COUNT, 36);
    assert_eq!(CUBEMAP_SIZE, 512);
}

#[test]
fn index_list_matches_layout() {
    let expected: Vec<u16> = vec![
        0, 2, 1, 0, 3, 2, 4, 6, 5, 4, 7, 6, 8, 10, 9, 8, 11, 10, 12, 14, 13, 12, 15, 14, 16, 18,
        17, 16, 19, 18, 20, 22, 21, 20, 23, 22,
    ];
    assert_eq!(skybox_indices(), expected);
}

#[test]
fn corner_layout() {
    let c = skybox_corners();
    assert_eq!(c[0], Corner { x: -1, y: -1, z: 1 });
    assert_eq!(c[2], Corner { x: 1, y: 1, z: 1 });
    assert_eq!(c[5], Corner { x: 1, y: -1, z: -1 });
    assert_eq!(c[9], Corner { x: -1, y: 1, z: -1 });
    assert_eq!(c[14], Corner { x: -1, y: 1, z: -1 });
    assert_eq!(c[17], Corner { x: -1, y: -1, z: -1 });
    assert_eq!(c[23], Corner { x: -1, y: 1, z: -1 });
    for k in c.iter() {
        for v in [k.x, k.y, k.z] {
            assert!(v == 1 || v == -1);
        }
    }
}

#[test]
fn vertices_at_half_far_distance() {
    let p = positions(10_000.0);
    assert_eq!(p[0], [-5000.0, -5000.0, 5000.0]);
    assert_eq!(p[6], [5000.0, 5000.0, -5000.0]);
    for v in p.iter() {
        for x in v.iter() {
            assert_eq!(x.abs(), 5000.0);
        }
    }
}

#[test]
fn doubling_far_distance_doubles_vertices() {
    let p = positions(10_000.0);
    let q = positions(20_000.0);
    for (a, b) in p.iter().zip(q.iter()) {
        for k in 0..3 {
            assert_eq!(b[k], 2.0 * a[k]);
            assert_eq!(b[k].abs(), 2.0 * a[k].abs());
        }
    }
}

#[test]
fn face_order_and_files() {
    let f = faces();
    assert_eq!(
        f,
        vec![
            CubeFace::PositiveX,
            CubeFace::NegativeX,
            CubeFace::PositiveY,
            CubeFace::NegativeY,
            CubeFace::PositiveZ,
            CubeFace::NegativeZ,
        ]
    );
    let names: Vec<&str> = f.iter().map(|x| x.image_file()).collect();
    assert_eq!(
        names,
        vec!["right.png", "left.png", "top.png", "bottom.png", "front.png", "back.png"]
    );
    for (i, x) in f.iter().enumerate() {
        assert_eq!(x.index(), i);
    }
    assert_eq!(SKYBOX_DIR, "assets/skybox/");
}

#[test]
fn vertical_layers_take_crossed_images() {
    assert_eq!(CubeFace::PositiveY.blit_source(), CubeFace::NegativeY);
    assert_eq!(CubeFace::NegativeY.blit_source(), CubeFace::PositiveY);
    assert_eq!(CubeFace::PositiveX.blit_source(), CubeFace::PositiveX);
    assert_eq!(CubeFace::NegativeX.blit_source(), CubeFace::NegativeX);
    assert_eq!(CubeFace::PositiveZ.blit_source(), CubeFace::PositiveZ);
    assert_eq!(CubeFace::NegativeZ.blit_source(), CubeFace::NegativeZ);
}
