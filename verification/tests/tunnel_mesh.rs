use lissajou_tunnel::lisa::{ring_parameter, ColorTrig, Lissajou3D, Trig3, TunnelSamples};
use lissajou_tunnel::polygon::{polygon_angle, AngleTrig, Polygon3D};
use lissajou_tunnel::math::Matrix4;
use lissajou_tunnel::scalar::Scalar;
use lissajou_tunnel::{clamp_polygon_count, TunnelError};

fn s(x: f64) -> Scalar {
    Scalar { bits: x.to_bits() }
}

fn f(x: Scalar) -> f64 {
    f64::from_bits(x.bits)
}

fn angle_samples(sides: usize) -> Vec<AngleTrig> {
    (0..sides)
        .map(|i| {
            let angle = f(polygon_angle(i as u64, sides as u64));
            AngleTrig { cos: s(angle.cos()), sin: s(angle.sin()) }
        })
        .collect()
}

fn frame_samples(a: f64, b: f64, num: usize) -> Vec<Trig3> {
    (0..=num)
        .map(|i| {
            let t = f(ring_parameter(i as u64, num as u64));
            let at = a * t;
            let bt = b * t;
            Trig3 {
                sin_at: s(at.sin()),
                cos_at: s(at.cos()),
                sin_bt: s(bt.sin()),
                cos_bt: s(bt.cos()),
            }
        })
        .collect()
}

fn color_samples(num: usize) -> Vec<ColorTrig> {
    (0..num)
        .map(|i| {
            let delta = f(ring_parameter(i as u64, num as u64));
            ColorTrig {
                sin_d: s(delta.sin()),
                cos_3d: s((3.0 * delta).cos()),
                sin_4d: s((4.0 * delta).sin()),
            }
        })
        .collect()
}

fn samples(a: f64, b: f64, sides: usize, num: usize) -> TunnelSamples {
    TunnelSamples {
        angles: angle_samples(sides),
        frames: frame_samples(a, b, num),
        colors: color_samples(num),
    }
}

fn identity() -> Matrix4 {
    [
        [s(1.0), s(0.0), s(0.0), s(0.0)],
        [s(0.0), s(1.0), s(0.0), s(0.0)],
        [s(0.0), s(0.0), s(1.0), s(0.0)],
        [s(0.0), s(0.0), s(0.0), s(1.0)],
    ]
}

#[test]
fn vertex_count_is_rings_times_sides() {
    let c = Lissajou3D::new(s(3.0), s(2.0), s(5.0)).unwrap();
    for (num, sides) in [(1usize, 3usize), (8, 4), (10, 5), (200, 6)] {
        let mesh = c
            .generate_tunnel_mesh(s(0.5), sides, num, &samples(3.0, 2.0, sides, num))
            .unwrap();
        assert_eq!(mesh.vertices.len(), (num + 1) * sides);
    }
}

#[test]
fn closing_ring_reuses_first_ring_colors() {
    let c = Lissajou3D::new(s(3.0), s(2.0), s(5.0)).unwrap();
    let (num, sides) = (16usize, 5usize);
    let mesh = c
        .generate_tunnel_mesh(s(0.5), sides, num, &samples(3.0, 2.0, sides, num))
        .unwrap();
    for j in 0..sides {
        assert_eq!(mesh.vertices[num * sides + j].color, mesh.vertices[j].color);
    }
}

#[test]
fn first_ring_color_follows_formula() {
    let c = Lissajou3D::new(s(3.0), s(2.0), s(5.0)).unwrap();
    let (num, sides) = (8usize, 4usize);
    let mesh = c
        .generate_tunnel_mesh(s(0.5), sides, num, &samples(3.0, 2.0, sides, num))
        .unwrap();
    // At ring zero the phase is zero: its sine is zero and its cosine one.
    let red = (0.5f64 + 0.5 * 0.0) as f32;
    let green = (0.35f64 + 0.35 * 1.0) as f32;
    let blue = (0.75f64 + 0.25 * 0.0) as f32;
    let color = mesh.vertices[0].color;
    assert_eq!(f32::from_bits(color[0].bits), red);
    assert_eq!(f32::from_bits(color[1].bits), green);
    assert_eq!(f32::from_bits(color[2].bits), blue);
    assert_eq!(f32::from_bits(color[3].bits), 0.5f32);
}

#[test]
fn all_indices_are_below_vertex_count() {
    let c = Lissajou3D::new(s(3.0), s(2.0), s(5.0)).unwrap();
    let (num, sides) = (12usize, 7usize);
    let mesh = c
        .generate_tunnel_mesh(s(0.5), sides, num, &samples(3.0, 2.0, sides, num))
        .unwrap();
    let count = mesh.vertices.len() as u32;
    assert_eq!(mesh.triangles.len(), 6 * num * sides);
    assert_eq!(mesh.long_lines.len(), 2 * sides * num);
    assert_eq!(mesh.lat_lines.len(), 2 * (num + 1) * sides);
    for &ix in mesh.triangles.iter().chain(&mesh.long_lines).chain(&mesh.lat_lines) {
        assert!(ix < count);
    }
}

#[test]
fn small_mesh_has_expected_index_buffers() {
    let c = Lissajou3D::new(s(3.0), s(2.0), s(5.0)).unwrap();
    let (num, sides) = (1usize, 3usize);
    let mesh = c
        .generate_tunnel_mesh(s(0.5), sides, num, &samples(3.0, 2.0, sides, num))
        .unwrap();
    assert_eq!(
        mesh.triangles,
        vec![0, 3, 1, 3, 4, 1, 1, 4, 2, 4, 5, 2, 2, 5, 0, 5, 3, 0]
    );
    assert_eq!(mesh.long_lines, vec![0, 3, 1, 4, 2, 5]);
    assert_eq!(mesh.lat_lines, vec![0, 1, 1, 2, 2, 0, 3, 4, 4, 5, 5, 3]);
}

#[test]
fn vertices_lie_on_transformed_polygon_rings() {
    let c = Lissajou3D::new(s(3.0), s(2.0), s(5.0)).unwrap();
    let (num, sides) = (8usize, 4usize);
    let sm = samples(3.0, 2.0, sides, num);
    let mesh = c.generate_tunnel_mesh(s(0.5), sides, num, &sm).unwrap();
    let polygon = Polygon3D::new(s(0.5), sides, &sm.angles).unwrap();
    for i in 0..=num {
        let matrix = c.transform_matrix(&sm.frames[i]);
        let ring = polygon.transform(&matrix);
        for j in 0..sides {
            let v = mesh.vertices[i * sides + j];
            assert_eq!(f32::from_bits(v.pos[0].bits), f(ring[j].x) as f32);
            assert_eq!(f32::from_bits(v.pos[1].bits), f(ring[j].y) as f32);
            assert_eq!(f32::from_bits(v.pos[2].bits), f(ring[j].z) as f32);
        }
    }
}

#[test]
fn regeneration_is_bit_identical() {
    let c = Lissajou3D::new(s(3.0), s(2.0), s(5.0)).unwrap();
    let (num, sides) = (20usize, 6usize);
    let sm = samples(3.0, 2.0, sides, num);
    let m1 = c.generate_tunnel_mesh(s(0.5), sides, num, &sm).unwrap();
    let m2 = c.generate_tunnel_mesh(s(0.5), sides, num, &sm).unwrap();
    assert!(m1 == m2);
}

#[test]
fn mesh_generation_rejects_bad_arguments() {
    let c = Lissajou3D::new(s(3.0), s(2.0), s(5.0)).unwrap();
    let sm = samples(3.0, 2.0, 4, 8);
    assert_eq!(
        c.generate_tunnel_mesh(s(0.5), 2, 8, &sm).unwrap_err(),
        TunnelError::InvalidArgument
    );
    assert_eq!(
        c.generate_tunnel_mesh(s(0.5), 4, 0, &sm).unwrap_err(),
        TunnelError::InvalidArgument
    );
    assert_eq!(
        c.generate_tunnel_mesh(s(f64::NAN), 4, 8, &sm).unwrap_err(),
        TunnelError::InvalidArgument
    );
    // Sample lengths that do not fit the arguments are rejected too.
    assert_eq!(
        c.generate_tunnel_mesh(s(0.5), 5, 8, &sm).unwrap_err(),
        TunnelError::InvalidArgument
    );
    assert_eq!(
        c.generate_tunnel_mesh(s(0.5), 4, 9, &sm).unwrap_err(),
        TunnelError::InvalidArgument
    );
    assert!(c.generate_tunnel_mesh(s(0.5), 4, 8, &sm).is_ok());
}

#[test]
fn polygon_has_one_vertex_per_side() {
    let sides = 6usize;
    let polygon = Polygon3D::new(s(1.5), sides, &angle_samples(sides)).unwrap();
    assert_eq!(polygon.vertices.len(), sides);
    for m in [identity()] {
        assert_eq!(polygon.transform(&m).len(), sides);
    }
}

#[test]
fn polygon_vertices_follow_angle_formula() {
    let sides = 5usize;
    let radius = 2.0f64;
    let polygon = Polygon3D::new(s(radius), sides, &angle_samples(sides)).unwrap();
    for i in 0..sides {
        let angle = f(polygon_angle(i as u64, sides as u64));
        assert_eq!(f(polygon.vertices[i].x).to_bits(), (radius * angle.cos()).to_bits());
        assert_eq!(f(polygon.vertices[i].y).to_bits(), (radius * angle.sin()).to_bits());
        assert_eq!(f(polygon.vertices[i].z), 0.0);
    }
}

#[test]
fn polygon_rejects_bad_arguments() {
    let angles = angle_samples(4);
    assert_eq!(
        Polygon3D::new(s(1.0), 2, &angle_samples(2)).unwrap_err(),
        TunnelError::InvalidArgument
    );
    assert_eq!(
        Polygon3D::new(s(f64::INFINITY), 4, &angles).unwrap_err(),
        TunnelError::InvalidArgument
    );
    assert_eq!(
        Polygon3D::new(s(1.0), 5, &angles).unwrap_err(),
        TunnelError::InvalidArgument
    );
    assert!(Polygon3D::new(s(1.0), 4, &angles).is_ok());
}

#[test]
fn polygon_line_vertices_pair_adjacent_corners() {
    let sides = 4usize;
    let polygon = Polygon3D::new(s(1.0), sides, &angle_samples(sides)).unwrap();
    let lines = polygon.generate_line_vertices(&identity());
    assert_eq!(lines.len(), sides * 6);
    for i in 0..sides {
        let cur = polygon.vertices[i];
        let nxt = polygon.vertices[(i + 1) % sides];
        let seg = &lines[i * 6..i * 6 + 6];
        assert_eq!(f32::from_bits(seg[0].bits), f(cur.x) as f32);
        assert_eq!(f32::from_bits(seg[1].bits), f(cur.y) as f32);
        assert_eq!(f32::from_bits(seg[2].bits), f(cur.z) as f32);
        assert_eq!(f32::from_bits(seg[3].bits), f(nxt.x) as f32);
        assert_eq!(f32::from_bits(seg[4].bits), f(nxt.y) as f32);
        assert_eq!(f32::from_bits(seg[5].bits), f(nxt.z) as f32);
    }
}

#[test]
fn ring_parameter_closes_the_loop() {
    let two_pi = 2.0 * std::f64::consts::PI;
    assert_eq!(f(ring_parameter(0, 8)), 0.0);
    assert_eq!(f(ring_parameter(8, 8)).to_bits(), ((two_pi * 8.0) / 8.0).to_bits());
    assert_eq!(f(ring_parameter(1, 8)).to_bits(), ((two_pi * 1.0) / 8.0).to_bits());
}

#[test]
fn polygon_angle_matches_reference() {
    let two_pi = 2.0 * std::f64::consts::PI;
    let expected = 2.0f64 * (two_pi / 5.0);
    assert_eq!(f(polygon_angle(2, 5)).to_bits(), expected.to_bits());
}

#[test]
fn clamp_keeps_polygon_count_in_display_range() {
    assert_eq!(clamp_polygon_count(0), 10);
    assert_eq!(clamp_polygon_count(9), 10);
    assert_eq!(clamp_polygon_count(10), 10);
    assert_eq!(clamp_polygon_count(200), 200);
    assert_eq!(clamp_polygon_count(1000), 1000);
    assert_eq!(clamp_polygon_count(5000), 1000);
}
