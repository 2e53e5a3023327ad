use lissajou_tunnel::lisa::{ring_parameter, Lissajou3D, Trig3};
use lissajou_tunnel::polygon::{polygon_angle, AngleTrig, Polygon3D};
use lissajou_tunnel::scalar::Scalar;
use lissajou_tunnel::TunnelError;

fn s(x: f64) -> Scalar {
    Scalar { bits: x.to_bits() }
}

fn f(x: Scalar) -> f64 {
    f64::from_bits(x.bits)
}

fn angle_samples(sides: usize) -> Vec<AngleTrig> {
    (0..sides)
        .map(|i| {
            let angle = f(polygon_angle(i as u64, sides as u64));
            AngleTrig { cos: s(angle.cos()), sin: s(angle.sin()) }
        })
        .collect()
}

fn frame_samples(a: f64, b: f64, num: usize) -> Vec<Trig3> {
    (0..=num)
        .map(|i| {
            let t = f(ring_parameter(i as u64, num as u64));
            let at = a * t;
            let bt = b * t;
            Trig3 {
                sin_at: s(at.sin()),
                cos_at: s(at.cos()),
                sin_bt: s(bt.sin()),
                cos_bt: s(bt.cos()),
            }
        })
        .collect()
}

fn sub(a: [f64; 3], b: [f64; 3]) -> [f64; 3] {
    [a[0] - b[0], a[1] - b[1], a[2] - b[2]]
}

fn cross(a: [f64; 3], b: [f64; 3]) -> [f64; 3] {
    [
        a[1] * b[2] - a[2] * b[1],
        a[2] * b[0] - a[0] * b[2],
        a[0] * b[1] - a[1] * b[0],
    ]
}

fn dot(a: [f64; 3], b: [f64; 3]) -> f64 {
    a[0] * b[0] + a[1] * b[1] + a[2] * b[2]
}

fn as_f64(v: lissajou_tunnel::math::V3D) -> [f64; 3] {
    [f(v.x), f(v.y), f(v.z)]
}

#[test]
fn emitted_triangles_face_outward_on_circular_tunnel() {
    // A circular sweep: the second frequency is zero, so the curve is a
    // circle of radius five, with a square cross-section and eight rings.
    let (a, b, radius) = (1.0f64, 0.0f64, 0.5f64);
    let (num, sides) = (8usize, 4usize);
    let c = Lissajou3D::new(s(a), s(b), s(5.0)).unwrap();
    let angles = angle_samples(sides);
    let frames = frame_samples(a, b, num);
    let buffers = c
        .generate_tunnel_buffers(s(radius), sides, num, &angles, &frames, true, true, true)
        .unwrap();
    assert_eq!(buffers.tunnel.len(), 18 * num * sides);

    let polygon = Polygon3D::new(s(radius), sides, &angles).unwrap();
    let rings: Vec<Vec<[f64; 3]>> = (0..=num)
        .map(|i| {
            polygon
                .transform(&c.transform_matrix(&frames[i]))
                .into_iter()
                .map(as_f64)
                .collect()
        })
        .collect();

    for i in 0..num {
        let curve_center = as_f64(c.position(&frames[i]));
        for j in 0..sides {
            let nj = (j + 1) % sides;
            let corners = [rings[i][j], rings[i + 1][j], rings[i][nj], rings[i + 1][nj]];
            let quad_center = [
                (corners[0][0] + corners[1][0] + corners[2][0] + corners[3][0]) / 4.0,
                (corners[0][1] + corners[1][1] + corners[2][1] + corners[3][1]) / 4.0,
                (corners[0][2] + corners[1][2] + corners[2][2] + corners[3][2]) / 4.0,
            ];
            let outward = sub(quad_center, curve_center);
            let q = i * sides + j;
            let block = &buffers.tunnel[18 * q..18 * q + 18];
            for tri in 0..2 {
                let mut pts = [[0.0f64; 3]; 3];
                for corner in 0..3 {
                    for comp in 0..3 {
                        let bits = block[tri * 9 + corner * 3 + comp].bits;
                        pts[corner][comp] = f32::from_bits(bits) as f64;
                    }
                }
                let normal = cross(sub(pts[1], pts[0]), sub(pts[2], pts[0]));
                let d = dot(normal, outward);
                assert!(d >= 0.0, "inward triangle {} of quad ({}, {}): dot {}", tri, i, j, d);
            }
        }
    }
}

#[test]
fn winding_correction_is_deterministic() {
    let (a, b) = (3.0f64, 2.0f64);
    let (num, sides) = (8usize, 4usize);
    let c = Lissajou3D::new(s(a), s(b), s(5.0)).unwrap();
    let angles = angle_samples(sides);
    let frames = frame_samples(a, b, num);
    let b1 = c
        .generate_tunnel_buffers(s(0.5), sides, num, &angles, &frames, true, true, true)
        .unwrap();
    let b2 = c
        .generate_tunnel_buffers(s(0.5), sides, num, &angles, &frames, true, true, true)
        .unwrap();
    assert!(b1 == b2);
}

#[test]
fn skipped_streams_are_empty_not_errors() {
    let (a, b) = (3.0f64, 2.0f64);
    let (num, sides) = (6usize, 5usize);
    let c = Lissajou3D::new(s(a), s(b), s(5.0)).unwrap();
    let angles = angle_samples(sides);
    let frames = frame_samples(a, b, num);
    let buffers = c
        .generate_tunnel_buffers(s(0.5), sides, num, &angles, &frames, false, true, false)
        .unwrap();
    assert!(buffers.longitude.is_empty());
    assert!(!buffers.latitude.is_empty());
    assert!(buffers.tunnel.is_empty());
    let none = c
        .generate_tunnel_buffers(s(0.5), sides, num, &angles, &frames, false, false, false)
        .unwrap();
    assert!(none.longitude.is_empty() && none.latitude.is_empty() && none.tunnel.is_empty());
}

#[test]
fn longitude_stream_pairs_consecutive_rings() {
    let (a, b) = (3.0f64, 2.0f64);
    let (num, sides) = (4usize, 3usize);
    let c = Lissajou3D::new(s(a), s(b), s(5.0)).unwrap();
    let angles = angle_samples(sides);
    let frames = frame_samples(a, b, num);
    let buffers = c
        .generate_tunnel_buffers(s(0.5), sides, num, &angles, &frames, true, true, false)
        .unwrap();
    assert_eq!(buffers.longitude.len(), 6 * sides * num);
    assert_eq!(buffers.latitude.len(), 6 * (num + 1) * sides);

    let polygon = Polygon3D::new(s(0.5), sides, &angles).unwrap();
    let rings: Vec<Vec<[f64; 3]>> = (0..=num)
        .map(|i| {
            polygon
                .transform(&c.transform_matrix(&frames[i]))
                .into_iter()
                .map(as_f64)
                .collect()
        })
        .collect();

    for j in 0..sides {
        for i in 0..num {
            let p = j * num + i;
            let seg = &buffers.longitude[6 * p..6 * p + 6];
            for comp in 0..3 {
                assert_eq!(f32::from_bits(seg[comp].bits), rings[i][j][comp] as f32);
                assert_eq!(f32::from_bits(seg[3 + comp].bits), rings[i + 1][j][comp] as f32);
            }
        }
    }
    for i in 0..=num {
        for j in 0..sides {
            let p = i * sides + j;
            let seg = &buffers.latitude[6 * p..6 * p + 6];
            let nj = (j + 1) % sides;
            for comp in 0..3 {
                assert_eq!(f32::from_bits(seg[comp].bits), rings[i][j][comp] as f32);
                assert_eq!(f32::from_bits(seg[3 + comp].bits), rings[i][nj][comp] as f32);
            }
        }
    }
}

#[test]
fn buffer_generation_rejects_bad_arguments() {
    let (a, b) = (3.0f64, 2.0f64);
    let c = Lissajou3D::new(s(a), s(b), s(5.0)).unwrap();
    let angles = angle_samples(4);
    let frames = frame_samples(a, b, 8);
    assert_eq!(
        c.generate_tunnel_buffers(s(0.5), 2, 8, &angle_samples(2), &frames, true, true, true)
            .unwrap_err(),
        TunnelError::InvalidArgument
    );
    assert_eq!(
        c.generate_tunnel_buffers(s(0.5), 4, 0, &angles, &frames, true, true, true)
            .unwrap_err(),
        TunnelError::InvalidArgument
    );
    assert_eq!(
        c.generate_tunnel_buffers(s(f64::NAN), 4, 8, &angles, &frames, true, true, true)
            .unwrap_err(),
        TunnelError::InvalidArgument
    );
    assert_eq!(
        c.generate_tunnel_buffers(s(0.5), 4, 7, &angles, &frames, true, true, true)
            .unwrap_err(),
        TunnelError::InvalidArgument
    );
    assert!(c
        .generate_tunnel_buffers(s(0.5), 4, 8, &angles, &frames, true, true, true)
        .is_ok());
}
