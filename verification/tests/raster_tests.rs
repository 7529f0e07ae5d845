use planetarium::linalg::{Vec2, Vec3};
use planetarium::triangle::triangle;
use planetarium::vertex::ScreenVertex;

fn sv(x: i64, y: i64, intensity: i64) -> ScreenVertex {
    ScreenVertex {
        x,
        y,
        depth: 0,
        normal: Vec3 { x: 0, y: 0, z: 65536 },
        tex_coords: Vec2 { x: 0, y: 0 },
        intensity,
    }
}

fn has_pixel(frags: &[planetarium::vertex::Fragment], x: i64, y: i64) -> bool {
    frags.iter().any(|f| f.x == x && f.y == y)
}

#[test]
fn rasterizer_coverage() {
    let a = sv(0, 0, 65536);
    let b = sv(10, 0, 65536);
    let c = sv(0, 10, 65536);
    let frags = triangle(&a, &b, &c);
    assert!(has_pixel(&frags, 1, 1));
    assert!(has_pixel(&frags, 5, 5));
    assert!(!has_pixel(&frags, 9, 9));
}

#[test]
fn collinear_triangle_yields_nothing() {
    let a = sv(0, 0, 65536);
    let b = sv(5, 5, 65536);
    let c = sv(10, 10, 65536);
    let frags = triangle(&a, &b, &c);
    assert!(frags.is_empty());
}

#[test]
fn each_pixel_appears_once() {
    let a = sv(0, 0, 65536);
    let b = sv(10, 0, 65536);
    let c = sv(0, 10, 65536);
    let frags = triangle(&a, &b, &c);
    for i in 0..frags.len() {
        for j in (i + 1)..frags.len() {
            assert!(frags[i].x != frags[j].x || frags[i].y != frags[j].y);
        }
    }
}

#[test]
fn barycentric_interpolation_at_centroid() {
    let a = sv(0, 0, 0);
    let b = sv(3, 0, 65536);
    let c = sv(0, 3, 65536);
    let frags = triangle(&a, &b, &c);
    let centroid = frags.iter().find(|f| f.x == 1 && f.y == 1).expect("centroid covered");
    let expected = (0.0f64 + 1.0 + 1.0) / 3.0 * 65536.0;
    assert!((centroid.intensity as f64 - expected).abs() < 2.0);
}

#[test]
fn depth_interpolates_between_vertices() {
    let mut a = sv(0, 0, 65536);
    let mut b = sv(4, 0, 65536);
    let mut c = sv(0, 4, 65536);
    a.depth = 0;
    b.depth = 40000;
    c.depth = 40000;
    let frags = triangle(&a, &b, &c);
    let corner = frags.iter().find(|f| f.x == 0 && f.y == 0).expect("corner covered");
    assert_eq!(corner.depth, 0);
    for f in &frags {
        assert!(f.depth >= 0 && f.depth <= 40000);
    }
}
