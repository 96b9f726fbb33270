use narrowphase::packet::CollisionPacket;
use narrowphase::response::corrected_center;
use narrowphase::shapes::{Capsule, Ray, Sphere, Triangle, TriangleSoup};
use narrowphase::soup::generate_triangle_soup;
use narrowphase::vec3::Vec3;

fn v(x: i64, y: i64, z: i64) -> Vec3 {
    Vec3::new(x, y, z)
}

fn floor_triangle(height: i64) -> Triangle {
    Triangle::new(v(-50, height, -50), v(50, height, -50), v(0, height, 50))
}

#[test]
fn swept_sphere_hits_plane_at_exact_fraction() {
    // sphere of radius 2 at height 5, moving (0, -10, 0): contact after
    // (5 - 2) / 10 of the frame
    let s = Sphere::new(v(0, 5, 0), 2);
    let p = s.vs_while_moving_triangle(&v(0, -10, 0), &floor_triangle(0));
    assert!(p.collided);
    assert_eq!(p.penetration_or_time.num * 10, 3 * p.penetration_or_time.den);
}

#[test]
fn swept_sphere_correction_lands_on_surface() {
    let s = Sphere::new(v(0, 5, 0), 2);
    let p = s.vs_while_moving_triangle(&v(0, -10, 0), &floor_triangle(0));
    let c = corrected_center(&v(0, 5, 0), &v(0, -10, 0), &p);
    // the corrected center sits exactly one radius above the plane
    assert_eq!(c, Some(v(0, 2, 0)));
}

#[test]
fn swept_sphere_beyond_frame_window_is_discarded() {
    // contact would come at t = 1.3: not a collision this frame
    let s = Sphere::new(v(0, 15, 0), 2);
    let p = s.vs_while_moving_triangle(&v(0, -10, 0), &floor_triangle(0));
    assert!(!p.collided);
}

#[test]
fn swept_sphere_moving_away_is_miss() {
    let s = Sphere::new(v(0, 5, 0), 2);
    let p = s.vs_while_moving_triangle(&v(0, 10, 0), &floor_triangle(0));
    assert!(!p.collided);
}

#[test]
fn no_collision_yields_no_correction() {
    // a missed query must never produce a position update
    let s = Sphere::new(v(0, 15, 0), 2);
    let p = s.vs_while_moving_triangle(&v(0, -10, 0), &floor_triangle(0));
    assert_eq!(corrected_center(&v(0, 15, 0), &v(0, -10, 0), &p), None);
    assert_eq!(corrected_center(&v(0, 0, 0), &v(0, -10, 0), &CollisionPacket::miss()), None);
}

#[test]
fn swept_capsule_hits_face_at_exact_fraction() {
    // vertical capsule falling onto the floor: the earliest feature hit is
    // the top translated face, crossed after 2/5 of the frame
    let c = Capsule::new(v(0, 4, 0), v(0, 8, 0), 2);
    let p = c.vs_while_moving_triangle(&v(0, -10, 0), &floor_triangle(0));
    assert!(p.collided);
    assert_eq!(p.penetration_or_time.num * 5, 2 * p.penetration_or_time.den);
}

#[test]
fn swept_capsule_far_above_window_is_discarded() {
    let c = Capsule::new(v(0, 60, 0), v(0, 64, 0), 2);
    let p = c.vs_while_moving_triangle(&v(0, -10, 0), &floor_triangle(0));
    assert!(!p.collided);
}

#[test]
fn soup_aggregation_picks_global_minimum() {
    // three parallel planes with distinct penetration depths 4, 3, 2:
    // the aggregation must return exactly the minimum-depth packet
    let soup = TriangleSoup::new(vec![floor_triangle(-1), floor_triangle(-3), floor_triangle(-2)]);
    let s = Sphere::new(v(0, 0, 0), 5);
    let p = s.vs_triangle_soup(&soup);
    assert!(p.collided);
    assert_eq!(p.penetration_or_time.num, 20000);
    assert_eq!(p.penetration_or_time.den, 10000);
    // and the packet is the deepest triangle's own result
    assert_eq!(p.position.den, 100000000);
    assert_eq!((p.position.x, p.position.y, p.position.z), (0, -300000000, 0));
}

#[test]
fn soup_aggregation_empty_is_miss() {
    let soup = TriangleSoup::new(Vec::new());
    let s = Sphere::new(v(0, 0, 0), 5);
    let p = s.vs_triangle_soup(&soup);
    assert!(!p.collided);
    assert_eq!(p.penetration_or_time.num, 0);
    assert_eq!(p.penetration_or_time.den, 1);
}

#[test]
fn ray_soup_takes_earliest_triangle() {
    let soup = TriangleSoup::new(vec![floor_triangle(-3), floor_triangle(-1), floor_triangle(-2)]);
    let ray = Ray::new(v(0, 10, 0), v(0, -1, 0));
    let p = ray.vs_triangle_soup(&soup);
    assert!(p.collided);
    // first crossing at the y = -1 plane: t = 11
    assert_eq!(p.penetration_or_time.num, 11 * p.penetration_or_time.den);
}

#[test]
fn swept_soup_takes_earliest_triangle() {
    let soup = TriangleSoup::new(vec![floor_triangle(0), floor_triangle(-3)]);
    let s = Sphere::new(v(0, 5, 0), 2);
    let p = s.vs_while_moving_triangle_soup(&v(0, -10, 0), &soup);
    assert!(p.collided);
    assert_eq!(p.penetration_or_time.num * 10, 3 * p.penetration_or_time.den);
}

#[test]
fn capsule_soup_static_contact() {
    let soup = TriangleSoup::new(vec![floor_triangle(0)]);
    let c = Capsule::new(v(0, -1, 0), v(0, 7, 0), 4);
    let p = c.vs_triangle_soup(&soup);
    assert!(p.collided);
}

#[test]
fn swept_capsule_soup_matches_single_triangle() {
    let tri = floor_triangle(0);
    let soup = TriangleSoup::new(vec![tri]);
    let c = Capsule::new(v(0, 4, 0), v(0, 8, 0), 2);
    let single = c.vs_while_moving_triangle(&v(0, -10, 0), &tri);
    let agg = c.vs_while_moving_triangle_soup(&v(0, -10, 0), &soup);
    assert_eq!(single.collided, agg.collided);
    assert_eq!(single.penetration_or_time, agg.penetration_or_time);
}

#[test]
fn triangle_side_entry_points_agree() {
    let tri = floor_triangle(0);
    let s = Sphere::new(v(0, 3, 0), 5);
    let a = tri.vs_sphere(&s);
    let b = s.vs_triangle(&tri);
    assert_eq!(a.collided, b.collided);
    assert_eq!(a.penetration_or_time, b.penetration_or_time);
    let m1 = tri.vs_moving_sphere(&Sphere::new(v(0, 5, 0), 2), &v(0, -10, 0));
    assert!(m1.collided);
    let cap = Capsule::new(v(0, 4, 0), v(0, 8, 0), 2);
    let m2 = tri.vs_moving_capsule(&cap, &v(0, -10, 0));
    assert!(m2.collided);
}

#[test]
fn soup_from_mesh_buffers() {
    let vertices = vec![v(0, 0, 0), v(4, 0, 0), v(0, 4, 0), v(9, 9, 9)];
    let indices: Vec<u32> = vec![0, 1, 2, 1, 3, 2];
    let soup = generate_triangle_soup(&vertices, &indices);
    assert_eq!(soup.triangles.len(), 2);
    assert_eq!(soup.triangles[0].vertex_0, v(0, 0, 0));
    assert_eq!(soup.triangles[0].vertex_1, v(4, 0, 0));
    assert_eq!(soup.triangles[0].vertex_2, v(0, 4, 0));
    assert_eq!(soup.triangles[1].vertex_1, v(9, 9, 9));
}

#[test]
fn ray_entry_points_agree() {
    let ray = Ray::new(v(-5, 0, 0), v(1, 0, 0));
    let s = Sphere::new(v(0, 0, 0), 2);
    let a = ray.vs_sphere(&s);
    let b = s.vs_ray(&ray);
    assert_eq!(a.penetration_or_time, b.penetration_or_time);
    let cap = Capsule::new(v(0, -5, 0), v(0, 5, 0), 2);
    let c1 = ray.vs_capsule(&cap);
    let c2 = cap.vs_ray(&ray);
    assert_eq!(c1.penetration_or_time, c2.penetration_or_time);
}
