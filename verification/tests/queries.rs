use narrowphase::closest::{closest_point_on_line, closest_point_on_line_grid,
    closest_point_on_triangle};
use narrowphase::shapes::{Capsule, Ray, Sphere, Triangle};
use narrowphase::vec3::Vec3;

fn v(x: i64, y: i64, z: i64) -> Vec3 {
    Vec3::new(x, y, z)
}

#[test]
fn sphere_vs_sphere_overlap_depth() {
    let a = Sphere::new(v(0, 0, 0), 2);
    let b = Sphere::new(v(3, 0, 0), 2);
    let p = a.vs_sphere(&b);
    assert!(p.collided);
    // depth = r1 + r2 - |c1 - c2| = 4 - 3 = 1
    assert_eq!(p.penetration_or_time.num, 1);
    assert_eq!(p.penetration_or_time.den, 1);
    // normal points from b's center to a's center, unnormalized
    assert_eq!((p.normal.x, p.normal.y, p.normal.z), (-3, 0, 0));
    // contact point (1, 0, 0) over denominator 3
    assert_eq!(p.position.den, 3);
    assert_eq!((p.position.x, p.position.y, p.position.z), (3, 0, 0));
}

#[test]
fn sphere_vs_sphere_symmetry() {
    let a = Sphere::new(v(10, -4, 7), 3);
    let b = Sphere::new(v(8, -2, 6), 3);
    let pab = a.vs_sphere(&b);
    let pba = b.vs_sphere(&a);
    assert_eq!(pab.collided, pba.collided);
    assert_eq!(pab.penetration_or_time, pba.penetration_or_time);
    // antiparallel normals
    assert_eq!(pab.normal.x, -pba.normal.x);
    assert_eq!(pab.normal.y, -pba.normal.y);
    assert_eq!(pab.normal.z, -pba.normal.z);
}

#[test]
fn sphere_vs_sphere_separated() {
    let a = Sphere::new(v(0, 0, 0), 2);
    let b = Sphere::new(v(10, 0, 0), 2);
    assert!(!a.vs_sphere(&b).collided);
}

#[test]
fn closest_point_projects_onto_segment() {
    let q = closest_point_on_line(&v(0, 0, 0), &v(10, 0, 0), &v(4, 3, 0));
    // t = 40/100, point = (4, 0, 0) over denominator 100
    assert_eq!(q.den, 100);
    assert_eq!((q.x, q.y, q.z), (400, 0, 0));
    let g = closest_point_on_line_grid(&v(0, 0, 0), &v(10, 0, 0), &v(4, 3, 0));
    assert_eq!((g.x, g.y, g.z), (4, 0, 0));
}

#[test]
fn closest_point_clamps_to_ends() {
    let g = closest_point_on_line_grid(&v(0, 0, 0), &v(10, 0, 0), &v(15, 2, 0));
    assert_eq!((g.x, g.y, g.z), (10, 0, 0));
    let h = closest_point_on_line_grid(&v(0, 0, 0), &v(10, 0, 0), &v(-3, 2, 0));
    assert_eq!((h.x, h.y, h.z), (0, 0, 0));
}

#[test]
fn closest_point_idempotent_on_segment() {
    // a point already on the segment comes back unchanged
    let q = closest_point_on_line(&v(0, 0, 0), &v(10, 0, 0), &v(4, 0, 0));
    assert_eq!(q.den, 100);
    assert_eq!((q.x, q.y, q.z), (400, 0, 0));
    let g = closest_point_on_line_grid(&v(0, 0, 0), &v(10, 0, 0), &v(4, 0, 0));
    assert_eq!((g.x, g.y, g.z), (4, 0, 0));
}

#[test]
fn closest_point_degenerate_segment() {
    let g = closest_point_on_line_grid(&v(5, 5, 5), &v(5, 5, 5), &v(0, 0, 0));
    assert_eq!((g.x, g.y, g.z), (5, 5, 5));
}

#[test]
fn closest_point_on_triangle_inside_and_edge() {
    let tri = Triangle::new(v(0, 0, 0), v(4, 0, 0), v(0, 4, 0));
    let n = v(0, 0, 16);
    // a point that projects inside comes back unchanged
    let inside = closest_point_on_triangle(&tri, &n, &v(1, 1, 7));
    assert_eq!((inside.x, inside.y, inside.z), (1, 1, 7));
    // a point outside snaps to the nearest edge point
    let edge = closest_point_on_triangle(&tri, &n, &v(6, -2, 0));
    assert_eq!((edge.x, edge.y, edge.z), (4, 0, 0));
}

#[test]
fn ray_vs_sphere_hit_time_and_surface() {
    let ray = Ray::new(v(-5, 0, 0), v(1, 0, 0));
    let s = Sphere::new(v(0, 0, 0), 2);
    let p = ray.vs_sphere(&s);
    assert!(p.collided);
    // t = 3 (enters the sphere at x = -2)
    assert_eq!(p.penetration_or_time.num, 3);
    assert_eq!(p.penetration_or_time.den, 1);
    // the hit point lies exactly on the sphere surface
    assert_eq!(p.position.den, 1);
    assert_eq!((p.position.x, p.position.y, p.position.z), (-2, 0, 0));
    let dx = p.position.x;
    let dy = p.position.y;
    let dz = p.position.z;
    assert_eq!(dx * dx + dy * dy + dz * dz, 4);
}

#[test]
fn ray_vs_sphere_miss() {
    let ray = Ray::new(v(-5, 10, 0), v(1, 0, 0));
    let s = Sphere::new(v(0, 0, 0), 2);
    assert!(!ray.vs_sphere(&s).collided);
}

#[test]
fn ray_vs_sphere_behind_start() {
    // sphere entirely behind the ray start: negative time, not a hit
    let ray = Ray::new(v(10, 0, 0), v(1, 0, 0));
    let s = Sphere::new(v(0, 0, 0), 2);
    let p = ray.vs_sphere(&s);
    assert!(!p.collided);
}

#[test]
fn ray_vs_triangle_barycentric_inside() {
    let tri = Triangle::new(v(0, 0, 0), v(4, 0, 0), v(0, 4, 0));
    let ray = Ray::new(v(1, 1, 5), v(0, 0, -1));
    let p = ray.vs_triangle(&tri);
    assert!(p.collided);
    // t = 5, hit point (1, 1, 0) over |det| = 16
    assert_eq!(p.penetration_or_time.num, 80);
    assert_eq!(p.penetration_or_time.den, 16);
    assert_eq!(p.position.den, 16);
    assert_eq!((p.position.x, p.position.y, p.position.z), (16, 16, 0));
    // normal is the unnormalized face normal
    assert_eq!((p.normal.x, p.normal.y, p.normal.z), (0, 0, 16));
}

#[test]
fn ray_vs_triangle_barycentric_outside() {
    let tri = Triangle::new(v(0, 0, 0), v(4, 0, 0), v(0, 4, 0));
    // u > 1: outside
    assert!(!Ray::new(v(5, 1, 5), v(0, 0, -1)).vs_triangle(&tri).collided);
    // u < 0: outside
    assert!(!Ray::new(v(-1, 1, 5), v(0, 0, -1)).vs_triangle(&tri).collided);
    // u + v > 1: outside
    assert!(!Ray::new(v(3, 3, 5), v(0, 0, -1)).vs_triangle(&tri).collided);
}

#[test]
fn ray_vs_triangle_parallel_is_miss() {
    let tri = Triangle::new(v(0, 0, 0), v(4, 0, 0), v(0, 4, 0));
    let ray = Ray::new(v(1, 1, 5), v(1, 0, 0));
    assert!(!ray.vs_triangle(&tri).collided);
}

#[test]
fn ray_vs_cylinder_hit() {
    let ray = Ray::new(v(-5, 0, 0), v(1, 0, 0));
    let p = ray.vs_cylinder(&v(0, -2, 0), &v(0, 2, 0), 1);
    assert!(p.collided);
    // t = 4: the ray reaches the radius-1 wall at x = -1
    assert_eq!(p.penetration_or_time.num, 64);
    assert_eq!(p.penetration_or_time.den, 16);
}

#[test]
fn ray_vs_cylinder_axial_clip() {
    // passes above the finite cylinder: infinite-wall hit is clipped away
    let ray = Ray::new(v(-5, 5, 0), v(1, 0, 0));
    let p = ray.vs_cylinder(&v(0, -2, 0), &v(0, 2, 0), 1);
    assert!(!p.collided);
}

#[test]
fn ray_vs_capsule_hits_cylinder_wall() {
    let capsule = Capsule::new(v(0, -5, 0), v(0, 5, 0), 2);
    let ray = Ray::new(v(-10, 0, 0), v(1, 0, 0));
    let p = ray.vs_capsule(&capsule);
    assert!(p.collided);
    // t = 8: wall at x = -2
    assert_eq!(p.penetration_or_time.num, 800);
    assert_eq!(p.penetration_or_time.den, 100);
}

#[test]
fn sphere_vs_capsule_degenerate_equals_sphere() {
    // a capsule with base == tip behaves as a sphere of that radius
    let s = Sphere::new(v(0, 0, 0), 2);
    let c = Capsule::new(v(3, 0, 0), v(3, 0, 0), 2);
    let via_capsule = s.vs_capsule(&c);
    let via_sphere = s.vs_sphere(&Sphere::new(v(3, 0, 0), 2));
    assert_eq!(via_capsule.collided, via_sphere.collided);
    assert_eq!(via_capsule.penetration_or_time, via_sphere.penetration_or_time);
    assert_eq!(via_capsule.position, via_sphere.position);
    assert_eq!(via_capsule.normal, via_sphere.normal);
    assert!(via_capsule.collided);
}

#[test]
fn sphere_vs_capsule_side_contact() {
    let s = Sphere::new(v(3, 0, 0), 2);
    let c = Capsule::new(v(0, -5, 0), v(0, 5, 0), 2);
    let p = s.vs_capsule(&c);
    assert!(p.collided);
    // closest core point (0, 0, 0); depth = 2 + 2 - 3
    assert_eq!(p.penetration_or_time.num, 1);
    assert_eq!(p.penetration_or_time.den, 1);
}

#[test]
fn sphere_vs_capsule_separated() {
    let s = Sphere::new(v(5, 0, 0), 2);
    let c = Capsule::new(v(0, -5, 0), v(0, 5, 0), 2);
    assert!(!s.vs_capsule(&c).collided);
}

#[test]
fn capsule_vs_capsule_parallel() {
    let a = Capsule::new(v(0, 0, 0), v(0, 10, 0), 2);
    let b = Capsule::new(v(3, 0, 0), v(3, 10, 0), 2);
    let p = a.vs_capsule(&b);
    assert!(p.collided);
    assert_eq!(p.penetration_or_time.num, 1);
    assert_eq!(p.penetration_or_time.den, 1);
}

#[test]
fn sphere_vs_triangle_inside_contact() {
    // unit-scale floor triangle below a sphere
    let tri = Triangle::new(v(-50, 0, -50), v(50, 0, -50), v(0, 0, 50));
    let s = Sphere::new(v(0, 3, 0), 5);
    let p = s.vs_triangle(&tri);
    assert!(p.collided);
    // depth = radius - plane distance = 5 - 3, over nlen = 10000
    assert_eq!(p.penetration_or_time.num, 5 * 10000 - 3 * 10000);
    assert_eq!(p.penetration_or_time.den, 10000);
}

#[test]
fn sphere_vs_triangle_plane_reject() {
    let tri = Triangle::new(v(-50, 0, -50), v(50, 0, -50), v(0, 0, 50));
    let s = Sphere::new(v(0, 10, 0), 2);
    let p = s.vs_triangle(&tri);
    assert!(!p.collided);
    // diagnostic scalar carries the scaled signed plane distance
    assert_eq!(p.penetration_or_time.num, -100000);
    assert_eq!(p.penetration_or_time.den, 10000);
}

#[test]
fn capsule_vs_triangle_overhead() {
    let tri = Triangle::new(v(-50, 0, -50), v(50, 0, -50), v(0, 0, 50));
    // vertical capsule whose lower cap reaches into the plane
    let c = Capsule::new(v(0, -1, 0), v(0, 7, 0), 4);
    let p = c.vs_triangle(&tri);
    assert!(p.collided);
}

#[test]
fn capsule_getters_and_center() {
    let mut c = Capsule::new(v(0, 0, 0), v(0, 10, 0), 2);
    assert_eq!(c.get_radius(), 2);
    let mid = c.get_center();
    assert_eq!(mid.den, 2);
    assert_eq!((mid.x, mid.y, mid.z), (0, 10, 0));
    c.set_center(v(4, 4, 4));
    assert_eq!(c.get_base(), v(4, -1, 4));
    assert_eq!(c.get_tip(), v(4, 9, 4));
    let mut s = Sphere::new(v(0, 0, 0), 1);
    s.set_center(v(7, 8, 9));
    assert_eq!(s.get_center(), v(7, 8, 9));
    assert_eq!(s.get_radius(), 1);
}
