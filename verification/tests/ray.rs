use vec3::Ray;
use vec3::Vec3;

#[test]
fn point_at() {
    let a = Vec3 { x: 1, y: 1, z: 0 };
    let b = Vec3 { x: 0, y: 3, z: 0 };

    let ray = Ray { origin: a, dir: b };

    let point = ray.point_at(2);

    let expected_point = Vec3 { x: 1, y: 7, z: 0 };
    assert_eq!(point, expected_point);
}

#[test]
fn point_at_zero_is_origin() {
    let ray = Ray { origin: Vec3 { x: -4, y: 9, z: 17 }, dir: Vec3 { x: 5, y: -6, z: 7 } };
    let point = ray.point_at(0);
    assert_eq!(point, Vec3 { x: -4, y: 9, z: 17 });
}

#[test]
fn point_at_negative_parameter() {
    let ray = Ray { origin: Vec3 { x: 1, y: 1, z: 0 }, dir: Vec3 { x: 0, y: 3, z: 0 } };
    let point = ray.point_at(-2);
    assert_eq!(point, Vec3 { x: 1, y: -5, z: 0 });
}
