use rtracer::config::Config;
use rtracer::geometry::{cuboid_faces, Axis, CuboidFace, Plane};
use rtracer::hitable::FlipNormals;
use rtracer::texture::Image;

#[test]
fn axis_indices() {
    assert_eq!(Axis::X.idx(), 0);
    assert_eq!(Axis::Y.idx(), 1);
    assert_eq!(Axis::Z.idx(), 2);
    assert_eq!(Axis::X.rotation_plane(), (1, 2));
    assert_eq!(Axis::Y.rotation_plane(), (0, 2));
    assert_eq!(Axis::Z.rotation_plane(), (0, 1));
}

#[test]
fn plane_axes() {
    assert_eq!(Plane::XY.axes(), (0, 1, 2));
    assert_eq!(Plane::YZ.axes(), (1, 2, 0));
    assert_eq!(Plane::XZ.axes(), (0, 2, 1));
}

#[test]
fn cuboid_has_six_faces_three_flipped() {
    let faces = cuboid_faces();
    assert_eq!(faces.len(), 6);
    assert_eq!(faces.iter().filter(|f| f.flipped).count(), 3);
    assert_eq!(faces[0], CuboidFace { plane: Plane::XY, at_max: true, flipped: false });
    assert_eq!(faces[5], CuboidFace { plane: Plane::YZ, at_max: false, flipped: true });
}

#[test]
fn flip_normals_keeps_its_inner_value() {
    let f = FlipNormals::new(17u32);
    assert_eq!(*f.inner(), 17);
}

#[test]
fn config_getters() {
    let c = Config::new(200, 100, 10, "./raytracer.png".to_string(), true);
    assert_eq!(c.width(), 200);
    assert_eq!(c.height(), 100);
    assert_eq!(c.samples(), 10);
    assert_eq!(c.output(), "./raytracer.png");
    assert!(c.inline());
}

fn two_by_two() -> Image {
    // red, green / blue, white
    let px = vec![255, 0, 0, 0, 255, 0, 0, 0, 255, 255, 255, 255];
    Image::new(px, 2, 2).expect("sizes match")
}

#[test]
fn image_rejects_mismatched_buffers() {
    assert!(Image::new(vec![0; 12], 2, 2).is_some());
    assert!(Image::new(vec![0; 11], 2, 2).is_none());
    assert!(Image::new(vec![0; 13], 2, 2).is_none());
    assert!(Image::new(Vec::new(), 0, 4).is_none());
    assert!(Image::new(Vec::new(), 4, 0).is_none());
}

#[test]
fn image_texel_lookup_and_clamp() {
    let im = two_by_two();
    assert_eq!(im.width(), 2);
    assert_eq!(im.height(), 2);
    assert_eq!(im.texel(0, 0), (255, 0, 0));
    assert_eq!(im.texel(1, 0), (0, 255, 0));
    assert_eq!(im.texel(0, 1), (0, 0, 255));
    assert_eq!(im.texel(1, 1), (255, 255, 255));
    assert_eq!(im.texel(-5, -1), (255, 0, 0));
    assert_eq!(im.texel(9, 0), (0, 255, 0));
    assert_eq!(im.texel(i64::MAX, i64::MAX), (255, 255, 255));
    assert_eq!(im.texel(i64::MIN, 7), (0, 0, 255));
}
