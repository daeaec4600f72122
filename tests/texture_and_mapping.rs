use pixel_canvas::{Image, XY};
use polar_tunnel::mapping::{calculate_mapping, ring_distance, CENTER_DISTANCE};
use polar_tunnel::texture::render_texture;

fn rgb_at(img: &Image, x: usize, y: usize) -> (u8, u8, u8) {
    let c = img[XY(x, y)];
    (c.r, c.g, c.b)
}

fn atan2_angle(width: usize, height: usize, texwidth: usize) -> impl Fn(usize, usize) -> usize {
    move |x, y| {
        let cx = x as f32 - width as f32 * 0.5;
        let cy = y as f32 - height as f32 * 0.5;
        (0.5 * texwidth as f32 * (1.0 + cy.atan2(cx) / std::f32::consts::PI)) as usize
    }
}

#[test]
fn texture_texel_is_xor_of_scaled_coordinates() {
    for &(w, h) in &[(4usize, 4usize), (3, 5), (16, 8), (256, 256), (300, 7)] {
        let tex = render_texture(w, h);
        assert_eq!(tex.width(), w);
        assert_eq!(tex.height(), h);
        for y in 0..h {
            for x in 0..w {
                let blue = ((x * 256 / w) as u8) ^ ((y * 256 / h) as u8);
                assert_eq!(rgb_at(&tex, x, y), (0, 0, blue));
            }
        }
    }
}

#[test]
fn texture_four_by_four_corner_texel() {
    let tex = render_texture(4, 4);
    assert_eq!(rgb_at(&tex, 3, 3), (0, 0, 0));
    assert_eq!(rgb_at(&tex, 3, 0), (0, 0, 192));
    assert_eq!(rgb_at(&tex, 1, 2), (0, 0, 64 ^ 128));
}

#[test]
fn texture_one_by_one() {
    let tex = render_texture(1, 1);
    assert_eq!(rgb_at(&tex, 0, 0), (0, 0, 0));
}

#[test]
fn ring_distance_falls_off_with_radius() {
    let near = ring_distance(33, 32, 64, 64, 32);
    let far = ring_distance(63, 32, 64, 64, 32);
    assert_eq!(near, 1024);
    assert_eq!(far, 33);
    assert!(near > far);
}

#[test]
fn ring_distance_exact_values() {
    // offset (3, 4): radius 5, 32 * 32 / 5 = 204.8
    assert_eq!(ring_distance(35, 36, 64, 64, 32), 204);
    // odd span: offset (0.5, 0.5), radius ~0.707, 32 * 10 / 0.707 = 452.5
    assert_eq!(ring_distance(2, 2, 3, 3, 10), 452);
    // far away in a wide space
    assert_eq!(ring_distance(0, 0, 4000, 2, 2), 0);
}

#[test]
fn ring_distance_center_saturates() {
    assert_eq!(ring_distance(32, 32, 64, 64, 32), CENTER_DISTANCE);
    assert_eq!(CENTER_DISTANCE, u64::MAX);
}

#[test]
fn mapping_values_lie_in_texture_range() {
    let (w, h, tw, th) = (64usize, 48usize, 32usize, 20usize);
    let (dist, ang) = calculate_mapping(w, h, tw, th, atan2_angle(w, h, tw));
    assert_eq!(dist.len(), w * h);
    assert_eq!(ang.len(), w * h);
    for i in 0..w * h {
        assert!(dist[i] < th);
        assert!(ang[i] < tw);
    }
}

#[test]
fn mapping_distance_matches_ring_distance() {
    let (w, h, tw, th) = (64usize, 64usize, 32usize, 32usize);
    let (dist, _) = calculate_mapping(w, h, tw, th, atan2_angle(w, h, tw));
    for y in 0..h {
        for x in 0..w {
            let raw = ring_distance(x, y, w, h, th);
            assert_eq!(dist[y * w + x] as u64, raw % th as u64);
        }
    }
    assert_eq!(dist[32 * w + 33], 0);
    assert_eq!(dist[32 * w + 63], 1);
    assert_eq!(dist[32 * w + 32], (u64::MAX % 32) as usize);
}

#[test]
fn mapping_angle_folds_the_given_angle() {
    let (w, h, tw, th) = (8usize, 6usize, 5usize, 4usize);
    let (_, ang) = calculate_mapping(w, h, tw, th, |x, y| x * 100 + y);
    for y in 0..h {
        for x in 0..w {
            assert_eq!(ang[y * w + x], (x * 100 + y) % tw);
        }
    }
}

#[test]
fn mapping_is_point_symmetric() {
    let (w, h, tw, th) = (64usize, 64usize, 32usize, 32usize);
    let (dist, ang) = calculate_mapping(w, h, tw, th, atan2_angle(w, h, tw));
    for y in 1..h {
        for x in 1..w {
            let mirror = (h - y) * w + (w - x);
            assert_eq!(dist[y * w + x], dist[mirror]);
        }
    }
    // the angle turns by half the texture width (float rounding may move it by one)
    let a = ang[40 * w + 37];
    let b = ang[24 * w + 27];
    let diff = (a + tw - b) % tw;
    assert!(diff == tw / 2 || diff == tw / 2 - 1 || diff == tw / 2 + 1);
}

#[test]
fn mapping_empty_space() {
    let (dist, ang) = calculate_mapping(0, 5, 4, 4, |_, _| 0);
    assert!(dist.is_empty());
    assert!(ang.is_empty());
}
