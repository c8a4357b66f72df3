use rt::clamp;
use rt::image::ppm_header;
use rt::image::push_decimal;
use rt::image::write_color;
use rt::image::Image;
use rt::image::Pixel;
use rt::path::color;
use rt::path::hit_range;
use rt::path::Event;
use rt::path::Radiance;
use rt::scalar::Scalar;
use rt::HitList;

fn text(bytes: Vec<u8>) -> String {
    String::from_utf8(bytes).unwrap()
}

#[test]
fn decimal_digits() {
    for n in [0u64, 7, 9, 10, 11, 99, 100, 255, 1200, 800, 4294967296, u64::MAX] {
        let mut out = Vec::new();
        push_decimal(&mut out, n);
        assert_eq!(text(out), format!("{n}"));
    }
}

#[test]
fn decimal_appends() {
    let mut out = vec![b'x'];
    push_decimal(&mut out, 42);
    push_decimal(&mut out, 0);
    assert_eq!(text(out), "x420");
}

#[test]
fn header_text() {
    assert_eq!(text(ppm_header(1200, 800)), "P3\n1200 800\n255\n");
    assert_eq!(text(ppm_header(2, 2)), "P3\n2 2\n255\n");
    assert_eq!(text(ppm_header(0, 0)), "P3\n0 0\n255\n");
}

#[test]
fn pixel_line_text() {
    let mut out = Vec::new();
    write_color(&mut out, Pixel { r: 0, g: 127, b: 255 });
    write_color(&mut out, Pixel { r: 9, g: 10, b: 100 });
    assert_eq!(text(out), "0 127 255\n9 10 100\n");
}

#[test]
fn new_image_is_black() {
    let image = Image::new(3, 2).unwrap();
    assert_eq!(image.width(), 3);
    assert_eq!(image.height(), 2);
    for j in 0..2 {
        for i in 0..3 {
            assert_eq!(image.get(i, j), Some(Pixel { r: 0, g: 0, b: 0 }));
        }
    }
    assert_eq!(image.get(3, 0), None);
    assert_eq!(image.get(0, 2), None);
    assert_eq!(text(image.encode()), "P3\n3 2\n255\n0 0 0\n0 0 0\n0 0 0\n0 0 0\n0 0 0\n0 0 0\n");
}

#[test]
fn image_too_large_is_refused() {
    assert!(Image::new(usize::MAX, 2).is_none());
    assert!(Image::new(usize::MAX, 0).is_some());
    assert!(Image::new(0, 0).is_some());
}

#[test]
fn set_changes_one_pixel() {
    let mut image = Image::new(2, 3).unwrap();
    let p = Pixel { r: 1, g: 2, b: 3 };
    assert!(image.set(1, 2, p));
    assert!(!image.set(2, 0, p));
    assert!(!image.set(0, 3, p));
    for j in 0..3 {
        for i in 0..2 {
            let expected = if (i, j) == (1, 2) { p } else { Pixel { r: 0, g: 0, b: 0 } };
            assert_eq!(image.get(i, j), Some(expected));
        }
    }
}

#[test]
fn encode_emits_the_top_row_first() {
    let mut image = Image::new(3, 2).unwrap();
    for j in 0..2u8 {
        for i in 0..3u8 {
            assert!(image.set(i as usize, j as usize, Pixel { r: i, g: j, b: 10 * j + i }));
        }
    }
    assert_eq!(
        text(image.encode()),
        "P3\n3 2\n255\n0 1 10\n1 1 11\n2 1 12\n0 0 0\n1 0 1\n2 0 2\n"
    );
}

#[test]
fn encode_of_an_empty_image_is_the_header() {
    assert_eq!(text(Image::new(0, 5).unwrap().encode()), "P3\n0 5\n255\n");
    assert_eq!(text(Image::new(5, 0).unwrap().encode()), "P3\n5 0\n255\n");
}

fn s(x: f64) -> Scalar {
    Scalar::from_bits(x.to_bits())
}

fn channel(sum: f64, samples: f64) -> u8 {
    let shade = f64::sqrt(1.0 / samples * sum);
    let held = f64::from_bits(clamp(s(shade), s(0.0), s(0.999)).to_bits());
    (256.0 * held) as i64 as u8
}

fn sky(direction: [f64; 3]) -> [f64; 3] {
    let length = f64::sqrt(
        direction[0] * direction[0] + direction[1] * direction[1] + direction[2] * direction[2],
    );
    let t = 0.5 * (direction[1] / length + 1.0);
    [1.0 * (1.0 - t) + 0.5 * t, 1.0 * (1.0 - t) + 0.7 * t, 1.0 * (1.0 - t) + 1.0 * t]
}

#[test]
fn sky_gradient_endpoints_quantise() {
    let up = sky([0.0, 1.0, 0.0]);
    assert_eq!(up, [0.5, 0.7, 1.0]);
    let down = sky([0.0, -1.0, 0.0]);
    assert_eq!(down, [1.0, 1.0, 1.0]);
    assert_eq!(channel(up[0], 1.0), 181);
    assert_eq!(channel(up[1], 1.0), 214);
    assert_eq!(channel(up[2], 1.0), 255);
    assert_eq!(channel(0.0, 1.0), 0);
    assert_eq!(channel(f64::NAN, 1.0), 0);
}

#[test]
fn two_by_two_render_of_an_empty_scene() {
    let world = HitList::new();
    let (t_min, t_max) = hit_range();
    let corners = [[-1.0, -1.0, -1.0], [1.0, -1.0, -1.0], [-1.0, 1.0, -1.0], [1.0, 1.0, -1.0]];
    let mut image = Image::new(2, 2).unwrap();
    let mut expected = vec![String::new(); 4];
    for j in 0..2usize {
        for i in 0..2usize {
            let direction = corners[j * 2 + i];
            let event = match world.hit(&Vec::new(), t_min, t_max) {
                None => Event::Miss,
                Some(_) => Event::Scattered,
            };
            let outcome = color(50, &vec![event]).unwrap();
            assert_eq!(outcome.bounces, 0);
            assert_eq!(outcome.terminal, Radiance::Sky);
            let c = sky(direction);
            let pixel = Pixel { r: channel(c[0], 1.0), g: channel(c[1], 1.0), b: channel(c[2], 1.0) };
            assert!(image.set(i, j, pixel));
            expected[(1 - j) * 2 + i] = format!("{} {} {}\n", pixel.r, pixel.g, pixel.b);
        }
    }
    let top = "199 223 255\n";
    let bottom = "242 247 255\n";
    assert_eq!(expected.concat(), format!("{top}{top}{bottom}{bottom}"));
    assert_eq!(text(image.encode()), format!("P3\n2 2\n255\n{}", expected.concat()));
}
