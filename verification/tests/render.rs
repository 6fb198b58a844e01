use image::Pixel;
use msdsmchr::raster::{Image, Rgba};
use msdsmchr::placement::{
    head_placements, Factor, MatrixTemplate, SectionPlacement, HEAD_SIZE, SKEW_A, SKEW_B,
    SKEW_DENOMINATOR,
};
use msdsmchr::render::{crop_section, to_2d_head, to_3d_head, SECTION_SIZE};

fn px(r: u8, g: u8, b: u8, a: u8) -> Rgba {
    Rgba { r, g, b, a }
}

/// A texture whose pixel at `(x, y)` is chosen by `paint`.
fn texture(width: u32, height: u32, paint: impl Fn(u32, u32) -> Rgba) -> Image {
    let mut data = Vec::new();
    for y in 0..height {
        for x in 0..width {
            let p = paint(x, y);
            data.extend_from_slice(&[p.r, p.g, p.b, p.a]);
        }
    }
    Image::from_raw(width, height, data).unwrap()
}

fn in_section(x: u32, y: u32, gx: u32, gy: u32) -> bool {
    x / 8 == gx && y / 8 == gy
}

/// A skin in the layout of the default one: every pixel of the base layer is
/// opaque and tells its position, the outer layer is `hat`.
fn skin(hat: impl Fn(u32, u32) -> Rgba) -> Image {
    texture(64, 64, |x, y| {
        if x >= 32 && y < 16 {
            hat(x, y)
        } else {
            px(100 + x as u8, 100 + y as u8, 7, 255)
        }
    })
}

/// What the image crate itself makes of `top` over `bottom`.
fn mixed(bottom: Rgba, top: Rgba) -> Rgba {
    let mut under = image::Rgba([bottom.r, bottom.g, bottom.b, bottom.a]);
    under.blend(&image::Rgba([top.r, top.g, top.b, top.a]));
    px(under.0[0], under.0[1], under.0[2], under.0[3])
}

#[test]
fn crop_section_cuts_the_square_of_the_grid() {
    let atlas = skin(|_, _| px(0, 0, 0, 0));
    let section = crop_section(&atlas, 1, 1);
    assert_eq!((section.width(), section.height()), (SECTION_SIZE, SECTION_SIZE));
    for j in 0..8 {
        for i in 0..8 {
            assert_eq!(section.get_pixel(i, j), atlas.get_pixel(8 + i, 8 + j));
        }
    }
    let last = crop_section(&atlas, 7, 7);
    assert_eq!((last.width(), last.height()), (8, 8));
    assert_eq!(last.get_pixel(7, 7), atlas.get_pixel(63, 63));
}

#[test]
fn crop_section_never_reaches_beyond_the_texture() {
    let atlas = skin(|_, _| px(0, 0, 0, 0));
    let beside = crop_section(&atlas, 8, 0);
    assert_eq!((beside.width(), beside.height()), (0, 8));
    let below = crop_section(&atlas, 0, 8);
    assert_eq!((below.width(), below.height()), (8, 0));
    let far = crop_section(&atlas, u32::MAX, u32::MAX);
    assert_eq!((far.width(), far.height()), (0, 0));
    let wrapped = crop_section(&atlas, 0x2000_0001, 1);
    assert_eq!((wrapped.width(), wrapped.height()), (0, 8));

    let narrow = texture(12, 20, |x, y| px(x as u8, y as u8, 0, 255));
    let part = crop_section(&narrow, 1, 2);
    assert_eq!((part.width(), part.height()), (4, 4));
    assert_eq!(part.get_pixel(3, 3), narrow.get_pixel(11, 19));
}

#[test]
fn flat_head_shows_the_face_under_a_transparent_hat() {
    let atlas = skin(|_, _| px(0, 0, 0, 0));
    let head = to_2d_head(&atlas);
    assert_eq!((head.width(), head.height()), (8, 8));
    assert_eq!(head.get_pixel(0, 0), atlas.get_pixel(8, 8));
    assert_eq!(head.get_pixel(0, 0), Some(px(108, 108, 7, 255)));
    for j in 0..8 {
        for i in 0..8 {
            assert_eq!(head.get_pixel(i, j), atlas.get_pixel(8 + i, 8 + j));
        }
    }
}

#[test]
fn flat_head_with_a_transparent_hat_equals_the_head_without_a_hat() {
    let with_hat = skin(|x, y| px(x as u8, y as u8, 99, 0));
    // the same texture, cut off before the column of the outer layer
    let without_hat = with_hat.crop(0, 0, 32, 64);
    assert_eq!(to_2d_head(&with_hat).into_raw(), to_2d_head(&without_hat).into_raw());
}

#[test]
fn flat_head_shows_an_opaque_hat_over_the_face() {
    let atlas = skin(|x, y| {
        if in_section(x, y, 5, 1) && x % 2 == 0 {
            px(x as u8, y as u8, 200, 255)
        } else {
            px(0, 0, 0, 0)
        }
    });
    let head = to_2d_head(&atlas);
    for j in 0..8 {
        for i in 0..8 {
            let expected = if i % 2 == 0 {
                atlas.get_pixel(40 + i, 8 + j)
            } else {
                atlas.get_pixel(8 + i, 8 + j)
            };
            assert_eq!(head.get_pixel(i, j), expected);
        }
    }
}

#[test]
fn flat_head_mixes_a_translucent_hat_with_the_face() {
    let hat = px(250, 10, 60, 77);
    let atlas = skin(|_, _| hat);
    let head = to_2d_head(&atlas);
    let face = atlas.get_pixel(11, 13).unwrap();
    assert_eq!(head.get_pixel(3, 5), Some(mixed(face, hat)));
    assert_ne!(head.get_pixel(3, 5), Some(face));
}

#[test]
fn flat_head_of_textures_of_any_size() {
    for (width, height) in [(8, 8), (16, 8), (8, 16), (16, 16), (40, 16), (48, 16), (64, 32), (64, 64), (128, 128)] {
        let atlas = texture(width, height, |x, y| px(x as u8, y as u8, 1, 255));
        let head = to_2d_head(&atlas);
        assert_eq!((head.width(), head.height()), (8, 8));
        for j in 0..8 {
            for i in 0..8 {
                let expected = if 40 + i < width && 8 + j < height {
                    atlas.get_pixel(40 + i, 8 + j).unwrap()
                } else if 8 + i < width && 8 + j < height {
                    atlas.get_pixel(8 + i, 8 + j).unwrap()
                } else {
                    px(0, 0, 0, 0)
                };
                assert_eq!(head.get_pixel(i, j), Some(expected));
            }
        }
    }
}

#[test]
fn flat_head_of_a_wide_texture_without_rows() {
    for width in [64, 0x4000_0000, u32::MAX] {
        let atlas = Image::from_raw(width, 0, Vec::new()).unwrap();
        let section = crop_section(&atlas, 1, 1);
        assert_eq!((section.width(), section.height()), (8, 0));
        assert_eq!(to_2d_head(&atlas).into_raw(), vec![0u8; 8 * 8 * 4]);
    }
}

#[test]
fn flat_head_of_a_texture_that_is_no_multiple_of_the_section() {
    let atlas = texture(13, 11, |x, y| px(x as u8, y as u8, 1, 255));
    let head = to_2d_head(&atlas);
    assert_eq!(head.get_pixel(4, 2), atlas.get_pixel(12, 10));
    assert_eq!(head.get_pixel(5, 2), Some(px(0, 0, 0, 0)));
    assert_eq!(head.get_pixel(4, 3), Some(px(0, 0, 0, 0)));
}

#[test]
fn flat_head_is_the_same_on_every_run() {
    let atlas = skin(|x, y| px(x as u8, y as u8, 3, (x * y) as u8));
    assert_eq!(to_2d_head(&atlas).into_raw(), to_2d_head(&atlas).into_raw());
}

#[test]
fn matrix_templates_hold_the_skews() {
    assert_eq!((SKEW_A, SKEW_B, SKEW_DENOMINATOR), (26, 52, 45));
    assert_eq!(MatrixTemplate::TopBottom.numerators(), [45, 45, 0, -26, 26, 0, 0, 0, 45]);
    assert_eq!(MatrixTemplate::FrontBack.numerators(), [45, 0, 0, -26, 52, 26, 0, 0, 45]);
    assert_eq!(MatrixTemplate::RightLeft.numerators(), [45, 0, 0, 26, 52, 0, 0, 0, 45]);
}

fn reference(tenths: i32) -> Factor {
    Factor { num_tenths: tenths, den_tenths: 2560 }
}

const ONE: Factor = Factor { num_tenths: 10, den_tenths: 10 };
const OUTER: Factor = Factor { num_tenths: 90, den_tenths: 80 };
const NARROW: Factor = Factor { num_tenths: 80, den_tenths: 81 };
const WIDEN: Factor = Factor { num_tenths: 81, den_tenths: 80 };
const LOWER: Factor = Factor { num_tenths: 80, den_tenths: 90 };

#[test]
fn plan_of_the_head_lists_the_nine_faces_in_drawing_order() {
    let plan = head_placements(HEAD_SIZE);
    let expected = vec![
        SectionPlacement {
            size: 128,
            x: 6,
            y: 1,
            matrix: MatrixTemplate::RightLeft,
            translate_x: reference(2310),
            translate_y: reference(-560),
            adjust_x: NARROW,
            adjust_y: ONE,
            scale: 6,
            enlarge: OUTER,
            flip: true,
        },
        SectionPlacement {
            size: 128,
            x: 7,
            y: 1,
            matrix: MatrixTemplate::FrontBack,
            translate_x: reference(260),
            translate_y: reference(700),
            adjust_x: ONE,
            adjust_y: ONE,
            scale: 6,
            enlarge: OUTER,
            flip: false,
        },
        SectionPlacement {
            size: 128,
            x: 6,
            y: 0,
            matrix: MatrixTemplate::TopBottom,
            translate_x: reference(-1450),
            translate_y: reference(1770),
            adjust_x: ONE,
            adjust_y: ONE,
            scale: 6,
            enlarge: OUTER,
            flip: false,
        },
        SectionPlacement {
            size: 128,
            x: 1,
            y: 0,
            matrix: MatrixTemplate::TopBottom,
            translate_x: reference(-400),
            translate_y: reference(830),
            adjust_x: ONE,
            adjust_y: ONE,
            scale: 6,
            enlarge: ONE,
            flip: false,
        },
        SectionPlacement {
            size: 128,
            x: 1,
            y: 1,
            matrix: MatrixTemplate::FrontBack,
            translate_x: reference(1325),
            translate_y: reference(1775),
            adjust_x: ONE,
            adjust_y: ONE,
            scale: 6,
            enlarge: ONE,
            flip: false,
        },
        SectionPlacement {
            size: 128,
            x: 2,
            y: 1,
            matrix: MatrixTemplate::RightLeft,
            translate_x: reference(1210),
            translate_y: reference(520),
            adjust_x: ONE,
            adjust_y: ONE,
            scale: 6,
            enlarge: ONE,
            flip: true,
        },
        SectionPlacement {
            size: 128,
            x: 5,
            y: 1,
            matrix: MatrixTemplate::FrontBack,
            translate_x: reference(1325),
            translate_y: reference(1775),
            adjust_x: WIDEN,
            adjust_y: ONE,
            scale: 6,
            enlarge: OUTER,
            flip: false,
        },
        SectionPlacement {
            size: 128,
            x: 4,
            y: 1,
            matrix: MatrixTemplate::RightLeft,
            translate_x: reference(260),
            translate_y: reference(520),
            adjust_x: NARROW,
            adjust_y: ONE,
            scale: 6,
            enlarge: OUTER,
            flip: false,
        },
        SectionPlacement {
            size: 128,
            x: 5,
            y: 0,
            matrix: MatrixTemplate::TopBottom,
            translate_x: reference(-400),
            translate_y: reference(830),
            adjust_x: NARROW,
            adjust_y: LOWER,
            scale: 6,
            enlarge: OUTER,
            flip: false,
        },
    ];
    assert_eq!(plan, expected);
}

#[test]
fn plan_scales_with_the_canvas() {
    for (size, scale) in [(8, 0), (16, 0), (24, 1), (40, 2), (128, 6), (256, 12), (1024, 51)] {
        let plan = head_placements(size);
        assert_eq!(plan.len(), 9);
        for placement in &plan {
            assert_eq!(placement.size, size);
            assert_eq!(placement.scale, scale);
        }
        // only what depends on the side differs from the plan of the default head
        let default = head_placements(HEAD_SIZE);
        for (placement, other) in plan.iter().zip(default.iter()) {
            assert_eq!(SectionPlacement { size: 128, scale: 6, ..*placement }, *other);
        }
    }
}

#[test]
fn plan_stays_on_a_texture_of_64_pixels() {
    for placement in head_placements(HEAD_SIZE) {
        assert!((placement.x + 1) * SECTION_SIZE <= 64);
        assert!((placement.y + 1) * SECTION_SIZE <= 64);
    }
}

#[test]
fn cube_head_without_faces_is_white() {
    let head = to_3d_head(16, &Vec::new());
    assert_eq!((head.width(), head.height()), (16, 16));
    assert_eq!(head.into_raw(), vec![255u8; 16 * 16 * 4]);
}

#[test]
fn cube_head_draws_later_faces_over_earlier_ones() {
    let red = px(255, 0, 0, 255);
    let blue = px(0, 0, 255, 255);
    let clear = px(0, 0, 0, 0);
    let white = px(255, 255, 255, 255);
    // red fills the left three columns, blue the right three
    let first = texture(4, 4, |x, _| if x < 3 { red } else { clear });
    let second = texture(4, 4, |x, _| if x > 0 { blue } else { clear });
    let third = texture(4, 4, |_, y| if y == 3 { clear } else { px(9, 9, 9, 0) });

    let head = to_3d_head(4, &vec![first, second, third]);
    for y in 0..4 {
        assert_eq!(head.get_pixel(0, y), Some(red));
        assert_eq!(head.get_pixel(1, y), Some(blue));
        assert_eq!(head.get_pixel(2, y), Some(blue));
        assert_eq!(head.get_pixel(3, y), Some(blue));
    }

    let first = texture(4, 4, |x, _| if x < 3 { red } else { clear });
    let second = texture(4, 4, |x, _| if x > 0 { blue } else { clear });
    let head = to_3d_head(4, &vec![second, first]);
    for y in 0..4 {
        assert_eq!(head.get_pixel(0, y), Some(red));
        assert_eq!(head.get_pixel(2, y), Some(red));
        assert_eq!(head.get_pixel(3, y), Some(blue));
    }

    let small = texture(2, 2, |_, _| red);
    let head = to_3d_head(4, &vec![small]);
    assert_eq!(head.get_pixel(1, 1), Some(red));
    assert_eq!(head.get_pixel(2, 1), Some(white));
    assert_eq!(head.get_pixel(1, 2), Some(white));
}

#[test]
fn cube_head_mixes_a_translucent_face_with_what_is_under_it() {
    let glass = px(20, 40, 60, 100);
    let head = to_3d_head(2, &vec![Image::from_pixel(2, 2, glass)]);
    assert_eq!(head.get_pixel(1, 1), Some(mixed(px(255, 255, 255, 255), glass)));
}

#[test]
fn cube_head_keeps_no_trace_of_transparent_faces() {
    let face = texture(8, 8, |x, y| px(x as u8, y as u8, 5, if (x + y) % 3 == 0 { 0 } else { 255 }));
    let other = texture(8, 8, |x, y| px(y as u8, x as u8, 6, if x < 4 { 255 } else { 90 }));
    let unseen = texture(8, 8, |x, y| px(x as u8 + 50, y as u8 + 50, 77, 0));

    let shown = to_3d_head(8, &vec![face, other]);

    let face = texture(8, 8, |x, y| px(x as u8, y as u8, 5, if (x + y) % 3 == 0 { 0 } else { 255 }));
    let other = texture(8, 8, |x, y| px(y as u8, x as u8, 6, if x < 4 { 255 } else { 90 }));
    let again = texture(8, 8, |x, y| px(x as u8 + 50, y as u8 + 50, 77, 0));
    let all = to_3d_head(8, &vec![face, other, unseen, Image::new(8, 8), again, Image::new(0, 0)]);

    assert_eq!(all.into_raw(), shown.into_raw());
}

#[test]
fn cube_head_is_the_same_on_every_run() {
    let layers = vec![
        texture(8, 8, |x, y| px(x as u8, y as u8, 5, (x * 30) as u8)),
        texture(8, 8, |x, y| px(y as u8, x as u8, 6, (y * 30) as u8)),
    ];
    assert_eq!(to_3d_head(8, &layers).into_raw(), to_3d_head(8, &layers).into_raw());
}
