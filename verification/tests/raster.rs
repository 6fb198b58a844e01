use image::Pixel;
use msdsmchr::raster::{Image, Rgba};

/// A picture whose pixel at `(x, y)` is `(x, y, x + 10 * y, alpha)`.
fn picture(width: u32, height: u32, alpha: u8) -> Image {
    let mut data = Vec::new();
    for y in 0..height {
        for x in 0..width {
            data.extend_from_slice(&[x as u8, y as u8, (x + 10 * y) as u8, alpha]);
        }
    }
    Image::from_raw(width, height, data).unwrap()
}

fn px(r: u8, g: u8, b: u8, a: u8) -> Rgba {
    Rgba { r, g, b, a }
}

/// What the image crate itself makes of `top` over `bottom`.
fn mixed(bottom: Rgba, top: Rgba) -> Rgba {
    let mut under = image::Rgba([bottom.r, bottom.g, bottom.b, bottom.a]);
    under.blend(&image::Rgba([top.r, top.g, top.b, top.a]));
    px(under.0[0], under.0[1], under.0[2], under.0[3])
}

#[test]
fn from_raw_takes_only_a_buffer_of_the_right_length() {
    assert!(Image::from_raw(2, 2, vec![0; 16]).is_some());
    assert!(Image::from_raw(2, 2, vec![0; 15]).is_none());
    assert!(Image::from_raw(2, 2, vec![0; 17]).is_none());
    assert!(Image::from_raw(0, 5, Vec::new()).is_some());
    assert!(Image::from_raw(0, 5, vec![0; 4]).is_none());
    assert!(Image::from_raw(u32::MAX, u32::MAX, vec![0; 4]).is_none());
}

#[test]
fn get_pixel_reads_row_by_row() {
    let image = picture(3, 2, 255);
    assert_eq!(image.width(), 3);
    assert_eq!(image.height(), 2);
    assert_eq!(image.get_pixel(0, 0), Some(px(0, 0, 0, 255)));
    assert_eq!(image.get_pixel(2, 0), Some(px(2, 0, 2, 255)));
    assert_eq!(image.get_pixel(0, 1), Some(px(0, 1, 10, 255)));
    assert_eq!(image.get_pixel(2, 1), Some(px(2, 1, 12, 255)));
}

#[test]
fn get_pixel_gives_nothing_outside() {
    let image = picture(3, 2, 255);
    assert_eq!(image.get_pixel(3, 0), None);
    assert_eq!(image.get_pixel(0, 2), None);
    assert_eq!(image.get_pixel(u32::MAX, u32::MAX), None);
}

#[test]
fn from_pixel_fills_every_position() {
    let image = Image::from_pixel(4, 3, px(9, 8, 7, 6));
    assert_eq!(image.width(), 4);
    assert_eq!(image.height(), 3);
    for y in 0..3 {
        for x in 0..4 {
            assert_eq!(image.get_pixel(x, y), Some(px(9, 8, 7, 6)));
        }
    }
    assert_eq!(image.as_raw().len(), 48);
}

#[test]
fn new_is_transparent() {
    let image = Image::new(8, 8);
    assert_eq!(image.into_raw(), vec![0u8; 256]);
}

#[test]
fn raw_buffer_comes_back_unchanged() {
    let data: Vec<u8> = (0..24).collect();
    let image = Image::from_raw(3, 2, data.clone()).unwrap();
    assert_eq!(image.as_raw(), &data);
    assert_eq!(image.get_pixel(1, 1), Some(px(16, 17, 18, 19)));
    assert_eq!(image.into_raw(), data);
}

#[test]
fn clone_is_an_equal_image() {
    let image = picture(3, 2, 200);
    let copy = image.clone();
    assert_eq!(copy, image);
    assert_eq!(copy.as_raw(), image.as_raw());
    assert_ne!(copy, picture(3, 2, 201));
    assert_ne!(copy, picture(2, 3, 200));
}

#[test]
fn crop_copies_the_rectangle() {
    let image = picture(6, 5, 255);
    let part = image.crop(2, 1, 3, 2);
    assert_eq!(part.width(), 3);
    assert_eq!(part.height(), 2);
    for j in 0..2 {
        for i in 0..3 {
            assert_eq!(part.get_pixel(i, j), image.get_pixel(2 + i, 1 + j));
        }
    }
    assert_eq!(part.get_pixel(0, 0), Some(px(2, 1, 12, 255)));
}

#[test]
fn crop_is_cut_down_at_the_edges() {
    let image = picture(6, 5, 255);
    let corner = image.crop(4, 3, 8, 8);
    assert_eq!((corner.width(), corner.height()), (2, 2));
    assert_eq!(corner.get_pixel(1, 1), image.get_pixel(5, 4));

    let nothing = image.crop(6, 0, 8, 8);
    assert_eq!(nothing.width(), 0);
    assert_eq!(nothing.height(), 5);
    assert_eq!(nothing.into_raw(), Vec::<u8>::new());

    let far = image.crop(u32::MAX, u32::MAX, u32::MAX, u32::MAX);
    assert_eq!((far.width(), far.height()), (0, 0));

    let whole = image.crop(0, 0, u32::MAX, u32::MAX);
    assert_eq!(whole.as_raw(), image.as_raw());
}

#[test]
fn overlay_with_an_opaque_image_replaces_what_it_covers() {
    let bottom = Image::from_pixel(4, 4, px(1, 2, 3, 255));
    let top = picture(2, 2, 255);
    let out = bottom.overlay(&top, 0, 0);
    assert_eq!((out.width(), out.height()), (4, 4));
    assert_eq!(out.get_pixel(0, 0), Some(px(0, 0, 0, 255)));
    assert_eq!(out.get_pixel(1, 1), Some(px(1, 1, 11, 255)));
    assert_eq!(out.get_pixel(2, 0), Some(px(1, 2, 3, 255)));
    assert_eq!(out.get_pixel(0, 2), Some(px(1, 2, 3, 255)));
    assert_eq!(out.get_pixel(3, 3), Some(px(1, 2, 3, 255)));
}

#[test]
fn overlay_with_a_transparent_image_changes_nothing() {
    let bottom = picture(4, 4, 200);
    let before = bottom.as_raw().clone();
    let top = picture(4, 4, 0);
    let out = bottom.overlay(&top, 0, 0);
    assert_eq!(out.into_raw(), before);
}

#[test]
fn overlay_mixes_a_translucent_pixel_as_the_image_crate_does() {
    let under = px(10, 200, 30, 255);
    let over = px(250, 100, 50, 128);
    let out = Image::from_pixel(1, 1, under).overlay(&Image::from_pixel(1, 1, over), 0, 0);
    let got = out.get_pixel(0, 0).unwrap();
    assert_eq!(got, mixed(under, over));
    assert_ne!(got, under);
    assert_ne!(got, over);

    let faint = px(10, 200, 30, 40);
    let out = Image::from_pixel(1, 1, faint).overlay(&Image::from_pixel(1, 1, over), 0, 0);
    assert_eq!(out.get_pixel(0, 0), Some(mixed(faint, over)));

    let clear = px(0, 0, 0, 0);
    let out = Image::from_pixel(1, 1, clear).overlay(&Image::from_pixel(1, 1, over), 0, 0);
    assert_eq!(out.get_pixel(0, 0), Some(mixed(clear, over)));
}

#[test]
fn overlay_places_the_corner_where_it_is_told() {
    let bottom = Image::from_pixel(4, 4, px(1, 2, 3, 255));
    let top = picture(2, 2, 255);
    let out = bottom.overlay(&top, 2, 1);
    assert_eq!(out.get_pixel(2, 1), Some(px(0, 0, 0, 255)));
    assert_eq!(out.get_pixel(3, 2), Some(px(1, 1, 11, 255)));
    assert_eq!(out.get_pixel(1, 1), Some(px(1, 2, 3, 255)));
    assert_eq!(out.get_pixel(2, 0), Some(px(1, 2, 3, 255)));
    assert_eq!(out.get_pixel(2, 3), Some(px(1, 2, 3, 255)));
}

#[test]
fn overlay_drops_what_falls_outside() {
    let top = picture(3, 3, 255);

    let out = Image::from_pixel(2, 2, px(1, 2, 3, 255)).overlay(&top, -2, -1);
    assert_eq!(out.get_pixel(0, 0), Some(px(2, 1, 12, 255)));
    assert_eq!(out.get_pixel(0, 1), Some(px(2, 2, 22, 255)));
    assert_eq!(out.get_pixel(1, 0), Some(px(1, 2, 3, 255)));
    assert_eq!(out.get_pixel(1, 1), Some(px(1, 2, 3, 255)));

    let out = Image::from_pixel(2, 2, px(1, 2, 3, 255)).overlay(&top, 1, 1);
    assert_eq!(out.get_pixel(1, 1), Some(px(0, 0, 0, 255)));
    assert_eq!(out.get_pixel(0, 0), Some(px(1, 2, 3, 255)));

    for (x, y) in [(2, 0), (0, 2), (-3, 0), (0, -3), (i64::MAX, 0), (i64::MIN, i64::MIN)] {
        let out = Image::from_pixel(2, 2, px(1, 2, 3, 255)).overlay(&top, x, y);
        assert_eq!(out.into_raw(), vec![1, 2, 3, 255, 1, 2, 3, 255, 1, 2, 3, 255, 1, 2, 3, 255]);
    }
}

#[test]
fn overlay_on_or_with_a_wide_image_without_rows() {
    for width in [1, 0x3fff_ffff, 0x4000_0000, 0x8000_0000, u32::MAX] {
        let rowless = Image::from_raw(width, 0, Vec::new()).unwrap();

        let out = Image::from_pixel(2, 1, px(1, 2, 3, 4)).overlay(&rowless, 0, 0);
        assert_eq!(out.into_raw(), vec![1, 2, 3, 4, 1, 2, 3, 4]);

        let out = rowless.clone().overlay(&Image::from_pixel(2, 1, px(1, 2, 3, 255)), 0, 0);
        assert_eq!(out, rowless);

        let out = rowless.clone().overlay(&rowless, -1, 1);
        assert_eq!((out.width(), out.height()), (width, 0));
        assert_eq!(out.into_raw(), Vec::<u8>::new());
    }
}

#[test]
fn overlay_on_or_with_an_empty_image() {
    let empty = Image::new(0, 0);
    let out = Image::from_pixel(2, 1, px(1, 2, 3, 4)).overlay(&empty, 0, 0);
    assert_eq!(out.into_raw(), vec![1, 2, 3, 4, 1, 2, 3, 4]);
    let out = Image::new(0, 0).overlay(&Image::from_pixel(2, 1, px(1, 2, 3, 4)), 0, 0);
    assert_eq!((out.width(), out.height()), (0, 0));
}
