//! RGBA pixel buffers: the value every render reads from and draws on.

use vstd::prelude::*;

verus! {

/// One pixel: red, green, blue and alpha, eight bits each.
#[derive(Clone, Copy, Debug, PartialEq, Eq, Structural)]
pub struct Rgba {
    pub r: u8,
    pub g: u8,
    pub b: u8,
    pub a: u8,
}

/// The pixel that covers nothing: every channel zero.
pub open spec fn transparent() -> Rgba {
    Rgba { r: 0, g: 0, b: 0, a: 0 }
}

/// Opaque white, the background of the isometric render.
pub open spec fn white() -> Rgba {
    Rgba { r: 255, g: 255, b: 255, a: 255 }
}

/// Pixel number `k` of a raw buffer that stores four bytes per pixel.
pub open spec fn pixel_of(bytes: Seq<u8>, k: int) -> Rgba {
    Rgba { r: bytes[4 * k], g: bytes[4 * k + 1], b: bytes[4 * k + 2], a: bytes[4 * k + 3] }
}

/// The raw buffer of a sequence of pixels: four bytes per pixel, in order.
pub open spec fn flatten(pixels: Seq<Rgba>) -> Seq<u8> {
    Seq::new(
        4 * pixels.len(),
        |i: int|
            if i % 4 == 0 {
                pixels[i / 4].r
            } else if i % 4 == 1 {
                pixels[i / 4].g
            } else if i % 4 == 2 {
                pixels[i / 4].b
            } else {
                pixels[i / 4].a
            },
    )
}

/// The pixels of a raw buffer, one for every four bytes.
pub open spec fn unflatten(bytes: Seq<u8>) -> Seq<Rgba> {
    Seq::new((bytes.len() / 4) as nat, |k: int| pixel_of(bytes, k))
}

/// The mathematical value of an image: its size and its pixels, row by row.
pub struct ImageView {
    pub width: nat,
    pub height: nat,
    pub pixels: Seq<Rgba>,
}

impl ImageView {
    /// There is exactly one pixel for every position.
    pub open spec fn wf(self) -> bool {
        self.pixels.len() == self.width * self.height
    }

    /// Whether `(x, y)` is a position of the image.
    pub open spec fn contains(self, x: int, y: int) -> bool {
        0 <= x < self.width && 0 <= y < self.height
    }

    /// The pixel in column `x` of row `y`.
    pub open spec fn pixel(self, x: int, y: int) -> Rgba {
        self.pixels[y * self.width + x]
    }
}

/// The pixel in column `x` of row `y` of a raw buffer with `width` columns.
pub open spec fn raw_pixel(bytes: Seq<u8>, width: int, x: int, y: int) -> Rgba {
    pixel_of(bytes, y * width + x)
}

/// What alpha compositing makes of a `top` pixel that is neither fully
/// transparent nor fully opaque, drawn over `bottom`.
pub uninterp spec fn blend_translucent(bottom: Rgba, top: Rgba) -> Rgba;

/// The pixel that results from drawing `top` over `bottom`: a transparent
/// `top` leaves `bottom` as it is, an opaque one replaces it, and anything
/// between mixes the two.
pub open spec fn blend(bottom: Rgba, top: Rgba) -> Rgba {
    if top.a == 0 {
        bottom
    } else if top.a == 255 {
        top
    } else {
        blend_translucent(bottom, top)
    }
}

/// The pixel at `(i, j)` of `bottom` after `top` was drawn over it with its
/// corner at `(x, y)`: blended where `top` covers the position, untouched
/// elsewhere.
pub open spec fn overlaid_pixel(
    bottom: ImageView,
    top: ImageView,
    x: int,
    y: int,
    i: int,
    j: int,
) -> Rgba {
    if top.contains(i - x, j - y) {
        blend(bottom.pixel(i, j), top.pixel(i - x, j - y))
    } else {
        bottom.pixel(i, j)
    }
}

/// Row-major positions fall inside the buffer.
proof fn lemma_position_in_range(width: int, height: int, x: int, y: int)
    requires
        0 <= x < width,
        0 <= y < height,
    ensures
        0 <= y * width,
        0 <= y * width + x < width * height,
{
    assert(y * width >= 0) by (nonlinear_arith)
        requires
            y >= 0,
            width > 0,
    ;
    assert((y + 1) * width <= height * width) by (nonlinear_arith)
        requires
            0 <= y + 1 <= height,
            width > 0,
    ;
    assert((y + 1) * width == y * width + width) by (nonlinear_arith);
    assert(height * width == width * height) by (nonlinear_arith);
}

/// Row-major order: a position in an earlier row, or earlier in the same row,
/// comes earlier in the buffer.
proof fn lemma_row_major_order(width: int, x1: int, y1: int, x2: int, y2: int)
    requires
        0 <= x1 < width,
        0 <= y1,
        0 <= x2,
        y1 < y2 || (y1 == y2 && x1 < x2),
    ensures
        0 <= y1 * width + x1 < y2 * width + x2,
{
    assert(0 <= y1 * width) by (nonlinear_arith)
        requires
            0 <= y1,
            0 < width,
    ;
    if y1 < y2 {
        assert((y1 + 1) * width <= y2 * width) by (nonlinear_arith)
            requires
                y1 + 1 <= y2,
                0 < width,
        ;
        assert((y1 + 1) * width == y1 * width + width) by (nonlinear_arith);
    }
}

/// How much of a wanted extent is left when a rectangle that starts at
/// `start` is cut down to an image that is `full` wide (or high).
pub open spec fn cropped_extent(full: nat, start: nat, wanted: nat) -> nat {
    if start >= full {
        0
    } else if wanted <= full - start {
        wanted
    } else {
        (full - start) as nat
    }
}

/// Every place in a buffer of `width * height` pixels is the row-major
/// position of one column and one row.
proof fn lemma_position_of_index(width: int, height: int, k: int)
    requires
        0 <= k < width * height,
        0 < width,
    ensures
        0 <= k % width < width,
        0 <= k / width < height,
        k == (k / width) * width + k % width,
{
    vstd::arithmetic::div_mod::lemma_fundamental_div_mod(k, width);
    vstd::arithmetic::div_mod::lemma_mod_bound(k, width);
    let row = k / width;
    assert(row * width == width * row) by (nonlinear_arith);
    assert(0 <= row) by (nonlinear_arith)
        requires
            0 <= k,
            0 < width,
            row == k / width,
    ;
    assert(row < height) by (nonlinear_arith)
        requires
            row * width <= k,
            k < width * height,
            0 < width,
    ;
}

/// An image is what its size and the pixels at its positions are: two well
/// formed images of one size that agree at every position are the same.
pub proof fn lemma_image_determined(a: ImageView, b: ImageView)
    requires
        a.wf(),
        b.wf(),
        a.width == b.width,
        a.height == b.height,
        forall|x: int, y: int| a.contains(x, y) ==> a.pixel(x, y) == b.pixel(x, y),
    ensures
        a == b,
{
    assert forall|k: int| 0 <= k < a.pixels.len() implies a.pixels[k] == b.pixels[k] by {
        if a.width > 0 {
            lemma_position_of_index(a.width as int, a.height as int, k);
            let x = k % (a.width as int);
            let y = k / (a.width as int);
            assert(a.contains(x, y));
        } else {
            assert(a.width * a.height == 0) by (nonlinear_arith)
                requires
                    a.width == 0,
            ;
        }
    }
    assert(a.pixels =~= b.pixels);
}

/// The bytes of one row are no more than the bytes of an image that has a
/// row.
proof fn lemma_row_fits(width: int, height: int)
    requires
        0 <= width,
        1 <= height,
    ensures
        4 * width <= width * height * 4,
{
    assert(width <= width * height) by (nonlinear_arith)
        requires
            0 <= width,
            1 <= height,
    ;
}

/// The area of an image whose sides fit in 32 bits fits in 64 bits.
proof fn lemma_area_bound(width: int, height: int)
    requires
        0 <= width <= u32::MAX,
        0 <= height <= u32::MAX,
    ensures
        0 <= width * height <= 0xffff_fffe_0000_0001,
{
    assert(0 <= width * height <= 0xffff_ffff * 0xffff_ffff) by (nonlinear_arith)
        requires
            0 <= width <= 0xffff_ffff,
            0 <= height <= 0xffff_ffff,
    ;
}

/// Alpha compositing of one raw RGBA buffer over another, as
/// `image::imageops::overlay` does it on two `ImageBuffer`s. The result has
/// the size of `bottom`. A position that `top`, placed with its corner at
/// `(x, y)`, does not cover keeps its pixel. A covered one keeps it where the
/// pixel of `top` has alpha 0, takes the pixel of `top` where that has alpha
/// 255, and holds the mix of the two otherwise.
///
/// `ImageBuffer::from_raw` takes a buffer only if four times the width, and
/// that times the height, can be counted in a `usize`, in this order: so the
/// bytes of one row of either image must be countable, even where the image
/// has no rows.
#[verifier::external_body]
fn overlay_raw(
    bottom: Vec<u8>,
    width: u32,
    height: u32,
    top: &Vec<u8>,
    top_width: u32,
    top_height: u32,
    x: i64,
    y: i64,
) -> (r: Vec<u8>)
    requires
        bottom@.len() == width * height * 4,
        top@.len() == top_width * top_height * 4,
        4 * width <= usize::MAX,
        4 * top_width <= usize::MAX,
    ensures
        r@.len() == bottom@.len(),
        (forall|i: int, j: int|
            0 <= i < width && 0 <= j < height ==> #[trigger] raw_pixel(r@, width as int, i, j)
                == (if 0 <= i - x < top_width && 0 <= j - y < top_height {
                let under = raw_pixel(bottom@, width as int, i, j);
                let over = raw_pixel(top@, top_width as int, i - x, j - y);
                if over.a == 0 {
                    under
                } else if over.a == 255 {
                    over
                } else {
                    blend_translucent(under, over)
                }
            } else {
                raw_pixel(bottom@, width as int, i, j)
            })),
{
    let mut canvas = ::image::RgbaImage::from_raw(width, height, bottom).unwrap();
    let layer = ::image::ImageBuffer::<::image::Rgba<u8>, &[u8]>::from_raw(
        top_width,
        top_height,
        top.as_slice(),
    ).unwrap();
    ::image::imageops::overlay(&mut canvas, &layer, x, y);
    canvas.into_raw()
}

/// An owned RGBA image. Its buffer always holds four bytes for each of its
/// `width * height` pixels, row by row.
#[derive(Debug, PartialEq, Eq)]
pub struct Image {
    width: u32,
    height: u32,
    data: Vec<u8>,
}

impl View for Image {
    type V = ImageView;

    closed spec fn view(&self) -> ImageView {
        ImageView {
            width: self.width as nat,
            height: self.height as nat,
            pixels: unflatten(self.data@),
        }
    }
}

impl Clone for Image {
    /// A copy of the image.
    fn clone(&self) -> (r: Image)
        ensures
            r@ == self@,
    {
        proof {
            use_type_invariant(self);
        }
        let data = self.data.clone();
        Image { width: self.width, height: self.height, data }
    }
}

impl Image {
    #[verifier::type_invariant]
    spec fn buffer_fits(self) -> bool {
        self.data@.len() == self.width * self.height * 4
    }

    /// Both sides of an image fit in 32 bits.
    pub proof fn lemma_sides_fit(self)
        ensures
            self@.width <= u32::MAX,
            self@.height <= u32::MAX,
    {
    }

    /// Wraps a raw buffer of `width * height` pixels, four bytes each.
    /// A buffer of any other length is refused.
    pub fn from_raw(width: u32, height: u32, data: Vec<u8>) -> (r: Option<Image>)
        ensures
            r is Some <==> data@.len() == width * height * 4,
            r matches Some(img) ==> img@ == (ImageView {
                width: width as nat,
                height: height as nat,
                pixels: unflatten(data@),
            }) && img@.wf(),
    {
        proof {
            lemma_area_bound(width as int, height as int);
        }
        let wanted: u128 = (width as u128) * (height as u128) * 4;
        if data.len() as u128 == wanted {
            Some(Image { width, height, data })
        } else {
            None
        }
    }

    /// Number of columns.
    pub fn width(&self) -> (w: u32)
        ensures
            w == self@.width,
    {
        self.width
    }

    /// Number of rows.
    pub fn height(&self) -> (h: u32)
        ensures
            h == self@.height,
    {
        self.height
    }

    /// An image of the given size with every pixel equal to `pixel`.
    pub fn from_pixel(width: u32, height: u32, pixel: Rgba) -> (r: Image)
        requires
            width * height * 4 <= usize::MAX,
        ensures
            r@.width == width,
            r@.height == height,
            r@.wf(),
            forall|x: int, y: int| r@.contains(x, y) ==> #[trigger] r@.pixel(x, y) == pixel,
    {
        let count: usize = (width as usize) * (height as usize);
        let mut data: Vec<u8> = Vec::new();
        let mut k: usize = 0;
        while k < count
            invariant
                k <= count,
                count == width * height,
                count * 4 <= usize::MAX,
                data@.len() == 4 * k,
                forall|n: int| 0 <= n < k ==> #[trigger] pixel_of(data@, n) == pixel,
            decreases count - k,
        {
            let ghost filled = data@;
            data.push(pixel.r);
            data.push(pixel.g);
            data.push(pixel.b);
            data.push(pixel.a);
            proof {
                assert forall|n: int| 0 <= n < k + 1 implies #[trigger] pixel_of(data@, n)
                    == pixel by {
                    if n < k {
                        assert(pixel_of(filled, n) == pixel);
                    }
                }
            }
            k = k + 1;
        }
        let r = Image { width, height, data };
        proof {
            assert forall|x: int, y: int| r@.contains(x, y) implies #[trigger] r@.pixel(x, y)
                == pixel by {
                lemma_position_in_range(width as int, height as int, x, y);
            }
        }
        r
    }

    /// A fully transparent image of the given size.
    pub fn new(width: u32, height: u32) -> (r: Image)
        requires
            width * height * 4 <= usize::MAX,
        ensures
            r@.width == width,
            r@.height == height,
            r@.wf(),
            forall|x: int, y: int| r@.contains(x, y) ==> #[trigger] r@.pixel(x, y) == transparent(),
    {
        Image::from_pixel(width, height, Rgba { r: 0, g: 0, b: 0, a: 0 })
    }

    /// The pixel in column `x` of row `y`, or nothing outside the image.
    pub fn get_pixel(&self, x: u32, y: u32) -> (r: Option<Rgba>)
        ensures
            r == if self@.contains(x as int, y as int) {
                Some(self@.pixel(x as int, y as int))
            } else {
                None
            },
    {
        if x < self.width && y < self.height {
            let row: usize = y as usize;
            let columns: usize = self.width as usize;
            proof {
                use_type_invariant(self);
                assert(self.data.len() == self.data@.len());
                lemma_position_in_range(self.width as int, self.height as int, x as int, y as int);
                assert(row * columns == (y as int) * (self.width as int)) by (nonlinear_arith)
                    requires
                        row == y,
                        columns == self.width,
                ;
            }
            let k: usize = row * columns + (x as usize);
            let at: usize = 4 * k;
            Some(
                Rgba {
                    r: self.data[at],
                    g: self.data[at + 1],
                    b: self.data[at + 2],
                    a: self.data[at + 3],
                },
            )
        } else {
            None
        }
    }

    /// Draws `top` over this image with its corner at `(x, y)`; the parts of
    /// `top` that fall outside are dropped.
    pub fn overlay(self, top: &Image, x: i64, y: i64) -> (r: Image)
        ensures
            r@.width == self@.width,
            r@.height == self@.height,
            r@.wf(),
            forall|i: int, j: int|
                self@.contains(i, j) ==> #[trigger] r@.pixel(i, j) == overlaid_pixel(
                    self@,
                    top@,
                    x as int,
                    y as int,
                    i,
                    j,
                ),
    {
        proof {
            use_type_invariant(&self);
            use_type_invariant(top);
        }
        if self.height == 0 || top.height == 0 {
            // an image without rows has nothing to draw, or to draw on
            return self;
        }
        proof {
            assert(self.data.len() == self.data@.len());
            assert(top.data.len() == top.data@.len());
            lemma_row_fits(self.width as int, self.height as int);
            lemma_row_fits(top.width as int, top.height as int);
        }
        let ghost before = self;
        let width = self.width;
        let height = self.height;
        let data = overlay_raw(self.data, width, height, &top.data, top.width, top.height, x, y);
        let r = Image { width, height, data };
        proof {
            assert forall|i: int, j: int| before@.contains(i, j) implies #[trigger] r@.pixel(i, j)
                == overlaid_pixel(before@, top@, x as int, y as int, i, j) by {
                lemma_position_in_range(width as int, height as int, i, j);
                assert(r@.pixel(i, j) == raw_pixel(r.data@, width as int, i, j));
                if top@.contains(i - x, j - y) {
                    lemma_position_in_range(top.width as int, top.height as int, i - x, j - y);
                    assert(top@.pixel(i - x, j - y) == raw_pixel(
                        top.data@,
                        top.width as int,
                        i - x,
                        j - y,
                    ));
                }
            }
        }
        r
    }

    /// A copy of the part of this image that lies inside the rectangle with
    /// corner `(x, y)` and the given size. Where the rectangle reaches beyond
    /// the image it is cut down, so that no position outside is ever read.
    pub fn crop(&self, x: u32, y: u32, width: u32, height: u32) -> (r: Image)
        ensures
            r@.width == cropped_extent(self@.width, x as nat, width as nat),
            r@.height == cropped_extent(self@.height, y as nat, height as nat),
            r@.wf(),
            forall|i: int, j: int|
                r@.contains(i, j) ==> self@.contains(x + i, y + j) && #[trigger] r@.pixel(i, j)
                    == self@.pixel(x + i, y + j),
    {
        proof {
            use_type_invariant(self);
            assert(self.data.len() == self.data@.len());
        }
        let x0: u32 = if x < self.width { x } else { self.width };
        let y0: u32 = if y < self.height { y } else { self.height };
        let w: u32 = if width < self.width - x0 { width } else { self.width - x0 };
        let h: u32 = if height < self.height - y0 { height } else { self.height - y0 };
        let columns: usize = self.width as usize;
        let mut data: Vec<u8> = Vec::new();
        let mut j: u32 = 0;
        while j < h
            invariant
                j <= h,
                x0 + w <= self.width,
                y0 + h <= self.height,
                columns == self.width,
                self.data@.len() == self.width * self.height * 4,
                self.data@.len() <= usize::MAX,
                data@.len() == (j * w) * 4,
                forall|ii: int, jj: int|
                    0 <= ii < w && 0 <= jj < j ==> #[trigger] raw_pixel(data@, w as int, ii, jj)
                        == raw_pixel(self.data@, self.width as int, x0 + ii, y0 + jj),
            decreases h - j,
        {
            let mut i: u32 = 0;
            while i < w
                invariant
                    i <= w,
                    j < h,
                    x0 + w <= self.width,
                    y0 + h <= self.height,
                    columns == self.width,
                    self.data@.len() == self.width * self.height * 4,
                    self.data@.len() <= usize::MAX,
                    data@.len() == (j * w + i) * 4,
                    forall|ii: int, jj: int|
                        0 <= ii < w && 0 <= jj < j ==> #[trigger] raw_pixel(
                            data@,
                            w as int,
                            ii,
                            jj,
                        ) == raw_pixel(self.data@, self.width as int, x0 + ii, y0 + jj),
                    forall|ii: int|
                        0 <= ii < i ==> #[trigger] raw_pixel(data@, w as int, ii, j as int)
                            == raw_pixel(self.data@, self.width as int, x0 + ii, y0 + j),
                decreases w - i,
            {
                let row: usize = (y0 + j) as usize;
                proof {
                    lemma_position_in_range(
                        self.width as int,
                        self.height as int,
                        x0 + i,
                        y0 + j,
                    );
                    assert(row * columns == (y0 + j) * (self.width as int)) by (nonlinear_arith)
                        requires
                            row == y0 + j,
                            columns == self.width,
                    ;
                }
                let at: usize = 4 * (row * columns + (x0 + i) as usize);
                let ghost copied = data@;
                data.push(self.data[at]);
                data.push(self.data[at + 1]);
                data.push(self.data[at + 2]);
                data.push(self.data[at + 3]);
                proof {
                    assert forall|ii: int, jj: int| 0 <= ii < w && 0 <= jj < j implies #[trigger] raw_pixel(
                        data@,
                        w as int,
                        ii,
                        jj,
                    ) == raw_pixel(self.data@, self.width as int, x0 + ii, y0 + jj) by {
                        lemma_row_major_order(w as int, ii, jj, i as int, j as int);
                        assert(raw_pixel(copied, w as int, ii, jj) == raw_pixel(
                            self.data@,
                            self.width as int,
                            x0 + ii,
                            y0 + jj,
                        ));
                    }
                    assert forall|ii: int| 0 <= ii < i + 1 implies #[trigger] raw_pixel(
                        data@,
                        w as int,
                        ii,
                        j as int,
                    ) == raw_pixel(self.data@, self.width as int, x0 + ii, y0 + j) by {
                        if ii < i {
                            lemma_row_major_order(w as int, ii, j as int, i as int, j as int);
                            assert(raw_pixel(copied, w as int, ii, j as int) == raw_pixel(
                                self.data@,
                                self.width as int,
                                x0 + ii,
                                y0 + j,
                            ));
                        }
                    }
                }
                i = i + 1;
            }
            proof {
                assert((j + 1) * w == j * w + w) by (nonlinear_arith);
            }
            j = j + 1;
        }
        proof {
            assert(h * w == w * h) by (nonlinear_arith);
        }
        let r = Image { width: w, height: h, data };
        proof {
            assert forall|i: int, j: int| r@.contains(i, j) implies self@.contains(x + i, y + j)
                && #[trigger] r@.pixel(i, j) == self@.pixel(x + i, y + j) by {
                lemma_position_in_range(w as int, h as int, i, j);
                lemma_position_in_range(self.width as int, self.height as int, x + i, y + j);
                assert(r@.pixel(i, j) == raw_pixel(r.data@, w as int, i, j));
            }
        }
        r
    }

    /// The raw buffer: four bytes per pixel, row by row.
    pub fn as_raw(&self) -> (bytes: &Vec<u8>)
        ensures
            bytes@ == flatten(self@.pixels),
            bytes@.len() == self@.width * self@.height * 4,
    {
        proof {
            use_type_invariant(self);
        }
        &self.data
    }

    /// Gives the raw buffer back: four bytes per pixel, row by row.
    pub fn into_raw(self) -> (bytes: Vec<u8>)
        ensures
            bytes@ == flatten(self@.pixels),
            bytes@.len() == self@.width * self@.height * 4,
    {
        proof {
            use_type_invariant(&self);
        }
        self.data
    }
}

} // verus!
