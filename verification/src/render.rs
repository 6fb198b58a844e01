//! The two renders of a player head: the flat face and the isometric cube.

use crate::placement::{head_placements, head_plan, SectionPlacement};
use crate::raster::{
    blend, cropped_extent, lemma_image_determined, transparent, white, Image, ImageView, Rgba,
};
use vstd::prelude::*;

verus! {

/// How big each "section" on the flat skin texture is, in pixels.
pub const SECTION_SIZE: u32 = 8;

/// The pixel left at `(i, j)` when section `(gx, gy)` of `atlas` is drawn over
/// `under`. Positions of the section that the atlas does not hold are skipped:
/// they are never read.
pub open spec fn section_over(
    under: Rgba,
    atlas: ImageView,
    gx: nat,
    gy: nat,
    i: int,
    j: int,
) -> Rgba {
    if atlas.contains(gx * SECTION_SIZE + i, gy * SECTION_SIZE + j) {
        blend(under, atlas.pixel(gx * SECTION_SIZE + i, gy * SECTION_SIZE + j))
    } else {
        under
    }
}

/// The pixel left at `(i, j)` when `layer` is drawn, corner on corner, over
/// `under`.
pub open spec fn layer_over(under: Rgba, layer: ImageView, i: int, j: int) -> Rgba {
    if layer.contains(i, j) {
        blend(under, layer.pixel(i, j))
    } else {
        under
    }
}

/// Whether `section` is section `(gx, gy)` of `atlas`: the square of
/// `SECTION_SIZE` pixels with its corner at
/// `(gx * SECTION_SIZE, gy * SECTION_SIZE)`, cut down to what the atlas holds.
/// Each of its pixels is the pixel of a position inside the atlas.
pub open spec fn is_section(atlas: ImageView, gx: nat, gy: nat, section: ImageView) -> bool {
    &&& section.width == cropped_extent(
        atlas.width,
        gx * (SECTION_SIZE as nat),
        SECTION_SIZE as nat,
    )
    &&& section.height == cropped_extent(
        atlas.height,
        gy * (SECTION_SIZE as nat),
        SECTION_SIZE as nat,
    )
    &&& section.wf()
    &&& forall|i: int, j: int|
        section.contains(i, j) ==> atlas.contains(gx * SECTION_SIZE + i, gy * SECTION_SIZE + j)
            && #[trigger] section.pixel(i, j) == atlas.pixel(
            gx * SECTION_SIZE + i,
            gy * SECTION_SIZE + j,
        )
}

/// Cuts section `(x, y)` out of the skin texture: the square of
/// `SECTION_SIZE` pixels whose corner is `(x * SECTION_SIZE, y * SECTION_SIZE)`.
/// A section that reaches beyond the texture comes out smaller, or empty.
pub fn crop_section(image: &Image, x: u32, y: u32) -> (r: Image)
    ensures
        is_section(image@, x as nat, y as nat, r@),
{
    proof {
        image.lemma_sides_fit();
    }
    // a corner past the last column or row that a texture can have leaves
    // nothing of the section, whatever the exact corner is
    let left: u32 = match x.checked_mul(SECTION_SIZE) {
        Some(left) => left,
        None => u32::MAX,
    };
    let top: u32 = match y.checked_mul(SECTION_SIZE) {
        Some(top) => top,
        None => u32::MAX,
    };
    image.crop(left, top, SECTION_SIZE, SECTION_SIZE)
}

/// The pixel at `(i, j)` of the flat head: the face of the base layer, with
/// the face of the outer layer drawn over it.
pub open spec fn head_2d_pixel(atlas: ImageView, i: int, j: int) -> Rgba {
    section_over(section_over(transparent(), atlas, 1, 1, i, j), atlas, 5, 1, i, j)
}

/// The flat head of the texture `atlas`: an image of `SECTION_SIZE` by
/// `SECTION_SIZE` pixels that holds `head_2d_pixel` at every position.
pub open spec fn is_flat_head(atlas: ImageView, out: ImageView) -> bool {
    &&& out.width == SECTION_SIZE
    &&& out.height == SECTION_SIZE
    &&& out.wf()
    &&& forall|i: int, j: int|
        0 <= i < SECTION_SIZE && 0 <= j < SECTION_SIZE ==> #[trigger] out.pixel(i, j)
            == head_2d_pixel(atlas, i, j)
}

/// Renders the flat head: an image of `SECTION_SIZE` by `SECTION_SIZE` pixels,
/// transparent at first, on which the front of the head (section (1, 1)) and
/// then the front of the outer layer (section (5, 1)) are drawn.
pub fn to_2d_head(img: &Image) -> (out: Image)
    ensures
        is_flat_head(img@, out@),
{
    let out = Image::new(SECTION_SIZE, SECTION_SIZE);

    let section = crop_section(img, 1, 1);
    let out = out.overlay(&section, 0, 0);

    let section = crop_section(img, 5, 1);
    let out = out.overlay(&section, 0, 0);

    out
}

/// One face of the head, ready to be warped: the section cut from the
/// texture, and where it goes.
#[derive(Debug, PartialEq, Eq)]
pub struct Face {
    pub section: Image,
    pub placement: SectionPlacement,
}

/// The faces of the isometric head of `atlas` on a canvas of side `size`, in
/// drawing order: every placement of the plan, with its section cut out.
pub fn head_faces(atlas: &Image, size: u32) -> (faces: Vec<Face>)
    requires
        size % SECTION_SIZE == 0,
    ensures
        faces@.len() == head_plan(size).len(),
        forall|k: int|
            0 <= k < faces@.len() ==> (#[trigger] faces@[k]).placement == head_plan(size)[k]
                && is_section(
                atlas@,
                head_plan(size)[k].x as nat,
                head_plan(size)[k].y as nat,
                faces@[k].section@,
            ),
{
    let plan = head_placements(size);
    let mut faces: Vec<Face> = Vec::new();
    let mut k: usize = 0;
    while k < plan.len()
        invariant
            k <= plan@.len(),
            plan@ == head_plan(size),
            faces@.len() == k,
            forall|n: int|
                0 <= n < k ==> (#[trigger] faces@[n]).placement == plan@[n] && is_section(
                    atlas@,
                    plan@[n].x as nat,
                    plan@[n].y as nat,
                    faces@[n].section@,
                ),
        decreases plan@.len() - k,
    {
        let placement = plan[k];
        let section = crop_section(atlas, placement.x, placement.y);
        faces.push(Face { section, placement });
        k = k + 1;
    }
    faces
}

/// The values of a row of images.
pub open spec fn views(layers: Seq<Image>) -> Seq<ImageView> {
    layers.map_values(|layer: Image| layer@)
}

/// The pixel at `(i, j)` of a white canvas after the first `count` of
/// `layers` were drawn on it, corner on corner, in their order.
pub open spec fn composite_pixel(layers: Seq<ImageView>, count: nat, i: int, j: int) -> Rgba
    decreases count,
{
    if count == 0 {
        white()
    } else {
        layer_over(
            composite_pixel(layers, (count - 1) as nat, i, j),
            layers[count - 1],
            i,
            j,
        )
    }
}

/// The isometric head made of the warped faces `layers`: an image of `size`
/// by `size` pixels that holds, at every position, what drawing all the layers
/// in their order leaves on white.
pub open spec fn is_cube_head(size: nat, layers: Seq<ImageView>, out: ImageView) -> bool {
    &&& out.width == size
    &&& out.height == size
    &&& out.wf()
    &&& forall|i: int, j: int|
        0 <= i < size && 0 <= j < size ==> #[trigger] out.pixel(i, j) == composite_pixel(
            layers,
            layers.len(),
            i,
            j,
        )
}

/// Assembles the isometric head: a white canvas of `size` by `size` pixels on
/// which the warped faces are drawn one after the other, each over what is
/// already there. `layers` holds one warped face for each entry of the plan of
/// faces, in the plan's order.
pub fn to_3d_head(size: u32, layers: &Vec<Image>) -> (out: Image)
    requires
        size * size * 4 <= usize::MAX,
    ensures
        is_cube_head(size as nat, views(layers@), out@),
{
    let mut out = Image::from_pixel(size, size, Rgba { r: 255, g: 255, b: 255, a: 255 });
    let mut k: usize = 0;
    while k < layers.len()
        invariant
            k <= layers@.len(),
            out@.width == size,
            out@.height == size,
            out@.wf(),
            forall|i: int, j: int|
                0 <= i < size && 0 <= j < size ==> #[trigger] out@.pixel(i, j) == composite_pixel(
                    views(layers@),
                    k as nat,
                    i,
                    j,
                ),
        decreases layers@.len() - k,
    {
        out = out.overlay(&layers[k], 0, 0);
        k = k + 1;
    }
    out
}

/// The flat head is a function of the texture: whatever two runs on one
/// texture return is the same image, pixel for pixel.
pub proof fn lemma_flat_head_is_determined(atlas: ImageView, a: ImageView, b: ImageView)
    requires
        is_flat_head(atlas, a),
        is_flat_head(atlas, b),
    ensures
        a == b,
{
    lemma_image_determined(a, b);
}

/// The isometric head is a function of its warped faces: whatever two runs on
/// the same faces return is the same image, pixel for pixel.
pub proof fn lemma_cube_head_is_determined(
    size: nat,
    layers: Seq<ImageView>,
    a: ImageView,
    b: ImageView,
)
    requires
        is_cube_head(size, layers, a),
        is_cube_head(size, layers, b),
    ensures
        a == b,
{
    lemma_image_determined(a, b);
}

/// Whether `layer` shows nothing at `(i, j)`: it does not reach the position,
/// or its pixel there is fully transparent.
pub open spec fn unseen_at(layer: ImageView, i: int, j: int) -> bool {
    layer.contains(i, j) ==> layer.pixel(i, j).a == 0
}

/// What the first `count` layers leave at a position depends on those layers
/// alone.
pub proof fn lemma_composite_agrees(
    a: Seq<ImageView>,
    b: Seq<ImageView>,
    count: nat,
    i: int,
    j: int,
)
    requires
        count <= a.len(),
        count <= b.len(),
        forall|n: int| 0 <= n < count ==> a[n] == b[n],
    ensures
        composite_pixel(a, count, i, j) == composite_pixel(b, count, i, j),
    decreases count,
{
    if count > 0 {
        lemma_composite_agrees(a, b, (count - 1) as nat, i, j);
    }
}

/// Draw order: a layer that shows nothing at a position can be left out
/// without a trace; the canvas holds the very pixel there that it holds when
/// the layer was never drawn.
pub proof fn lemma_unseen_layer_leaves_no_trace(layers: Seq<ImageView>, k: int, i: int, j: int)
    requires
        0 <= k < layers.len(),
        unseen_at(layers[k], i, j),
    ensures
        composite_pixel(layers, layers.len(), i, j) == composite_pixel(
            layers.remove(k),
            (layers.len() - 1) as nat,
            i,
            j,
        ),
{
    lemma_unseen_layer_skipped(layers, k, layers.len(), i, j);
}

/// The first `count` layers, of which layer `k` shows nothing, leave what the
/// same layers without layer `k` leave.
proof fn lemma_unseen_layer_skipped(layers: Seq<ImageView>, k: int, count: nat, i: int, j: int)
    requires
        0 <= k < count <= layers.len(),
        unseen_at(layers[k], i, j),
    ensures
        composite_pixel(layers, count, i, j) == composite_pixel(
            layers.remove(k),
            (count - 1) as nat,
            i,
            j,
        ),
    decreases count,
{
    if count == k + 1 {
        lemma_composite_agrees(layers, layers.remove(k), k as nat, i, j);
    } else {
        lemma_unseen_layer_skipped(layers, k, (count - 1) as nat, i, j);
    }
}

/// Draw order on the isometric head: when the six faces of the outer layer
/// (the first three and the last three of the nine) are transparent all over,
/// the head is, pixel for pixel, the head drawn from the three faces of the
/// base layer alone.
pub proof fn lemma_transparent_outer_layer(
    size: nat,
    layers: Seq<ImageView>,
    whole: ImageView,
    bare: ImageView,
)
    requires
        layers.len() == 9,
        is_cube_head(size, layers, whole),
        is_cube_head(size, layers.subrange(3, 6), bare),
        forall|k: int, i: int, j: int|
            (0 <= k < 3 || 6 <= k < 9) ==> #[trigger] unseen_at(layers[k], i, j),
    ensures
        whole == bare,
{
    let base = layers.subrange(3, 6);
    assert forall|x: int, y: int| whole.contains(x, y) implies whole.pixel(x, y) == bare.pixel(
        x,
        y,
    ) by {
        // the six faces of the outer layer go one by one, the last first
        let without_8 = layers.remove(8);
        let without_7 = without_8.remove(7);
        let without_6 = without_7.remove(6);
        let without_2 = without_6.remove(2);
        let without_1 = without_2.remove(1);
        lemma_unseen_layer_leaves_no_trace(layers, 8, x, y);
        lemma_unseen_layer_leaves_no_trace(without_8, 7, x, y);
        lemma_unseen_layer_leaves_no_trace(without_7, 6, x, y);
        lemma_unseen_layer_leaves_no_trace(without_6, 2, x, y);
        lemma_unseen_layer_leaves_no_trace(without_2, 1, x, y);
        lemma_unseen_layer_leaves_no_trace(without_1, 0, x, y);
        assert(without_1.remove(0) =~= base);
    }
    lemma_image_determined(whole, bare);
}

/// The pixel at `(i, j)` of the flat head when the outer layer is left out.
pub open spec fn bare_head_2d_pixel(atlas: ImageView, i: int, j: int) -> Rgba {
    section_over(transparent(), atlas, 1, 1, i, j)
}

/// Draw order on the flat head: where the outer layer is transparent, or the
/// texture has none, the head shows the very pixel that it shows without the
/// outer layer.
pub proof fn lemma_unseen_outer_face(atlas: ImageView, i: int, j: int)
    requires
        atlas.contains(5 * SECTION_SIZE + i, SECTION_SIZE + j) ==> atlas.pixel(
            5 * SECTION_SIZE + i,
            SECTION_SIZE + j,
        ).a == 0,
    ensures
        head_2d_pixel(atlas, i, j) == bare_head_2d_pixel(atlas, i, j),
{
}

/// The flat head of `atlas` without its outer layer: an image of
/// `SECTION_SIZE` by `SECTION_SIZE` pixels that holds `bare_head_2d_pixel` at
/// every position.
pub open spec fn is_bare_flat_head(atlas: ImageView, out: ImageView) -> bool {
    &&& out.width == SECTION_SIZE
    &&& out.height == SECTION_SIZE
    &&& out.wf()
    &&& forall|i: int, j: int|
        0 <= i < SECTION_SIZE && 0 <= j < SECTION_SIZE ==> #[trigger] out.pixel(i, j)
            == bare_head_2d_pixel(atlas, i, j)
}

/// Draw order on the flat head: when the face of the outer layer is
/// transparent all over, or the texture has none, the head is, pixel for
/// pixel, the head drawn without the outer layer.
pub proof fn lemma_transparent_outer_face(atlas: ImageView, whole: ImageView, bare: ImageView)
    requires
        is_flat_head(atlas, whole),
        is_bare_flat_head(atlas, bare),
        forall|i: int, j: int|
            0 <= i < SECTION_SIZE && 0 <= j < SECTION_SIZE && atlas.contains(
                5 * SECTION_SIZE + i,
                SECTION_SIZE + j,
            ) ==> (#[trigger] atlas.pixel(5 * SECTION_SIZE + i, SECTION_SIZE + j)).a == 0,
    ensures
        whole == bare,
{
    assert forall|x: int, y: int| whole.contains(x, y) implies whole.pixel(x, y) == bare.pixel(
        x,
        y,
    ) by {
        lemma_unseen_outer_face(atlas, x, y);
    }
    lemma_image_determined(whole, bare);
}

/// Where the face of the base layer is opaque and the outer layer shows
/// nothing, the flat head holds the pixel of the texture itself.
pub proof fn lemma_flat_head_shows_face(atlas: ImageView, i: int, j: int)
    requires
        atlas.contains(SECTION_SIZE + i, SECTION_SIZE + j),
        atlas.pixel(SECTION_SIZE + i, SECTION_SIZE + j).a == 255,
        atlas.contains(5 * SECTION_SIZE + i, SECTION_SIZE + j) ==> atlas.pixel(
            5 * SECTION_SIZE + i,
            SECTION_SIZE + j,
        ).a == 0,
    ensures
        head_2d_pixel(atlas, i, j) == atlas.pixel(SECTION_SIZE + i, SECTION_SIZE + j),
{
}

} // verus!
