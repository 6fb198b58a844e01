//! The plan of the isometric head: which section of the texture becomes
//! which face, where on the canvas it goes and in what shape, and in what
//! order the faces are drawn.
//!
//! Every number of the plan is held exactly, as whole numbers and decimal
//! constants; none is rounded here.

use crate::render::SECTION_SIZE;
use vstd::prelude::*;

verus! {

/// The side of the isometric head in pixels.
pub const HEAD_SIZE: u32 = 128;

/// The side of the canvas on which the face positions were calibrated.
pub const REFERENCE_SIZE: i32 = 256;

/// A face is scaled by one `SCALE_DIVISOR`-th of the canvas side, rounded down.
pub const SCALE_DIVISOR: u32 = 20;

/// The denominator that the entries of the three matrices share.
pub const SKEW_DENOMINATOR: i32 = 45;

/// The smaller skew, in `SKEW_DENOMINATOR`-ths.
pub const SKEW_A: i32 = 26;

/// The larger skew, twice the smaller, in `SKEW_DENOMINATOR`-ths.
pub const SKEW_B: i32 = 2 * SKEW_A;

/// The three shapes that a flat face takes on the canvas: each matrix skews
/// the square of a section into the parallelogram of one pair of faces.
#[derive(Clone, Copy, Debug, PartialEq, Eq, Structural)]
pub enum MatrixTemplate {
    /// The top and the bottom of the cube.
    TopBottom,
    /// The front and the back of the cube.
    FrontBack,
    /// The right and the left of the cube.
    RightLeft,
}

impl MatrixTemplate {
    /// The nine entries of the matrix, row by row, each multiplied by
    /// `SKEW_DENOMINATOR`.
    pub open spec fn entries(self) -> Seq<i32> {
        match self {
            MatrixTemplate::TopBottom => seq![
                SKEW_DENOMINATOR, SKEW_DENOMINATOR, 0i32,
                (-SKEW_A) as i32, SKEW_A, 0i32,
                0i32, 0i32, SKEW_DENOMINATOR,
            ],
            MatrixTemplate::FrontBack => seq![
                SKEW_DENOMINATOR, 0i32, 0i32,
                (-SKEW_A) as i32, SKEW_B, SKEW_A,
                0i32, 0i32, SKEW_DENOMINATOR,
            ],
            MatrixTemplate::RightLeft => seq![
                SKEW_DENOMINATOR, 0i32, 0i32,
                SKEW_A, SKEW_B, 0i32,
                0i32, 0i32, SKEW_DENOMINATOR,
            ],
        }
    }

    /// The nine entries of the matrix, row by row, each multiplied by
    /// `SKEW_DENOMINATOR`: the last row is always `0 0 1`, the first gives the
    /// canvas column and the second the canvas row.
    pub fn numerators(&self) -> (m: [i32; 9])
        ensures
            m@ == self.entries(),
    {
        let m: [i32; 9] = match self {
            MatrixTemplate::TopBottom => [
                SKEW_DENOMINATOR, SKEW_DENOMINATOR, 0,
                -SKEW_A, SKEW_A, 0,
                0, 0, SKEW_DENOMINATOR,
            ],
            MatrixTemplate::FrontBack => [
                SKEW_DENOMINATOR, 0, 0,
                -SKEW_A, SKEW_B, SKEW_A,
                0, 0, SKEW_DENOMINATOR,
            ],
            MatrixTemplate::RightLeft => [
                SKEW_DENOMINATOR, 0, 0,
                SKEW_A, SKEW_B, 0,
                0, 0, SKEW_DENOMINATOR,
            ],
        };
        m
    }
}

/// A factor written as the quotient of two decimal constants. Every constant
/// of the calibration has at most one decimal digit, so each is held exactly
/// as a count of tenths: the factor is `(num_tenths / 10) / (den_tenths / 10)`.
#[derive(Clone, Copy, Debug, PartialEq, Eq, Structural)]
pub struct Factor {
    pub num_tenths: i32,
    pub den_tenths: i32,
}

/// The factor one.
pub open spec fn unit() -> Factor {
    Factor { num_tenths: 10, den_tenths: 10 }
}

/// The part `tenths / 10` of the `REFERENCE_SIZE` units of the reference
/// canvas.
pub open spec fn of_reference(tenths: int) -> Factor {
    Factor { num_tenths: tenths as i32, den_tenths: (10 * REFERENCE_SIZE) as i32 }
}

/// By how much the faces of the outer layer are larger than those of the
/// base layer: nine eighths.
pub open spec fn outer_scale() -> Factor {
    Factor { num_tenths: 90, den_tenths: 80 }
}

/// One draw operation of the isometric head: which section of the texture
/// goes where on the canvas, and in what shape. `effective_transform` tells
/// the transform that the placement stands for.
#[derive(Clone, Copy, Debug, PartialEq, Eq, Structural)]
pub struct SectionPlacement {
    /// Side of the destination canvas.
    pub size: u32,
    /// Column of the section on the texture's grid.
    pub x: u32,
    /// Row of the section on the texture's grid.
    pub y: u32,
    /// Shape of the face on the canvas.
    pub matrix: MatrixTemplate,
    /// Horizontal translation, as a part of `size`.
    pub translate_x: Factor,
    /// Vertical translation, as a part of `size`.
    pub translate_y: Factor,
    /// Correction of the horizontal translation for the larger outer layer.
    pub adjust_x: Factor,
    /// Correction of the vertical translation for the larger outer layer.
    pub adjust_y: Factor,
    /// Scale of a face of the base layer: `size / SCALE_DIVISOR`, rounded down.
    pub scale: u32,
    /// Enlargement of the face against one of the base layer.
    pub enlarge: Factor,
    /// Whether the face is mirrored horizontally.
    pub flip: bool,
}

/// A number written as a product: `whole * by * then_by`.
#[derive(Clone, Copy, Debug, PartialEq, Eq, Structural)]
pub struct Quantity {
    pub whole: u32,
    pub by: Factor,
    pub then_by: Factor,
}

/// One factor of the transform of a face.
#[derive(Clone, Copy, Debug, PartialEq, Eq, Structural)]
pub enum Transform {
    /// One of the three fixed matrices.
    Matrix(MatrixTemplate),
    /// A translation by `(x, y)`.
    Translate { x: Quantity, y: Quantity },
    /// A scaling by `(x, y)`.
    Scale { x: Quantity, y: Quantity },
}

/// The factor minus one, which mirrors.
pub open spec fn mirror() -> Factor {
    Factor { num_tenths: (-10) as i32, den_tenths: 10 }
}

impl SectionPlacement {
    /// The transform that maps the section onto the canvas, as the three
    /// matrices whose product it is, in the order of the product: the matrix
    /// of the face, then the translation by
    /// `(size * translate_x * adjust_x, size * translate_y * adjust_y)`, then
    /// the scaling by `scale * enlarge` in both directions, mirrored
    /// horizontally if `flip` is set. The translation is thus applied in the
    /// skewed frame of the face, not on the canvas.
    pub open spec fn effective_transform(self) -> Seq<Transform> {
        seq![
            Transform::Matrix(self.matrix),
            Transform::Translate {
                x: Quantity { whole: self.size, by: self.translate_x, then_by: self.adjust_x },
                y: Quantity { whole: self.size, by: self.translate_y, then_by: self.adjust_y },
            },
            Transform::Scale {
                x: Quantity {
                    whole: self.scale,
                    by: self.enlarge,
                    then_by: if self.flip {
                        mirror()
                    } else {
                        unit()
                    },
                },
                y: Quantity { whole: self.scale, by: self.enlarge, then_by: unit() },
            },
        ]
    }

    /// The three matrices whose product, taken in their order, maps the
    /// section onto the canvas.
    pub fn transforms(&self) -> (steps: [Transform; 3])
        ensures
            steps@ == self.effective_transform(),
    {
        let one = Factor { num_tenths: 10, den_tenths: 10 };
        let sideways = if self.flip {
            Factor { num_tenths: -10, den_tenths: 10 }
        } else {
            one
        };
        let steps = [
            Transform::Matrix(self.matrix),
            Transform::Translate {
                x: Quantity { whole: self.size, by: self.translate_x, then_by: self.adjust_x },
                y: Quantity { whole: self.size, by: self.translate_y, then_by: self.adjust_y },
            },
            Transform::Scale {
                x: Quantity { whole: self.scale, by: self.enlarge, then_by: sideways },
                y: Quantity { whole: self.scale, by: self.enlarge, then_by: one },
            },
        ];
        steps
    }
}

/// The placement of section `(x, y)` on a canvas of side `size`.
pub open spec fn placed(
    size: u32,
    x: u32,
    y: u32,
    matrix: MatrixTemplate,
    translate_x: Factor,
    translate_y: Factor,
    adjust_x: Factor,
    adjust_y: Factor,
    enlarge: Factor,
    flip: bool,
) -> SectionPlacement {
    SectionPlacement {
        size,
        x,
        y,
        matrix,
        translate_x,
        translate_y,
        adjust_x,
        adjust_y,
        scale: size / SCALE_DIVISOR,
        enlarge,
        flip,
    }
}

/// The nine faces of the isometric head on a canvas of side `size`, in the
/// order in which they are drawn. First come the three faces that lie behind
/// the head (left, back, bottom), at the larger scale of the outer layer; then
/// the three near faces of the base layer (top, front, right); last the three
/// near faces of the outer layer (front, right, top), whose translations are
/// corrected for their larger scale.
pub open spec fn head_plan(size: u32) -> Seq<SectionPlacement> {
    let narrow = Factor { num_tenths: 80, den_tenths: 81 };
    let widen = Factor { num_tenths: 81, den_tenths: 80 };
    let lower = Factor { num_tenths: 80, den_tenths: 90 };
    seq![
        placed(size, 6, 1, MatrixTemplate::RightLeft, of_reference(2310), of_reference(-560),
            narrow, unit(), outer_scale(), true),
        placed(size, 7, 1, MatrixTemplate::FrontBack, of_reference(260), of_reference(700),
            unit(), unit(), outer_scale(), false),
        placed(size, 6, 0, MatrixTemplate::TopBottom, of_reference(-1450), of_reference(1770),
            unit(), unit(), outer_scale(), false),
        placed(size, 1, 0, MatrixTemplate::TopBottom, of_reference(-400), of_reference(830),
            unit(), unit(), unit(), false),
        placed(size, 1, 1, MatrixTemplate::FrontBack, of_reference(1325), of_reference(1775),
            unit(), unit(), unit(), false),
        placed(size, 2, 1, MatrixTemplate::RightLeft, of_reference(1210), of_reference(520),
            unit(), unit(), unit(), true),
        placed(size, 5, 1, MatrixTemplate::FrontBack, of_reference(1325), of_reference(1775),
            widen, unit(), outer_scale(), false),
        placed(size, 4, 1, MatrixTemplate::RightLeft, of_reference(260), of_reference(520),
            narrow, unit(), outer_scale(), false),
        placed(size, 5, 0, MatrixTemplate::TopBottom, of_reference(-400), of_reference(830),
            narrow, lower, outer_scale(), false),
    ]
}

/// The part `tenths / 10` of the reference canvas, as a factor of the side.
fn reference(tenths: i32) -> (f: Factor)
    ensures
        f == of_reference(tenths as int),
{
    Factor { num_tenths: tenths, den_tenths: 10 * REFERENCE_SIZE }
}

/// The plan of the isometric head on a canvas of side `size`: one placement
/// for each of its nine faces, in drawing order. A later face hides an earlier
/// one wherever it is opaque.
pub fn head_placements(size: u32) -> (plan: Vec<SectionPlacement>)
    requires
        size % SECTION_SIZE == 0,
    ensures
        plan@ == head_plan(size),
{
    let scale: u32 = size / SCALE_DIVISOR;
    let one = Factor { num_tenths: 10, den_tenths: 10 };
    let outer = Factor { num_tenths: 90, den_tenths: 80 };
    let narrow = Factor { num_tenths: 80, den_tenths: 81 };
    let widen = Factor { num_tenths: 81, den_tenths: 80 };
    let lower = Factor { num_tenths: 80, den_tenths: 90 };
    let mut plan: Vec<SectionPlacement> = Vec::new();
    // left, behind the head
    plan.push(
        SectionPlacement {
            size,
            x: 6,
            y: 1,
            matrix: MatrixTemplate::RightLeft,
            translate_x: reference(2310),
            translate_y: reference(-560),
            adjust_x: narrow,
            adjust_y: one,
            scale,
            enlarge: outer,
            flip: true,
        },
    );
    // back, behind the head
    plan.push(
        SectionPlacement {
            size,
            x: 7,
            y: 1,
            matrix: MatrixTemplate::FrontBack,
            translate_x: reference(260),
            translate_y: reference(700),
            adjust_x: one,
            adjust_y: one,
            scale,
            enlarge: outer,
            flip: false,
        },
    );
    // bottom, behind the head
    plan.push(
        SectionPlacement {
            size,
            x: 6,
            y: 0,
            matrix: MatrixTemplate::TopBottom,
            translate_x: reference(-1450),
            translate_y: reference(1770),
            adjust_x: one,
            adjust_y: one,
            scale,
            enlarge: outer,
            flip: false,
        },
    );
    // top
    plan.push(
        SectionPlacement {
            size,
            x: 1,
            y: 0,
            matrix: MatrixTemplate::TopBottom,
            translate_x: reference(-400),
            translate_y: reference(830),
            adjust_x: one,
            adjust_y: one,
            scale,
            enlarge: one,
            flip: false,
        },
    );
    // front
    plan.push(
        SectionPlacement {
            size,
            x: 1,
            y: 1,
            matrix: MatrixTemplate::FrontBack,
            translate_x: reference(1325),
            translate_y: reference(1775),
            adjust_x: one,
            adjust_y: one,
            scale,
            enlarge: one,
            flip: false,
        },
    );
    // right
    plan.push(
        SectionPlacement {
            size,
            x: 2,
            y: 1,
            matrix: MatrixTemplate::RightLeft,
            translate_x: reference(1210),
            translate_y: reference(520),
            adjust_x: one,
            adjust_y: one,
            scale,
            enlarge: one,
            flip: true,
        },
    );
    // front of the outer layer
    plan.push(
        SectionPlacement {
            size,
            x: 5,
            y: 1,
            matrix: MatrixTemplate::FrontBack,
            translate_x: reference(1325),
            translate_y: reference(1775),
            adjust_x: widen,
            adjust_y: one,
            scale,
            enlarge: outer,
            flip: false,
        },
    );
    // right of the outer layer
    plan.push(
        SectionPlacement {
            size,
            x: 4,
            y: 1,
            matrix: MatrixTemplate::RightLeft,
            translate_x: reference(260),
            translate_y: reference(520),
            adjust_x: narrow,
            adjust_y: one,
            scale,
            enlarge: outer,
            flip: false,
        },
    );
    // top of the outer layer
    plan.push(
        SectionPlacement {
            size,
            x: 5,
            y: 0,
            matrix: MatrixTemplate::TopBottom,
            translate_x: reference(-400),
            translate_y: reference(830),
            adjust_x: narrow,
            adjust_y: lower,
            scale,
            enlarge: outer,
            flip: false,
        },
    );
    plan
}

/// Every face of the plan is cut from a section that a texture of 64 by 64
/// pixels holds whole.
pub proof fn lemma_plan_stays_on_texture(size: u32, k: int)
    requires
        0 <= k < head_plan(size).len(),
    ensures
        (head_plan(size)[k].x + 1) * SECTION_SIZE <= 64,
        (head_plan(size)[k].y + 1) * SECTION_SIZE <= 64,
{
}

} // verus!
