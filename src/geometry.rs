use vstd::prelude::*;

verus! {

/// One unit in the 16.16 fixed-point scalars used by transforms.
pub const FIXED_ONE: i32 = 65536;

/// A packed ARGB colour, eight bits per channel, alpha in the top byte.
#[derive(Clone, Copy, Debug, PartialEq, Eq, Structural)]
pub struct Color {
    pub argb: u32,
}

/// The packed value of an opaque colour with the given channels.
pub open spec fn argb_of(a: u8, r: u8, g: u8, b: u8) -> int {
    a as int * 0x100_0000 + r as int * 0x1_0000 + g as int * 0x100 + b as int
}

/// Opaque red.
pub const RED_ARGB: u32 = 0xFFFF_0000;

impl Color {
    pub open spec fn from_rgb_spec(r: u8, g: u8, b: u8) -> Color {
        Color { argb: argb_of(0xff, r, g, b) as u32 }
    }

    /// An opaque colour from its red, green and blue channels.
    pub fn from_rgb(r: u8, g: u8, b: u8) -> (c: Color)
        ensures
            c.argb == argb_of(0xff, r, g, b),
            c == Color::from_rgb_spec(r, g, b),
    {
        Color { argb: 0xFF00_0000u32 + (r as u32) * 0x1_0000 + (g as u32) * 0x100 + b as u32 }
    }

    /// Opaque red, the fill used for shapes of a scene.
    pub fn red() -> (c: Color)
        ensures
            c.argb == argb_of(0xff, 0xff, 0, 0),
    {
        Color { argb: RED_ARGB }
    }
}

/// An axis-aligned rectangle given by its corners, in whole pixels.
#[derive(Clone, Copy, Debug, PartialEq, Eq, Structural)]
pub struct Rect {
    pub left: i32,
    pub top: i32,
    pub right: i32,
    pub bottom: i32,
}

impl Rect {
    pub fn new(left: i32, top: i32, right: i32, bottom: i32) -> (r: Rect)
        ensures
            r == (Rect { left, top, right, bottom }),
    {
        Rect { left, top, right, bottom }
    }
}

/// A pair of 16.16 fixed-point scalars.
#[derive(Clone, Copy, Debug, PartialEq, Eq, Structural)]
pub struct Vector2 {
    pub x: i32,
    pub y: i32,
}

/// An affine transform; every entry is a 16.16 fixed-point scalar.
///
/// A point `(x, y)` maps to
/// `(scale_x * x + skew_x * y + trans_x, skew_y * x + scale_y * y + trans_y)`.
#[derive(Clone, Copy, Debug, PartialEq, Eq, Structural)]
pub struct Matrix {
    pub scale_x: i32,
    pub skew_x: i32,
    pub trans_x: i32,
    pub skew_y: i32,
    pub scale_y: i32,
    pub trans_y: i32,
}

impl Matrix {
    pub open spec fn spec_identity() -> Matrix {
        Matrix {
            scale_x: FIXED_ONE,
            skew_x: 0,
            trans_x: 0,
            skew_y: 0,
            scale_y: FIXED_ONE,
            trans_y: 0,
        }
    }

    pub open spec fn spec_scale_translate(s: Vector2, t: Vector2) -> Matrix {
        Matrix { scale_x: s.x, skew_x: 0, trans_x: t.x, skew_y: 0, scale_y: s.y, trans_y: t.y }
    }

    pub open spec fn spec_translate(dx: i32, dy: i32) -> Matrix {
        Matrix::spec_scale_translate(Vector2 { x: FIXED_ONE, y: FIXED_ONE }, Vector2 { x: dx, y: dy })
    }

    pub open spec fn spec_scale(sx: i32, sy: i32) -> Matrix {
        Matrix::spec_scale_translate(Vector2 { x: sx, y: sy }, Vector2 { x: 0, y: 0 })
    }

    /// Horizontal image of the integer point `(x, y)`, in fixed-point units.
    pub open spec fn map_x(self, x: int, y: int) -> int {
        self.scale_x * x + self.skew_x * y + self.trans_x
    }

    /// Vertical image of the integer point `(x, y)`, in fixed-point units.
    pub open spec fn map_y(self, x: int, y: int) -> int {
        self.skew_y * x + self.scale_y * y + self.trans_y
    }

    pub fn identity() -> (m: Matrix)
        ensures
            m == Matrix::spec_identity(),
    {
        Matrix {
            scale_x: FIXED_ONE,
            skew_x: 0,
            trans_x: 0,
            skew_y: 0,
            scale_y: FIXED_ONE,
            trans_y: 0,
        }
    }

    /// A transform that scales by `s`, then translates by `t`, with no skew.
    pub fn scale_translate(s: Vector2, t: Vector2) -> (m: Matrix)
        ensures
            m == Matrix::spec_scale_translate(s, t),
    {
        Matrix { scale_x: s.x, skew_x: 0, trans_x: t.x, skew_y: 0, scale_y: s.y, trans_y: t.y }
    }

    /// A pure translation by `(dx, dy)`.
    pub fn translate(dx: i32, dy: i32) -> (m: Matrix)
        ensures
            m == Matrix::spec_translate(dx, dy),
    {
        Matrix::scale_translate(Vector2 { x: FIXED_ONE, y: FIXED_ONE }, Vector2 { x: dx, y: dy })
    }

    /// A pure scale by `(sx, sy)`.
    pub fn scale(sx: i32, sy: i32) -> (m: Matrix)
        ensures
            m == Matrix::spec_scale(sx, sy),
    {
        Matrix::scale_translate(Vector2 { x: sx, y: sy }, Vector2 { x: 0, y: 0 })
    }

    /// Sets the horizontal skew entry, leaving the others as they are.
    pub fn set_skew_x(&mut self, v: i32)
        ensures
            *final(self) == (Matrix { skew_x: v, ..*old(self) }),
    {
        self.skew_x = v;
    }

    /// Sets the vertical skew entry, leaving the others as they are.
    pub fn set_skew_y(&mut self, v: i32)
        ensures
            *final(self) == (Matrix { skew_y: v, ..*old(self) }),
    {
        self.skew_y = v;
    }

    /// The image of the integer point `(x, y)`, in fixed-point units.
    pub fn map_point(&self, x: i32, y: i32) -> (p: (i128, i128))
        ensures
            p.0 == self.map_x(x as int, y as int),
            p.1 == self.map_y(x as int, y as int),
    {
        proof {
            lemma_product_bound(self.scale_x as int, x as int);
            lemma_product_bound(self.skew_x as int, y as int);
            lemma_product_bound(self.skew_y as int, x as int);
            lemma_product_bound(self.scale_y as int, y as int);
        }
        let px = (self.scale_x as i128) * (x as i128) + (self.skew_x as i128) * (y as i128)
            + self.trans_x as i128;
        let py = (self.skew_y as i128) * (x as i128) + (self.scale_y as i128) * (y as i128)
            + self.trans_y as i128;
        (px, py)
    }
}

proof fn lemma_product_bound(a: int, b: int)
    requires
        i32::MIN <= a <= i32::MAX,
        i32::MIN <= b <= i32::MAX,
    ensures
        -0x4000_0000_0000_0000 <= a * b <= 0x4000_0000_0000_0000,
{
    assert(-0x4000_0000_0000_0000 <= a * b <= 0x4000_0000_0000_0000) by (nonlinear_arith)
        requires
            -0x8000_0000 <= a <= 0x8000_0000,
            -0x8000_0000 <= b <= 0x8000_0000,
    ;
}

} // verus!
