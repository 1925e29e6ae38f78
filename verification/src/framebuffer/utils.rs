use vstd::prelude::*;

verus! {

/// A pixel position: column, then row.
#[derive(Debug, Clone, Copy, PartialEq, Eq, Structural)]
pub struct Point(pub usize, pub usize);

impl Point {
    pub fn new(x: usize, y: usize) -> (p: Self)
        ensures
            p == Point(x, y),
    {
        Self(x, y)
    }

    /// The position as a `(column, row)` pair.
    pub fn into(self) -> (xy: (usize, usize))
        ensures
            xy == (self.0, self.1),
    {
        (self.0, self.1)
    }
}

/// A colour as red, green and blue intensities.
#[derive(Debug, Clone, Copy, PartialEq, Eq, Structural)]
pub struct Color(pub u8, pub u8, pub u8);

impl Color {
    pub fn new(r: u8, g: u8, b: u8) -> (c: Self)
        ensures
            c == Color(r, g, b),
    {
        Self(r, g, b)
    }

    pub fn r(&self) -> (v: u8)
        ensures
            v == self.0,
    {
        self.0
    }

    pub fn g(&self) -> (v: u8)
        ensures
            v == self.1,
    {
        self.1
    }

    pub fn b(&self) -> (v: u8)
        ensures
            v == self.2,
    {
        self.2
    }

    /// The three channels in red, green, blue order.
    pub fn into(self) -> (rgb: [u8; 3])
        ensures
            rgb@ == seq![self.0, self.1, self.2],
    {
        [self.0, self.1, self.2]
    }
}

/// A position together with the colour to put there.
#[derive(Debug, Clone, Copy, PartialEq, Eq, Structural)]
pub struct Pixel(pub Point, pub Color);

impl Pixel {
    pub fn new(point: Point, color: Color) -> (p: Self)
        ensures
            p == Pixel(point, color),
    {
        Self(point, color)
    }

    pub fn point(&self) -> (p: Point)
        ensures
            p == self.0,
    {
        self.0
    }

    pub fn color(&self) -> (c: Color)
        ensures
            c == self.1,
    {
        self.1
    }
}

} // verus!
