use vstd::prelude::*;

verus! {

/// Largest magnitude of a configured length (gaps, borders, screen dimensions) that the
/// tiling arithmetic accepts; every intermediate value then fits in an `i32`.
pub const COORD_LIMIT: i32 = 268435456;

/// A hasher for integer keys: the hash of an integer is the integer itself.
#[derive(Debug, Clone, Copy, Default)]
pub struct IdentityHasher(pub usize);

impl IdentityHasher {
    /// The current hash value, the last integer written.
    pub fn value(&self) -> (r: u64)
        ensures
            r == self.0 as u64,
    {
        self.0 as u64
    }
}

/// Byte input is not supported: `write` leaves the state as it is; only `write_u64` and
/// `write_usize` set the hash value.
impl core::hash::Hasher for IdentityHasher {
    fn finish(&self) -> (r: u64)
        ensures
            r == self.0 as u64,
    {
        self.0 as u64
    }

    fn write(&mut self, _bytes: &[u8]) {
    }

    fn write_u64(&mut self, i: u64)
        ensures
            final(self).0 == i as usize,
    {
        self.0 = i as usize;
    }

    fn write_usize(&mut self, i: usize)
        ensures
            final(self).0 == i,
    {
        self.0 = i;
    }
}

/// Hash builder that produces `IdentityHasher`s.
pub type BuildIdentityHasher = std::hash::BuildHasherDefault<IdentityHasher>;

/// A width and a height.
#[derive(Debug, Clone, Copy, PartialEq, Eq, Structural)]
pub struct Size {
    pub width: i32,
    pub height: i32,
}

/// A position on the screen.
#[derive(Debug, Clone, Copy, PartialEq, Eq, Structural)]
pub struct Point {
    pub x: i32,
    pub y: i32,
}

/// `a + b` fits in an `i32`.
pub open spec fn fits_i32(v: int) -> bool {
    i32::MIN <= v <= i32::MAX
}

pub open spec fn min_i32(a: i32, b: i32) -> i32 {
    if a <= b { a } else { b }
}

impl Size {
    pub fn new(width: i32, height: i32) -> (r: Self)
        ensures
            r.width == width,
            r.height == height,
    {
        Size { width, height }
    }

    pub fn from_tuple(tuple: (i32, i32)) -> (r: Self)
        ensures
            r.width == tuple.0,
            r.height == tuple.1,
    {
        Self::new(tuple.0, tuple.1)
    }

    /// A size built from a point's coordinates (`x` as width, `y` as height).
    pub fn from_point(p: Point) -> (r: Self)
        ensures
            r.width == p.x,
            r.height == p.y,
    {
        Self::new(p.x, p.y)
    }

    pub fn as_tuple(&self) -> (r: (i32, i32))
        ensures
            r == (self.width, self.height),
    {
        (self.width, self.height)
    }

    /// The size with both dimensions zero.
    pub fn zero() -> (r: Self)
        ensures
            r.width == 0,
            r.height == 0,
    {
        Self::new(0, 0)
    }

    pub fn is_zero(&self) -> (r: bool)
        ensures
            r == (self.width == 0 && self.height == 0),
    {
        self.width == 0 && self.height == 0
    }

    /// Component-wise sum.
    pub fn add(self, rhs: Self) -> (r: Self)
        requires
            fits_i32(self.width + rhs.width),
            fits_i32(self.height + rhs.height),
        ensures
            r.width == self.width + rhs.width,
            r.height == self.height + rhs.height,
    {
        Self::new(self.width + rhs.width, self.height + rhs.height)
    }

    /// Component-wise difference.
    pub fn sub(self, rhs: Self) -> (r: Self)
        requires
            fits_i32(self.width - rhs.width),
            fits_i32(self.height - rhs.height),
        ensures
            r.width == self.width - rhs.width,
            r.height == self.height - rhs.height,
    {
        Self::new(self.width - rhs.width, self.height - rhs.height)
    }

    /// Component-wise minimum of the two sizes.
    pub fn clamp(self, other: Self) -> (r: Self)
        ensures
            r.width == min_i32(self.width, other.width),
            r.height == min_i32(self.height, other.height),
    {
        Self::new(
            if self.width <= other.width { self.width } else { other.width },
            if self.height <= other.height { self.height } else { other.height },
        )
    }

    /// Applies `f` to the width and the height.
    pub fn map<F>(self, f: F) -> (r: Self)
        where
            F: FnOnce(i32, i32) -> Self,
        requires
            f.requires((self.width, self.height)),
        ensures
            f.ensures((self.width, self.height), r),
    {
        f(self.width, self.height)
    }
}

impl Default for Size {
    fn default() -> (r: Self)
        ensures
            r.width == 0 && r.height == 0,
    {
        Size { width: 0, height: 0 }
    }
}

impl Point {
    pub fn new(x: i32, y: i32) -> (r: Self)
        ensures
            r.x == x,
            r.y == y,
    {
        Point { x, y }
    }

    pub fn from_tuple(tuple: (i32, i32)) -> (r: Self)
        ensures
            r.x == tuple.0,
            r.y == tuple.1,
    {
        Self::new(tuple.0, tuple.1)
    }

    /// A point built from a size (`width` as x, `height` as y).
    pub fn from_size(s: Size) -> (r: Self)
        ensures
            r.x == s.width,
            r.y == s.height,
    {
        Self::new(s.width, s.height)
    }

    pub fn as_tuple(&self) -> (r: (i32, i32))
        ensures
            r == (self.x, self.y),
    {
        (self.x, self.y)
    }

    /// The origin.
    pub fn zero() -> (r: Self)
        ensures
            r.x == 0,
            r.y == 0,
    {
        Self::new(0, 0)
    }

    pub fn is_zero(&self) -> (r: bool)
        ensures
            r == (self.x == 0 && self.y == 0),
    {
        self.x == 0 && self.y == 0
    }

    /// Component-wise sum.
    pub fn add(self, rhs: Self) -> (r: Self)
        requires
            fits_i32(self.x + rhs.x),
            fits_i32(self.y + rhs.y),
        ensures
            r.x == self.x + rhs.x,
            r.y == self.y + rhs.y,
    {
        Self::new(self.x + rhs.x, self.y + rhs.y)
    }

    /// Component-wise difference.
    pub fn sub(self, rhs: Self) -> (r: Self)
        requires
            fits_i32(self.x - rhs.x),
            fits_i32(self.y - rhs.y),
        ensures
            r.x == self.x - rhs.x,
            r.y == self.y - rhs.y,
    {
        Self::new(self.x - rhs.x, self.y - rhs.y)
    }

    /// Applies `f` to the two coordinates.
    pub fn map<F, T>(self, f: F) -> (r: T)
        where
            F: FnOnce(i32, i32) -> T,
        requires
            f.requires((self.x, self.y)),
        ensures
            f.ensures((self.x, self.y), r),
    {
        f(self.x, self.y)
    }
}

impl Default for Point {
    fn default() -> (r: Self)
        ensures
            r.x == 0 && r.y == 0,
    {
        Point { x: 0, y: 0 }
    }
}

} // verus!
