use vstd::prelude::*;

verus! {

/// A point in screen pixels.
#[derive(PartialEq, Eq, Structural, Debug, Clone, Copy)]
pub struct Point2i {
    pub x: i32,
    pub y: i32,
}

/// A size in screen pixels.
#[derive(PartialEq, Eq, Structural, Debug, Clone, Copy)]
pub struct Size2i {
    pub width: i32,
    pub height: i32,
}

impl Point2i {
    pub fn new(x: i32, y: i32) -> (r: Self)
        ensures
            r.x == x,
            r.y == y,
    {
        Point2i { x, y }
    }
}

impl Size2i {
    pub fn new(width: i32, height: i32) -> (r: Self)
        ensures
            r.width == width,
            r.height == height,
    {
        Size2i { width, height }
    }
}

/// Whether placing a window of size `size` at `offset` stays within `i32`.
pub open spec fn placement_fits(offset: Point2i, boundaries: Size2i, size: Size2i) -> bool {
    let x = offset.x + size.width + 1;
    &&& i32::MIN <= x <= i32::MAX
    &&& x > boundaries.width ==> i32::MIN <= offset.y + size.height + 1 <= i32::MAX
}

/// Where the next window goes after one of size `size` was placed at
/// `offset`: one pixel to its right; past the right boundary, back to the
/// origin's column one pixel below it; past the bottom boundary too, back
/// to the origin.
pub open spec fn next_offset(origin: Point2i, offset: Point2i, boundaries: Size2i, size: Size2i) -> Point2i {
    let x = offset.x + size.width + 1;
    if x <= boundaries.width {
        Point2i { x: x as i32, y: offset.y }
    } else {
        let y = offset.y + size.height + 1;
        if y > boundaries.height {
            origin
        } else {
            Point2i { x: origin.x, y: y as i32 }
        }
    }
}

/// Places preview windows one after another, row by row, inside a bounded
/// screen area starting at an origin.
pub struct WindowLayout {
    origin: Point2i,
    offset: Point2i,
    boundaries: Size2i,
}

impl WindowLayout {
    pub closed spec fn spec_origin(&self) -> Point2i {
        self.origin
    }

    /// Where the next window will be placed.
    pub closed spec fn spec_offset(&self) -> Point2i {
        self.offset
    }

    pub closed spec fn spec_boundaries(&self) -> Size2i {
        self.boundaries
    }

    /// A layout starting at `(0, 0)`.
    pub fn new(boundaries: Size2i) -> (r: Self)
        ensures
            r.spec_origin() == (Point2i { x: 0, y: 0 }),
            r.spec_offset() == (Point2i { x: 0, y: 0 }),
            r.spec_boundaries() == boundaries,
    {
        WindowLayout {
            origin: Point2i { x: 0, y: 0 },
            offset: Point2i { x: 0, y: 0 },
            boundaries: boundaries,
        }
    }

    pub fn new_with_origin(boundaries: Size2i, origin: Point2i) -> (r: Self)
        ensures
            r.spec_origin() == origin,
            r.spec_offset() == origin,
            r.spec_boundaries() == boundaries,
    {
        WindowLayout { origin: origin, offset: origin, boundaries: boundaries }
    }

    /// Returns the position for a window of size `window_size` and moves the
    /// offset on past it.
    pub fn get_new_poition(&mut self, window_size: &Size2i) -> (r: Point2i)
        requires
            placement_fits(old(self).spec_offset(), old(self).spec_boundaries(), *window_size),
        ensures
            r == old(self).spec_offset(),
            final(self).spec_offset() == next_offset(
                old(self).spec_origin(),
                old(self).spec_offset(),
                old(self).spec_boundaries(),
                *window_size,
            ),
            final(self).spec_origin() == old(self).spec_origin(),
            final(self).spec_boundaries() == old(self).spec_boundaries(),
    {
        let new_position = self.offset;
        let x: i64 = self.offset.x as i64 + window_size.width as i64 + 1;
        self.offset.x = x as i32;
        if self.offset.x > self.boundaries.width {
            let y: i64 = self.offset.y as i64 + window_size.height as i64 + 1;
            self.offset.y = y as i32;
            if self.offset.y > self.boundaries.height {
                self.offset = self.origin;
            } else {
                self.offset.x = self.origin.x;
            }
        }
        new_position
    }

    /// Moves the origin and restarts placement there.
    pub fn set_origin(&mut self, origin: Point2i)
        ensures
            final(self).spec_origin() == origin,
            final(self).spec_offset() == origin,
            final(self).spec_boundaries() == old(self).spec_boundaries(),
    {
        self.origin = origin;
        self.offset = self.origin;
    }

    pub fn set_boundaries(&mut self, boundaries: Size2i)
        ensures
            final(self).spec_boundaries() == boundaries,
            final(self).spec_origin() == old(self).spec_origin(),
            final(self).spec_offset() == old(self).spec_offset(),
    {
        self.boundaries = boundaries;
    }

    pub fn get_origin(&self) -> (r: &Point2i)
        ensures
            *r == self.spec_origin(),
    {
        &self.origin
    }

    pub fn get_offset(&self) -> (r: &Point2i)
        ensures
            *r == self.spec_offset(),
    {
        &self.offset
    }

    pub fn get_boundries(&self) -> (r: &Size2i)
        ensures
            *r == self.spec_boundaries(),
    {
        &self.boundaries
    }
}

} // verus!
