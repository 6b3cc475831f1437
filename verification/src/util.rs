//! Position and geometry primitives: a (row, column) point and the four
//! cardinal directions, with a saturating "move by N" operation.
//!
//! Decreasing moves (`Up`, `Left`) saturate at zero. Increasing moves
//! (`Down`, `Right`) are plain additions; the caller is responsible for
//! pre-clamping the count so the result stays meaningful.

use vstd::prelude::*;

verus! {

#[derive(Clone, Copy, PartialEq, Eq, Structural, Debug)]
pub enum Direction {
    Up,
    Down,
    Left,
    Right,
}

#[derive(Clone, Copy, PartialEq, Eq, Structural, Debug)]
pub struct Point {
    pub y: usize,
    pub x: usize,
}

impl Point {
    pub fn new(x: usize, y: usize) -> (p: Point)
        ensures
            p.x == x,
            p.y == y,
    {
        Point { y, x }
    }

    pub fn x(&self) -> (r: usize)
        ensures
            r == self.x,
    {
        self.x
    }

    pub fn y(&self) -> (r: usize)
        ensures
            r == self.y,
    {
        self.y
    }

    pub fn set_y(&mut self, y: usize)
        ensures
            final(self).y == y,
            final(self).x == old(self).x,
    {
        self.y = y;
    }

    pub fn set_x(&mut self, x: usize)
        ensures
            final(self).x == x,
            final(self).y == old(self).y,
    {
        self.x = x;
    }

    /// The point shifted by `times` in `dir`: `Up` and `Left` saturate at
    /// zero, `Down` and `Right` add without an upper bound.
    pub open spec fn moved(self, dir: Direction, times: nat) -> Point {
        match dir {
            Direction::Up => Point {
                y: if times <= self.y { (self.y - times) as usize } else { 0 },
                x: self.x,
            },
            Direction::Down => Point { y: (self.y + times) as usize, x: self.x },
            Direction::Left => Point {
                y: self.y,
                x: if times <= self.x { (self.x - times) as usize } else { 0 },
            },
            Direction::Right => Point { y: self.y, x: (self.x + times) as usize },
        }
    }

    pub fn move_dir(&mut self, dir: Direction, times: usize)
        requires
            dir is Down ==> old(self).y + times <= usize::MAX,
            dir is Right ==> old(self).x + times <= usize::MAX,
        ensures
            *final(self) == old(self).moved(dir, times as nat),
    {
        match dir {
            Direction::Up => {
                if times <= self.y {
                    self.y = self.y - times;
                } else {
                    self.y = 0;
                }
            },
            Direction::Down => {
                self.y = self.y + times;
            },
            Direction::Left => {
                if times <= self.x {
                    self.x = self.x - times;
                } else {
                    self.x = 0;
                }
            },
            Direction::Right => {
                self.x = self.x + times;
            },
        }
    }
}

} // verus!
