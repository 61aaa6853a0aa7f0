//! Rectangles on the terminal's character grid.

use vstd::prelude::*;

verus! {

/// The value nearest to `value` that is at least `low` and at most `high`.
pub open spec fn bounded(value: int, low: int, high: int) -> int {
    if value < low {
        low
    } else if value > high {
        high
    } else {
        value
    }
}

/// A rectangular part of the terminal surface, in character cells.
#[derive(Clone, Copy, Debug, PartialEq, Eq, Structural)]
pub struct Region {
    pub x: u16,
    pub y: u16,
    pub width: u16,
    pub height: u16,
}

impl Region {
    /// The column just past the right edge.
    pub open spec fn right(self) -> int {
        self.x + self.width
    }

    /// The row just past the lower edge.
    pub open spec fn bottom(self) -> int {
        self.y + self.height
    }

    /// Both far edges can be written as 16-bit coordinates.
    pub open spec fn on_grid(self) -> bool {
        self.right() <= u16::MAX && self.bottom() <= u16::MAX
    }

    /// Whether no cell of this region lies outside `outer`.
    pub open spec fn within(self, outer: Region) -> bool {
        &&& outer.x <= self.x
        &&& outer.y <= self.y
        &&& self.right() <= outer.right()
        &&& self.bottom() <= outer.bottom()
    }

    /// The part of this region that lies within `outer`. Where none does, the
    /// result is empty and lies on the edge of `outer` nearest to this region.
    pub open spec fn clipped_to(self, outer: Region) -> Region {
        let left = bounded(self.x as int, outer.x as int, outer.right());
        let top = bounded(self.y as int, outer.y as int, outer.bottom());
        let right = bounded(self.right(), left, outer.right());
        let bottom = bounded(self.bottom(), top, outer.bottom());
        Region {
            x: left as u16,
            y: top as u16,
            width: (right - left) as u16,
            height: (bottom - top) as u16,
        }
    }

    /// The whole screen of a terminal with the given size.
    pub open spec fn screen_of(width: u16, height: u16) -> Region {
        Region { x: 0, y: 0, width, height }
    }

    /// The whole screen of a terminal with the given size.
    pub fn screen(width: u16, height: u16) -> (region: Region)
        ensures
            region == Region::screen_of(width, height),
            region.on_grid(),
    {
        Region { x: 0, y: 0, width, height }
    }

    /// Whether both far edges can be written as 16-bit coordinates.
    pub fn is_on_grid(&self) -> (fits: bool)
        ensures
            fits == self.on_grid(),
    {
        let limit: u32 = 0xffff;
        self.x as u32 + self.width as u32 <= limit && self.y as u32 + self.height as u32 <= limit
    }

    /// Whether no cell of this region lies outside `outer`.
    pub fn lies_within(&self, outer: &Region) -> (inside: bool)
        ensures
            inside == self.within(*outer),
    {
        outer.x <= self.x && outer.y <= self.y && self.x as u32 + self.width as u32 <= outer.x as u32
            + outer.width as u32 && self.y as u32 + self.height as u32 <= outer.y as u32
            + outer.height as u32
    }
}

impl Region {
    /// The part of this region that lies within `outer`. A region that lies
    /// within `outer` is returned as it is.
    pub fn clip(&self, outer: &Region) -> (clipped: Region)
        ensures
            clipped == self.clipped_to(*outer),
            clipped.within(*outer),
            self.within(*outer) ==> clipped == *self,
    {
        let outer_right: u32 = outer.x as u32 + outer.width as u32;
        let outer_bottom: u32 = outer.y as u32 + outer.height as u32;
        let left = between(self.x as u32, outer.x as u32, outer_right);
        let top = between(self.y as u32, outer.y as u32, outer_bottom);
        let right = between(self.x as u32 + self.width as u32, left, outer_right);
        let bottom = between(self.y as u32 + self.height as u32, top, outer_bottom);
        Region {
            x: left as u16,
            y: top as u16,
            width: (right - left) as u16,
            height: (bottom - top) as u16,
        }
    }
}

/// The value nearest to `value` that is at least `low` and at most `high`.
pub fn between(value: u32, low: u32, high: u32) -> (nearest: u32)
    ensures
        nearest == bounded(value as int, low as int, high as int),
{
    if value < low {
        low
    } else if value > high {
        high
    } else {
        value
    }
}

/// Whether every one of `parts` lies within `area`.
pub open spec fn all_within(parts: Seq<Region>, area: Region) -> bool {
    forall|i: int| 0 <= i < parts.len() ==> (#[trigger] parts[i]).within(area)
}

/// Whether every one of `parts` lies within `area`.
pub fn parts_within(parts: &Vec<Region>, area: &Region) -> (inside: bool)
    ensures
        inside == all_within(parts@, *area),
{
    let mut i: usize = 0;
    while i < parts.len()
        invariant
            i <= parts.len(),
            forall|k: int| 0 <= k < i ==> (#[trigger] parts@[k]).within(*area),
        decreases parts.len() - i,
    {
        if !parts[i].lies_within(area) {
            return false;
        }
        i += 1;
    }
    true
}

/// The parts, each clipped to `area`, in their order.
pub open spec fn clipped_parts(parts: Seq<Region>, area: Region) -> Seq<Region> {
    Seq::new(parts.len(), |i: int| parts[i].clipped_to(area))
}

/// Clips each of `parts` to `area`. Parts that lie within `area` are returned
/// as they are.
pub fn clip_parts(parts: &Vec<Region>, area: &Region) -> (clipped: Vec<Region>)
    ensures
        clipped@ == clipped_parts(parts@, *area),
        all_within(clipped@, *area),
        all_within(parts@, *area) ==> clipped@ == parts@,
{
    let mut clipped: Vec<Region> = Vec::new();
    let mut i: usize = 0;
    while i < parts.len()
        invariant
            i <= parts.len(),
            clipped@.len() == i,
            forall|k: int| 0 <= k < i ==> (#[trigger] clipped@[k]) == parts@[k].clipped_to(*area),
            forall|k: int| 0 <= k < i ==> (#[trigger] clipped@[k]).within(*area),
            forall|k: int| 0 <= k < i && parts@[k].within(*area) ==> (#[trigger] clipped@[k]) == parts@[k],
        decreases parts.len() - i,
    {
        clipped.push(parts[i].clip(area));
        i += 1;
    }
    assert(clipped@ =~= clipped_parts(parts@, *area));
    proof {
        if all_within(parts@, *area) {
            assert(clipped@ =~= parts@);
        }
    }
    clipped
}

} // verus!
