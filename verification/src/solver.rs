//! Splitting an area along one axis with tui's constraint solver.

use crate::geometry::Region;
use tui::layout::{Constraint, Direction, Layout, Rect};
use vstd::prelude::*;

verus! {

/// The axis along which an area is cut into parts.
#[derive(Clone, Copy, Debug, PartialEq, Eq, Structural)]
pub enum Axis {
    /// Parts lie side by side and share the area's rows.
    Horizontal,
    /// Parts lie one below the other and share the area's columns.
    Vertical,
}

/// How much of the area one part asks for, along the axis of the split.
#[derive(Clone, Copy, Debug, PartialEq, Eq, Structural)]
pub enum Sizing {
    /// A share of the area's extent, in hundredths.
    Percentage(u16),
    /// A fixed number of cells.
    Length(u16),
    /// At least this number of cells.
    Min(u16),
}

/// The extent of `area` along `axis`.
pub open spec fn extent(axis: Axis, area: Region) -> int {
    match axis {
        Axis::Horizontal => area.width as int,
        Axis::Vertical => area.height as int,
    }
}

/// The far edge of `region` along `axis`: the column past its right edge, or
/// the row past its lower edge.
pub open spec fn far_edge(axis: Axis, region: Region) -> int {
    match axis {
        Axis::Horizontal => region.right(),
        Axis::Vertical => region.bottom(),
    }
}

/// Whether the last of `parts`, if there is one, ends where `area` ends along
/// `axis`.
pub open spec fn reaches_far_edge(axis: Axis, parts: Seq<Region>, area: Region) -> bool {
    parts.len() > 0 ==> far_edge(axis, parts[parts.len() - 1]) == far_edge(axis, area)
}

/// A sizing whose share of `extent` the solver can compute in 16 bits.
pub open spec fn sizing_fits(sizing: Sizing, extent: int) -> bool {
    sizing matches Sizing::Percentage(share) ==> share * extent <= u16::MAX
}

/// The splits that can be handed to the solver: the area lies on the 16-bit
/// grid, and no percentage multiplied by the area's extent leaves 16 bits.
pub open spec fn solvable(axis: Axis, sizings: Seq<Sizing>, area: Region) -> bool {
    &&& area.on_grid()
    &&& forall|i: int| 0 <= i < sizings.len() ==> sizing_fits(#[trigger] sizings[i], extent(axis, area))
}

/// What can be split can be split again within each of its parts: a split
/// that is solvable on an area is solvable on every region within it.
pub proof fn lemma_solvable_within(axis: Axis, sizings: Seq<Sizing>, part: Region, area: Region)
    requires
        solvable(axis, sizings, area),
        part.within(area),
    ensures
        solvable(axis, sizings, part),
{
    assert forall|i: int| 0 <= i < sizings.len() implies sizing_fits(
        #[trigger] sizings[i],
        extent(axis, part),
    ) by {
        assert(sizing_fits(sizings[i], extent(axis, area)));
        if let Sizing::Percentage(share) = sizings[i] {
            assert(share * extent(axis, part) <= share * extent(axis, area)) by (nonlinear_arith)
                requires
                    0 <= share,
                    extent(axis, part) <= extent(axis, area),
            ;
        }
    }
}

/// Calls `tui::layout::Layout::split` on a layout without margin.
///
/// Believed of it, not proved: it returns one part for each sizing, in their
/// order, and the last part ends at the far edge of the area. The latter is
/// tui's own doing: when the solver has run, tui sets the extent of the last
/// part to what lies between its start and the area's far edge. Where else the
/// parts lie is the solver's choice and is not stated. The precondition leaves
/// out the inputs on which tui multiplies a percentage out of 16 bits or is
/// handed an area that ends beyond the grid.
#[verifier::external_body]
fn solve(axis: Axis, sizings: &Vec<Sizing>, area: Region) -> (parts: Vec<Region>)
    requires
        solvable(axis, sizings@, area),
    ensures
        parts@.len() == sizings@.len(),
        reaches_far_edge(axis, parts@, area),
{
    let direction = match axis {
        Axis::Horizontal => Direction::Horizontal,
        Axis::Vertical => Direction::Vertical,
    };
    let constraints: Vec<Constraint> = sizings.iter().map(|s| match *s {
        Sizing::Percentage(share) => Constraint::Percentage(share),
        Sizing::Length(cells) => Constraint::Length(cells),
        Sizing::Min(cells) => Constraint::Min(cells),
    }).collect();
    let rect = Rect { x: area.x, y: area.y, width: area.width, height: area.height };
    let parts = Layout::default().direction(direction).constraints(constraints).split(rect);
    parts.iter().map(|r| Region { x: r.x, y: r.y, width: r.width, height: r.height }).collect()
}

/// Whether the solver can compute the share that `sizing` asks of `extent`.
pub fn fits(sizing: &Sizing, extent: u16) -> (ok: bool)
    ensures
        ok == sizing_fits(*sizing, extent as int),
{
    match sizing {
        Sizing::Percentage(share) => {
            assert(*share * extent <= 0xffff * 0xffff) by (nonlinear_arith)
                requires
                    0 <= *share <= 0xffff,
                    0 <= extent <= 0xffff,
            ;
            let product: u32 = (*share as u32) * (extent as u32);
            product <= 0xffff
        },
        _ => true,
    }
}

/// Whether the split can be handed to the solver.
pub fn can_split(axis: Axis, sizings: &Vec<Sizing>, area: Region) -> (ok: bool)
    ensures
        ok == solvable(axis, sizings@, area),
{
    if !area.is_on_grid() {
        return false;
    }
    let along: u16 = match axis {
        Axis::Horizontal => area.width,
        Axis::Vertical => area.height,
    };
    let mut i: usize = 0;
    while i < sizings.len()
        invariant
            i <= sizings.len(),
            along == extent(axis, area),
            area.on_grid(),
            forall|k: int| 0 <= k < i ==> sizing_fits(#[trigger] sizings@[k], extent(axis, area)),
        decreases sizings.len() - i,
    {
        if !fits(&sizings[i], along) {
            return false;
        }
        i += 1;
    }
    true
}

/// Cuts `area` along `axis` into one part for each sizing, in their order.
///
/// Returns `None`, without asking the solver, exactly when the split is not
/// [`solvable`]. The last part ends at the far edge of the area; where else
/// the parts lie is the solver's choice.
pub fn split(axis: Axis, sizings: &Vec<Sizing>, area: Region) -> (parts: Option<Vec<Region>>)
    ensures
        parts is Some <==> solvable(axis, sizings@, area),
        parts matches Some(p) ==> p@.len() == sizings@.len() && reaches_far_edge(axis, p@, area),
{
    if can_split(axis, sizings, area) {
        Some(solve(axis, sizings, area))
    } else {
        None
    }
}

} // verus!
