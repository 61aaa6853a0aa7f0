//! The screen layout: which part of the terminal each widget is drawn in.
//!
//! The screen is cut into three bands, one below the other. The top band holds
//! the status text and the gauge on its left and the history chart on its
//! right, the middle band holds the query table, and the bottom band holds four
//! lists side by side. On a screen of at most [`LIST_THRESHOLD`] rows the bottom
//! band gets no share and its lists are left out.

use crate::geometry::{all_within, clip_parts, Region};
use crate::solver::{
    can_split, extent, far_edge, lemma_solvable_within, reaches_far_edge, sizing_fits, solvable,
    split, Axis, Sizing,
};
use vstd::prelude::*;

verus! {

/// The lists of the bottom band are shown on screens with more rows than this.
pub const LIST_THRESHOLD: u16 = 42;

/// The share of the screen's rows that the top band asks for, in hundredths.
pub const TOP_BAND_SHARE: u16 = 30;

/// The share of the screen's rows that the bottom band asks for where its
/// lists are shown, in hundredths.
pub const BOTTOM_BAND_SHARE: u16 = 20;

/// The least number of rows that the query table asks for.
pub const TABLE_MIN_ROWS: u16 = 1;

/// The share of the top band's columns that its left side asks for, in
/// hundredths.
pub const TOP_LEFT_SHARE: u16 = 30;

/// The share of the top band's columns that the chart asks for, in hundredths.
pub const CHART_SHARE: u16 = 70;

/// The number of rows of the gauge strip.
pub const GAUGE_ROWS: u16 = 3;

/// The share of the bottom band's columns that each list asks for, in
/// hundredths.
pub const LIST_SHARE: u16 = 25;

/// The parts of the bottom band, from left to right.
#[derive(Clone, Copy, Debug, PartialEq, Eq, Structural)]
pub struct ListRegions {
    pub filters: Region,
    pub top_queried: Region,
    pub top_blocked: Region,
    pub top_clients: Region,
}

/// The named parts of one frame.
#[derive(Clone, Copy, Debug, PartialEq, Eq, Structural)]
pub struct Regions {
    /// The status text, above the gauge.
    pub status: Region,
    /// The gauge strip, at the foot of the top band's left side.
    pub gauge: Region,
    /// The history chart, on the top band's right side.
    pub chart: Region,
    /// The query table: the middle band.
    pub table: Region,
    /// The bottom band as a whole.
    pub bottom: Region,
    /// The bottom band's lists; `None` where they are not drawn.
    pub lists: Option<ListRegions>,
}

impl ListRegions {
    /// Whether each of the four lists lies within `outer`.
    pub open spec fn within(self, outer: Region) -> bool {
        &&& self.filters.within(outer)
        &&& self.top_queried.within(outer)
        &&& self.top_blocked.within(outer)
        &&& self.top_clients.within(outer)
    }
}

impl Regions {
    /// Whether each named part lies within `outer`.
    pub open spec fn within(self, outer: Region) -> bool {
        &&& self.status.within(outer)
        &&& self.gauge.within(outer)
        &&& self.chart.within(outer)
        &&& self.table.within(outer)
        &&& self.bottom.within(outer)
        &&& self.lists matches Some(lists) ==> lists.within(outer)
    }
}

/// Whether a screen of `height` rows shows the lists of the bottom band.
pub open spec fn lists_shown(height: u16) -> bool {
    height > LIST_THRESHOLD
}

/// What the three bands ask for on a screen of `height` rows.
pub open spec fn band_plan(height: u16) -> Seq<Sizing> {
    seq![
        Sizing::Percentage(TOP_BAND_SHARE),
        Sizing::Min(TABLE_MIN_ROWS),
        Sizing::Percentage(if lists_shown(height) { BOTTOM_BAND_SHARE } else { 0 }),
    ]
}

/// What the two sides of the top band ask for.
pub open spec fn top_plan() -> Seq<Sizing> {
    seq![Sizing::Percentage(TOP_LEFT_SHARE), Sizing::Percentage(CHART_SHARE)]
}

/// What the status text and the gauge ask for: the gauge a fixed strip, the
/// status text the rest.
pub open spec fn left_plan() -> Seq<Sizing> {
    seq![Sizing::Min(0), Sizing::Length(GAUGE_ROWS)]
}

/// What the four lists ask for: a quarter each.
pub open spec fn list_plan() -> Seq<Sizing> {
    seq![
        Sizing::Percentage(LIST_SHARE),
        Sizing::Percentage(LIST_SHARE),
        Sizing::Percentage(LIST_SHARE),
        Sizing::Percentage(LIST_SHARE),
    ]
}

/// The four lists, taken from the parts of the bottom band in their order.
pub open spec fn lists_of(quarters: Seq<Region>) -> ListRegions
    recommends
        quarters.len() == 4,
{
    ListRegions {
        filters: quarters[0],
        top_queried: quarters[1],
        top_blocked: quarters[2],
        top_clients: quarters[3],
    }
}

/// The frame made of the parts that the splits gave: `bands` of the screen,
/// `top` of the first band, `left` of the first part of `top`.
pub open spec fn regions_of(
    bands: Seq<Region>,
    top: Seq<Region>,
    left: Seq<Region>,
    lists: Option<ListRegions>,
) -> Regions
    recommends
        bands.len() == 3,
        top.len() == 2,
        left.len() == 2,
{
    Regions {
        status: left[0],
        gauge: left[1],
        chart: top[1],
        table: bands[1],
        bottom: bands[2],
        lists,
    }
}

/// Whether `regions` is a frame of the screen that is made of these parts:
/// three `bands` of the screen, the two sides `top` of the first band, and the
/// two parts `left` of its left side. Each part lies within what was split,
/// and the last part of each split ends where what was split ends: the bottom
/// band at the foot of the screen, the chart at the right edge of the top
/// band, the gauge at the foot of the top band's left side.
pub open spec fn laid_out(
    width: u16,
    height: u16,
    regions: Regions,
    bands: Seq<Region>,
    top: Seq<Region>,
    left: Seq<Region>,
) -> bool {
    let screen = Region::screen_of(width, height);
    &&& bands.len() == 3
    &&& top.len() == 2
    &&& left.len() == 2
    &&& all_within(bands, screen)
    &&& all_within(top, bands[0])
    &&& all_within(left, top[0])
    &&& reaches_far_edge(Axis::Vertical, bands, screen)
    &&& reaches_far_edge(Axis::Horizontal, top, bands[0])
    &&& reaches_far_edge(Axis::Vertical, left, top[0])
    &&& regions == regions_of(bands, top, left, regions.lists)
}

/// Whether a screen of `height` rows shows the lists of the bottom band.
pub fn shows_lists(height: u16) -> (shown: bool)
    ensures
        shown == lists_shown(height),
{
    height > LIST_THRESHOLD
}

/// What the three bands ask for on a screen of `height` rows.
pub fn band_sizings(height: u16) -> (sizings: Vec<Sizing>)
    ensures
        sizings@ == band_plan(height),
{
    let bottom: u16 = if shows_lists(height) { BOTTOM_BAND_SHARE } else { 0 };
    let sizings = vec![
        Sizing::Percentage(TOP_BAND_SHARE),
        Sizing::Min(TABLE_MIN_ROWS),
        Sizing::Percentage(bottom),
    ];
    assert(sizings@ =~= band_plan(height));
    sizings
}

/// What the two sides of the top band ask for.
pub fn top_sizings() -> (sizings: Vec<Sizing>)
    ensures
        sizings@ == top_plan(),
{
    let sizings = vec![Sizing::Percentage(TOP_LEFT_SHARE), Sizing::Percentage(CHART_SHARE)];
    assert(sizings@ =~= top_plan());
    sizings
}

/// What the status text and the gauge ask for.
pub fn left_sizings() -> (sizings: Vec<Sizing>)
    ensures
        sizings@ == left_plan(),
{
    let sizings = vec![Sizing::Min(0), Sizing::Length(GAUGE_ROWS)];
    assert(sizings@ =~= left_plan());
    sizings
}

/// What the four lists ask for.
pub fn list_sizings() -> (sizings: Vec<Sizing>)
    ensures
        sizings@ == list_plan(),
{
    let sizings = vec![
        Sizing::Percentage(LIST_SHARE),
        Sizing::Percentage(LIST_SHARE),
        Sizing::Percentage(LIST_SHARE),
        Sizing::Percentage(LIST_SHARE),
    ];
    assert(sizings@ =~= list_plan());
    sizings
}

/// Names the four parts of the bottom band.
pub fn name_lists(quarters: &Vec<Region>) -> (lists: ListRegions)
    requires
        quarters@.len() == 4,
    ensures
        lists == lists_of(quarters@),
{
    ListRegions {
        filters: quarters[0],
        top_queried: quarters[1],
        top_blocked: quarters[2],
        top_clients: quarters[3],
    }
}

/// Names the parts that the splits gave.
pub fn assemble(
    bands: &Vec<Region>,
    top: &Vec<Region>,
    left: &Vec<Region>,
    lists: Option<ListRegions>,
) -> (regions: Regions)
    requires
        bands@.len() == 3,
        top@.len() == 2,
        left@.len() == 2,
    ensures
        regions == regions_of(bands@, top@, left@, lists),
{
    Regions {
        status: left[0],
        gauge: left[1],
        chart: top[1],
        table: bands[1],
        bottom: bands[2],
        lists,
    }
}

/// The screens that can be laid out: those on which each split of the layout
/// can be handed to the solver, were it to cut the whole screen.
pub open spec fn layable(width: u16, height: u16) -> bool {
    let screen = Region::screen_of(width, height);
    &&& solvable(Axis::Vertical, band_plan(height), screen)
    &&& solvable(Axis::Horizontal, top_plan(), screen)
    &&& solvable(Axis::Vertical, left_plan(), screen)
    &&& solvable(Axis::Horizontal, list_plan(), screen)
}

/// Whether a screen of `width` columns and `height` rows can be laid out.
pub fn can_layout(width: u16, height: u16) -> (ok: bool)
    ensures
        ok == layable(width, height),
{
    let screen = Region::screen(width, height);
    can_split(Axis::Vertical, &band_sizings(height), screen) && can_split(
        Axis::Horizontal,
        &top_sizings(),
        screen,
    ) && can_split(Axis::Vertical, &left_sizings(), screen) && can_split(
        Axis::Horizontal,
        &list_sizings(),
        screen,
    )
}

/// The screens that can be laid out are those whose largest shares the solver
/// can compute in 16 bits: the chart's of the columns and the top band's of
/// the rows.
pub proof fn lemma_layable_screens(width: u16, height: u16)
    ensures
        layable(width, height) <==> CHART_SHARE * width <= u16::MAX && TOP_BAND_SHARE * height
            <= u16::MAX,
        layable(width, height) <==> width <= 936 && height <= 2184,
{
    let screen = Region::screen_of(width, height);
    if CHART_SHARE * width <= u16::MAX && TOP_BAND_SHARE * height <= u16::MAX {
        assert forall|i: int| 0 <= i < band_plan(height).len() implies sizing_fits(
            #[trigger] band_plan(height)[i],
            extent(Axis::Vertical, screen),
        ) by {
            assert(i == 0 || i == 1 || i == 2);
            assert(BOTTOM_BAND_SHARE * height <= TOP_BAND_SHARE * height);
            assert(0 * height == 0);
            if i == 2 {
                if lists_shown(height) {
                    assert(band_plan(height)[2] == Sizing::Percentage(BOTTOM_BAND_SHARE));
                } else {
                    assert(band_plan(height)[2] == Sizing::Percentage(0));
                }
            }
        }
        assert forall|i: int| 0 <= i < top_plan().len() implies sizing_fits(
            #[trigger] top_plan()[i],
            extent(Axis::Horizontal, screen),
        ) by {
            assert(i == 0 || i == 1);
        }
        assert forall|i: int| 0 <= i < left_plan().len() implies sizing_fits(
            #[trigger] left_plan()[i],
            extent(Axis::Vertical, screen),
        ) by {
            assert(i == 0 || i == 1);
        }
        assert forall|i: int| 0 <= i < list_plan().len() implies sizing_fits(
            #[trigger] list_plan()[i],
            extent(Axis::Horizontal, screen),
        ) by {
            assert(i == 0 || i == 1 || i == 2 || i == 3);
        }
    }
    if layable(width, height) {
        assert(sizing_fits(band_plan(height)[0], extent(Axis::Vertical, screen)));
        assert(sizing_fits(top_plan()[1], extent(Axis::Horizontal, screen)));
    }
}

/// Cuts `area` as `sizings` ask, and clips each part to `area`.
///
/// The result is `None`, and the solver is not asked, exactly where the split
/// is not [`solvable`]. Each part lies within the area, and the last part ends
/// at the area's far edge. Where else the parts lie is the solver's choice; a
/// part that the solver lets reach outside the area is cut back to it.
pub fn parts_of(axis: Axis, sizings: &Vec<Sizing>, area: Region) -> (parts: Option<Vec<Region>>)
    ensures
        parts is Some <==> solvable(axis, sizings@, area),
        parts matches Some(p) ==> {
            &&& p@.len() == sizings@.len()
            &&& all_within(p@, area)
            &&& reaches_far_edge(axis, p@, area)
        },
{
    match split(axis, sizings, area) {
        Some(parts) => {
            let clipped = clip_parts(&parts, &area);
            assert(reaches_far_edge(axis, clipped@, area)) by {
                if parts@.len() > 0 {
                    let last = parts@.len() - 1;
                    assert(clipped@[last] == parts@[last].clipped_to(area));
                    assert(far_edge(axis, parts@[last]) == far_edge(axis, area));
                }
            }
            Some(clipped)
        },
        None => None,
    }
}

/// Lays out a screen of `width` columns and `height` rows.
///
/// The screen is split into the bands of [`band_plan`], the first band into
/// the sides of [`top_plan`], its left side into the parts of [`left_plan`]
/// and, where the lists are shown, the last band into the quarters of
/// [`list_plan`].
///
/// A frame is returned exactly for the screens that are [`layable`]. It is
/// [`laid_out`] of the parts of these splits: each part lies within what was
/// split, and so within the screen, and the last part of each split ends where
/// what was split ends. The lists are named exactly on screens of more than
/// [`LIST_THRESHOLD`] rows; they lie within the bottom band, and the last of
/// them ends at its right edge. How much of an area each part gets is the
/// solver's choice.
pub fn layout(width: u16, height: u16) -> (regions: Option<Regions>)
    ensures
        regions is Some <==> layable(width, height),
        regions matches Some(r) ==> {
            &&& r.lists is Some <==> lists_shown(height)
            &&& r.within(Region::screen_of(width, height))
            &&& r.bottom.bottom() == height
            &&& r.lists matches Some(lists) ==> lists.within(r.bottom) && lists.top_clients.right()
                == r.bottom.right()
            &&& exists|bands: Seq<Region>, top: Seq<Region>, left: Seq<Region>| #[trigger]
                laid_out(width, height, r, bands, top, left)
        },
{
    if !can_layout(width, height) {
        return None;
    }
    let screen = Region::screen(width, height);
    let bands = match parts_of(Axis::Vertical, &band_sizings(height), screen) {
        Some(parts) => parts,
        None => { return None; },
    };
    assert(bands@[0].within(screen) && bands@[1].within(screen) && bands@[2].within(screen));
    proof {
        lemma_solvable_within(Axis::Horizontal, top_plan(), bands@[0], screen);
    }
    let top = match parts_of(Axis::Horizontal, &top_sizings(), bands[0]) {
        Some(parts) => parts,
        None => { return None; },
    };
    assert(top@[0].within(bands@[0]) && top@[1].within(bands@[0]));
    proof {
        lemma_solvable_within(Axis::Vertical, left_plan(), top@[0], screen);
    }
    let left = match parts_of(Axis::Vertical, &left_sizings(), top[0]) {
        Some(parts) => parts,
        None => { return None; },
    };
    assert(left@[0].within(top@[0]) && left@[1].within(top@[0]));
    if !shows_lists(height) {
        let frame = assemble(&bands, &top, &left, None);
        assert(laid_out(width, height, frame, bands@, top@, left@));
        return Some(frame);
    }
    proof {
        lemma_solvable_within(Axis::Horizontal, list_plan(), bands@[2], screen);
    }
    match parts_of(Axis::Horizontal, &list_sizings(), bands[2]) {
        Some(quarters) => {
            assert(quarters@[0].within(bands@[2]) && quarters@[1].within(bands@[2])
                && quarters@[2].within(bands@[2]) && quarters@[3].within(bands@[2]));
            let frame = assemble(&bands, &top, &left, Some(name_lists(&quarters)));
            assert(laid_out(width, height, frame, bands@, top@, left@));
            Some(frame)
        },
        None => None,
    }
}

} // verus!
