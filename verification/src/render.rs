//! The render dispatcher: which widget is drawn where in one frame.

use crate::geometry::Region;
use crate::layout::Regions;
use vstd::prelude::*;

verus! {

/// The widgets of the dashboard.
#[derive(Clone, Copy, Debug, PartialEq, Eq, Structural)]
pub enum Widget {
    /// The status text.
    Status,
    /// The gauge.
    Gauge,
    /// The history chart.
    Chart,
    /// The query table.
    Table,
    /// The filter list.
    Filters,
    /// The list of the most queried domains.
    TopQueried,
    /// The list of the most blocked domains.
    TopBlocked,
    /// The list of the most active clients.
    TopClients,
}

/// One widget and the region it is drawn in.
#[derive(Clone, Copy, Debug, PartialEq, Eq, Structural)]
pub struct Placement {
    pub widget: Widget,
    pub region: Region,
}

/// The region that a frame with these regions has for `widget`; `None` for a
/// list of the bottom band where the lists are not drawn.
pub open spec fn region_for(regions: Regions, widget: Widget) -> Option<Region> {
    match widget {
        Widget::Status => Some(regions.status),
        Widget::Gauge => Some(regions.gauge),
        Widget::Chart => Some(regions.chart),
        Widget::Table => Some(regions.table),
        Widget::Filters => match regions.lists {
            Some(lists) => Some(lists.filters),
            None => None,
        },
        Widget::TopQueried => match regions.lists {
            Some(lists) => Some(lists.top_queried),
            None => None,
        },
        Widget::TopBlocked => match regions.lists {
            Some(lists) => Some(lists.top_blocked),
            None => None,
        },
        Widget::TopClients => match regions.lists {
            Some(lists) => Some(lists.top_clients),
            None => None,
        },
    }
}

/// The placements of one frame, in drawing order: the status text, the gauge,
/// the chart and the table, then the four lists where they are drawn.
pub open spec fn placed(regions: Regions) -> Seq<Placement> {
    seq![
        Placement { widget: Widget::Status, region: regions.status },
        Placement { widget: Widget::Gauge, region: regions.gauge },
        Placement { widget: Widget::Chart, region: regions.chart },
        Placement { widget: Widget::Table, region: regions.table },
    ] + match regions.lists {
        Some(lists) => seq![
            Placement { widget: Widget::Filters, region: lists.filters },
            Placement { widget: Widget::TopQueried, region: lists.top_queried },
            Placement { widget: Widget::TopBlocked, region: lists.top_blocked },
            Placement { widget: Widget::TopClients, region: lists.top_clients },
        ],
        None => seq![],
    }
}

/// The placements of one frame, in drawing order.
pub fn placements(regions: &Regions) -> (frame: Vec<Placement>)
    ensures
        frame@ == placed(*regions),
{
    let mut frame: Vec<Placement> = Vec::new();
    frame.push(Placement { widget: Widget::Status, region: regions.status });
    frame.push(Placement { widget: Widget::Gauge, region: regions.gauge });
    frame.push(Placement { widget: Widget::Chart, region: regions.chart });
    frame.push(Placement { widget: Widget::Table, region: regions.table });
    match regions.lists {
        Some(lists) => {
            frame.push(Placement { widget: Widget::Filters, region: lists.filters });
            frame.push(Placement { widget: Widget::TopQueried, region: lists.top_queried });
            frame.push(Placement { widget: Widget::TopBlocked, region: lists.top_blocked });
            frame.push(Placement { widget: Widget::TopClients, region: lists.top_clients });
        },
        None => {},
    }
    assert(frame@ =~= placed(*regions));
    frame
}

/// A frame places each widget that has a region once, in that region, and no
/// other widget: the four lists of the bottom band are placed together or not
/// at all.
pub proof fn lemma_each_widget_placed_once(regions: Regions)
    ensures
        forall|i: int|
            0 <= i < placed(regions).len() ==> region_for(
                regions,
                (#[trigger] placed(regions)[i]).widget,
            ) == Some(placed(regions)[i].region),
        forall|i: int, j: int|
            0 <= i < j < placed(regions).len() ==> (#[trigger] placed(regions)[i]).widget != (
            #[trigger] placed(regions)[j]).widget,
        forall|widget: Widget| #[trigger]
            region_for(regions, widget) is Some <==> exists|i: int|
                0 <= i < placed(regions).len() && (#[trigger] placed(regions)[i]).widget == widget,
        placed(regions).len() == if regions.lists is Some { 8int } else { 4int },
{
    let frame = placed(regions);
    assert forall|widget: Widget| #[trigger]
        region_for(regions, widget) is Some implies exists|i: int|
        0 <= i < frame.len() && (#[trigger] frame[i]).widget == widget by {
        match widget {
            Widget::Status => {
                assert(frame[0].widget == widget);
            },
            Widget::Gauge => {
                assert(frame[1].widget == widget);
            },
            Widget::Chart => {
                assert(frame[2].widget == widget);
            },
            Widget::Table => {
                assert(frame[3].widget == widget);
            },
            Widget::Filters => {
                assert(frame[4].widget == widget);
            },
            Widget::TopQueried => {
                assert(frame[5].widget == widget);
            },
            Widget::TopBlocked => {
                assert(frame[6].widget == widget);
            },
            Widget::TopClients => {
                assert(frame[7].widget == widget);
            },
        }
    }
}

} // verus!
