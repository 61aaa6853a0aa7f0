use dashboard::geometry::{between, clip_parts, parts_within, Region};
use dashboard::layout::{
    assemble, band_sizings, can_layout, layout, left_sizings, list_sizings, name_lists, parts_of, shows_lists,
    top_sizings, ListRegions, Regions, LIST_THRESHOLD,
};
use dashboard::solver::{can_split, fits, split, Axis, Sizing};

fn region(x: u16, y: u16, width: u16, height: u16) -> Region {
    Region { x, y, width, height }
}

#[test]
fn bottom_band_is_shown_on_43_rows() {
    let regions = layout(100, 43).expect("a screen of 100 by 43 can be laid out");
    let lists = regions.lists.expect("the lists are shown above the threshold");
    assert_eq!(lists.filters.width, 25);
    assert_eq!(lists.top_queried.width, 25);
    assert_eq!(lists.top_blocked.width, 25);
    assert_eq!(lists.top_clients.width, 25);
    assert_eq!(lists.filters.x, 0);
    assert_eq!(lists.top_queried.x, 25);
    assert_eq!(lists.top_blocked.x, 50);
    assert_eq!(lists.top_clients.x, 75);
    assert!(regions.bottom.height > 0);
}

#[test]
fn bottom_band_collapses_on_42_rows() {
    let regions = layout(100, 42).expect("a screen of 100 by 42 can be laid out");
    assert_eq!(regions.bottom.height, 0);
    assert_eq!(regions.lists, None);
}

#[test]
fn layout_of_100_by_43_is_exact() {
    let expected = Regions {
        status: region(0, 0, 30, 9),
        gauge: region(0, 9, 30, 3),
        chart: region(30, 0, 70, 12),
        table: region(0, 12, 100, 21),
        bottom: region(0, 34, 100, 9),
        lists: Some(ListRegions {
            filters: region(0, 34, 25, 9),
            top_queried: region(25, 34, 25, 9),
            top_blocked: region(50, 34, 25, 9),
            top_clients: region(75, 34, 25, 9),
        }),
    };
    assert_eq!(layout(100, 43), Some(expected));
}

#[test]
fn layout_of_100_by_42_is_exact() {
    let expected = Regions {
        status: region(0, 0, 30, 9),
        gauge: region(0, 9, 30, 3),
        chart: region(30, 0, 70, 12),
        table: region(0, 12, 100, 29),
        bottom: region(0, 42, 100, 0),
        lists: None,
    };
    assert_eq!(layout(100, 42), Some(expected));
}

#[test]
fn layout_of_200_by_60_is_exact() {
    let expected = Regions {
        status: region(0, 0, 60, 15),
        gauge: region(0, 15, 60, 3),
        chart: region(60, 0, 140, 18),
        table: region(0, 18, 200, 30),
        bottom: region(0, 48, 200, 12),
        lists: Some(ListRegions {
            filters: region(0, 48, 50, 12),
            top_queried: region(50, 48, 50, 12),
            top_blocked: region(100, 48, 50, 12),
            top_clients: region(150, 48, 50, 12),
        }),
    };
    assert_eq!(layout(200, 60), Some(expected));
}

#[test]
fn gauge_strip_has_three_rows() {
    let regions = layout(80, 24).expect("a screen of 80 by 24 can be laid out");
    assert_eq!(regions.gauge.height, 3);
    assert_eq!(regions.gauge.y, regions.status.y + regions.status.height);
    assert_eq!(regions.gauge.width, regions.status.width);
}

#[test]
fn same_size_gives_same_layout() {
    for (width, height) in [(100u16, 43u16), (100, 42), (80, 24), (200, 60), (120, 41)] {
        assert_eq!(layout(width, height), layout(width, height));
    }
}

#[test]
fn every_part_lies_on_the_screen() {
    for (width, height) in [(100u16, 43u16), (100, 42), (80, 24), (1, 1), (0, 0), (936, 2184)] {
        let screen = Region::screen(width, height);
        let regions = layout(width, height).expect("the screen can be laid out");
        let mut parts = vec![regions.status, regions.gauge, regions.chart, regions.table, regions.bottom];
        if let Some(lists) = regions.lists {
            parts.push(lists.filters);
            parts.push(lists.top_queried);
            parts.push(lists.top_blocked);
            parts.push(lists.top_clients);
        }
        assert!(parts_within(&parts, &screen));
    }
}

#[test]
fn lists_follow_the_threshold() {
    assert_eq!(LIST_THRESHOLD, 42);
    assert!(!shows_lists(0));
    assert!(!shows_lists(42));
    assert!(shows_lists(43));
    assert!(shows_lists(u16::MAX));
    assert!(layout(80, 42).unwrap().lists.is_none());
    assert!(layout(80, 43).unwrap().lists.is_some());
}

#[test]
fn screens_beyond_the_solver_are_refused() {
    assert_eq!(layout(100, 2185), None);
    assert_eq!(layout(100, u16::MAX), None);
    assert_eq!(layout(937, 50), None);
    assert!(layout(936, 2184).is_some());
}

#[test]
fn sizings_are_the_plan() {
    assert_eq!(
        band_sizings(43),
        vec![Sizing::Percentage(30), Sizing::Min(1), Sizing::Percentage(20)]
    );
    assert_eq!(
        band_sizings(42),
        vec![Sizing::Percentage(30), Sizing::Min(1), Sizing::Percentage(0)]
    );
    assert_eq!(top_sizings(), vec![Sizing::Percentage(30), Sizing::Percentage(70)]);
    assert_eq!(left_sizings(), vec![Sizing::Min(0), Sizing::Length(3)]);
    assert_eq!(list_sizings(), vec![Sizing::Percentage(25); 4]);
}

#[test]
fn split_cuts_a_fixed_strip() {
    let parts = split(Axis::Vertical, &vec![Sizing::Length(5), Sizing::Min(0)], region(2, 2, 10, 10));
    assert_eq!(parts, Some(vec![region(2, 2, 10, 5), region(2, 7, 10, 5)]));
}

#[test]
fn split_cuts_side_by_side() {
    let parts = split(
        Axis::Horizontal,
        &vec![Sizing::Percentage(30), Sizing::Percentage(70)],
        region(0, 0, 100, 12),
    );
    assert_eq!(parts, Some(vec![region(0, 0, 30, 12), region(30, 0, 70, 12)]));
}

#[test]
fn split_of_nothing_is_empty() {
    assert_eq!(split(Axis::Vertical, &vec![], region(0, 0, 10, 10)), Some(vec![]));
}

#[test]
fn split_refuses_what_the_solver_cannot_take() {
    let half = vec![Sizing::Percentage(50), Sizing::Percentage(50)];
    assert!(can_split(Axis::Horizontal, &half, region(0, 0, 1310, 10)));
    assert!(!can_split(Axis::Horizontal, &half, region(0, 0, 1311, 10)));
    assert_eq!(split(Axis::Horizontal, &half, region(0, 0, 1311, 10)), None);
    assert!(can_split(Axis::Vertical, &half, region(0, 0, 1311, 10)));
    assert!(!can_split(Axis::Vertical, &vec![Sizing::Min(1)], region(65535, 0, 1, 1)));
    assert_eq!(split(Axis::Vertical, &vec![Sizing::Min(1)], region(0, 65535, 1, 1)), None);
    assert!(can_split(Axis::Vertical, &vec![Sizing::Min(1)], region(65534, 65534, 1, 1)));
}

#[test]
fn fits_bounds_the_product() {
    assert!(fits(&Sizing::Percentage(70), 936));
    assert!(!fits(&Sizing::Percentage(70), 937));
    assert!(fits(&Sizing::Percentage(1), 65535));
    assert!(fits(&Sizing::Percentage(0), 65535));
    assert!(!fits(&Sizing::Percentage(2), 65535));
    assert!(fits(&Sizing::Length(65535), 65535));
    assert!(fits(&Sizing::Min(65535), 65535));
}

#[test]
fn parts_of_keeps_parts_inside() {
    let area = region(3, 4, 40, 20);
    let parts = parts_of(Axis::Horizontal, &list_sizings(), area).expect("the split can be made");
    assert_eq!(
        parts,
        vec![region(3, 4, 10, 20), region(13, 4, 10, 20), region(23, 4, 10, 20), region(33, 4, 10, 20)]
    );
    assert!(parts_within(&parts, &area));
    assert_eq!(parts_of(Axis::Horizontal, &list_sizings(), region(0, 0, 2622, 1)), None);
}

#[test]
fn assemble_names_the_parts() {
    let bands = vec![region(0, 0, 9, 3), region(0, 3, 9, 4), region(0, 7, 9, 2)];
    let top = vec![region(0, 0, 2, 3), region(2, 0, 7, 3)];
    let left = vec![region(0, 0, 2, 0), region(0, 0, 2, 3)];
    let quarters = vec![region(0, 7, 2, 2), region(2, 7, 2, 2), region(4, 7, 2, 2), region(6, 7, 3, 2)];
    let lists = name_lists(&quarters);
    assert_eq!(lists.filters, quarters[0]);
    assert_eq!(lists.top_queried, quarters[1]);
    assert_eq!(lists.top_blocked, quarters[2]);
    assert_eq!(lists.top_clients, quarters[3]);
    let regions = assemble(&bands, &top, &left, Some(lists));
    assert_eq!(regions.status, left[0]);
    assert_eq!(regions.gauge, left[1]);
    assert_eq!(regions.chart, top[1]);
    assert_eq!(regions.table, bands[1]);
    assert_eq!(regions.bottom, bands[2]);
    assert_eq!(regions.lists, Some(lists));
    assert_eq!(assemble(&bands, &top, &left, None).lists, None);
}

#[test]
fn regions_know_their_edges() {
    let screen = Region::screen(80, 24);
    assert_eq!(screen, region(0, 0, 80, 24));
    assert!(screen.is_on_grid());
    assert!(region(65535, 0, 0, 0).is_on_grid());
    assert!(!region(65535, 0, 1, 0).is_on_grid());
    assert!(!region(0, 1, 0, 65535).is_on_grid());
    assert!(region(10, 10, 5, 5).lies_within(&screen));
    assert!(region(75, 19, 5, 5).lies_within(&screen));
    assert!(!region(76, 19, 5, 5).lies_within(&screen));
    assert!(!region(75, 20, 5, 5).lies_within(&screen));
    assert!(!region(0, 0, 1, 1).lies_within(&region(1, 0, 5, 5)));
    assert!(parts_within(&vec![], &screen));
    assert!(!parts_within(&vec![region(0, 0, 1, 1), region(80, 0, 1, 1)], &screen));
}

#[test]
fn a_screen_is_laid_out_exactly_if_it_is_layable() {
    for (width, height) in [
        (0u16, 0u16),
        (1, 1),
        (100, 43),
        (936, 2184),
        (937, 2184),
        (936, 2185),
        (937, 50),
        (100, 2185),
        (u16::MAX, u16::MAX),
    ] {
        let layable = width <= 936 && height <= 2184;
        assert_eq!(can_layout(width, height), layable);
        assert_eq!(layout(width, height).is_some(), layable);
    }
}

#[test]
fn clip_keeps_what_lies_inside() {
    let outer = region(10, 20, 30, 40);
    assert_eq!(region(10, 20, 30, 40).clip(&outer), region(10, 20, 30, 40));
    assert_eq!(region(15, 25, 5, 5).clip(&outer), region(15, 25, 5, 5));
    assert_eq!(region(40, 60, 0, 0).clip(&outer), region(40, 60, 0, 0));
}

#[test]
fn clip_cuts_back_what_reaches_outside() {
    let outer = region(10, 20, 30, 40);
    assert_eq!(region(0, 0, 100, 100).clip(&outer), outer);
    assert_eq!(region(5, 25, 10, 5).clip(&outer), region(10, 25, 5, 5));
    assert_eq!(region(35, 55, 10, 10).clip(&outer), region(35, 55, 5, 5));
    assert_eq!(region(0, 0, 5, 5).clip(&outer), region(10, 20, 0, 0));
    assert_eq!(region(50, 70, 5, 5).clip(&outer), region(40, 60, 0, 0));
    assert_eq!(region(15, 0, 5, 10).clip(&outer), region(15, 20, 5, 0));
    let corner = region(65535, 65535, 65535, 65535);
    assert_eq!(region(0, 0, 65535, 65535).clip(&corner), region(65535, 65535, 0, 0));
    assert_eq!(corner.clip(&region(0, 0, 65535, 65535)), region(65535, 65535, 0, 0));
}

#[test]
fn clip_parts_clips_each_part() {
    let area = region(0, 0, 10, 10);
    let parts = vec![region(0, 0, 10, 4), region(0, 4, 10, 7), region(0, 11, 12, 1)];
    let clipped = clip_parts(&parts, &area);
    assert_eq!(clipped, vec![region(0, 0, 10, 4), region(0, 4, 10, 6), region(0, 10, 10, 0)]);
    assert!(parts_within(&clipped, &area));
    let inside = vec![region(0, 0, 10, 4), region(0, 4, 10, 6)];
    assert_eq!(clip_parts(&inside, &area), inside);
    assert_eq!(clip_parts(&vec![], &area), vec![]);
}

#[test]
fn between_is_the_nearest_value_in_range() {
    assert_eq!(between(5, 1, 9), 5);
    assert_eq!(between(0, 1, 9), 1);
    assert_eq!(between(10, 1, 9), 9);
    assert_eq!(between(1, 1, 9), 1);
    assert_eq!(between(9, 1, 9), 9);
    assert_eq!(between(3, 7, 7), 7);
}

#[test]
fn the_last_part_of_a_split_ends_at_the_far_edge() {
    let thirds = vec![Sizing::Percentage(33), Sizing::Percentage(33), Sizing::Percentage(33)];
    for area in [region(2, 3, 100, 10), region(0, 0, 7, 7), region(5, 5, 1, 1), region(9, 9, 0, 0)] {
        let across = split(Axis::Horizontal, &thirds, area).expect("the split can be made");
        assert_eq!(across.len(), 3);
        assert_eq!(across[2].x + across[2].width, area.x + area.width);
        let down = split(Axis::Vertical, &thirds, area).expect("the split can be made");
        assert_eq!(down.len(), 3);
        assert_eq!(down[2].y + down[2].height, area.y + area.height);
        let clipped = parts_of(Axis::Vertical, &thirds, area).expect("the split can be made");
        assert_eq!(clipped[2].y + clipped[2].height, area.y + area.height);
        assert!(parts_within(&clipped, &area));
    }
    let strip = split(Axis::Vertical, &vec![Sizing::Min(0), Sizing::Length(3)], region(0, 0, 30, 12))
        .expect("the split can be made");
    assert_eq!(strip, vec![region(0, 0, 30, 9), region(0, 9, 30, 3)]);
}

#[test]
fn a_frame_reaches_the_far_edges() {
    for (width, height) in [
        (100u16, 43u16),
        (100, 42),
        (101, 47),
        (77, 45),
        (80, 24),
        (3, 3),
        (1, 1),
        (0, 0),
        (936, 2184),
    ] {
        let frame = layout(width, height).expect("the screen can be laid out");
        assert_eq!(frame.bottom.y + frame.bottom.height, height);
        assert_eq!(frame.lists.is_some(), height > 42);
        if let Some(lists) = frame.lists {
            for list in [lists.filters, lists.top_queried, lists.top_blocked, lists.top_clients] {
                assert!(list.lies_within(&frame.bottom));
            }
            assert_eq!(
                lists.top_clients.x + lists.top_clients.width,
                frame.bottom.x + frame.bottom.width
            );
        }
    }
}

#[test]
fn clip_keeps_the_far_edge_of_the_last_part() {
    let area = region(4, 4, 20, 10);
    let last = region(18, 4, 6, 10);
    assert_eq!(last.clip(&area), last);
    let wide = region(18, 0, 6, 14);
    let clipped = wide.clip(&area);
    assert_eq!(clipped, region(18, 4, 6, 10));
    assert_eq!(clipped.x + clipped.width, area.x + area.width);
}
