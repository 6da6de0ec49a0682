use ratatui_intro::layout::{split, Constraint, Direction, Rect};

fn rect(x: u16, y: u16, width: u16, height: u16) -> Rect {
    Rect { x, y, width, height }
}

/// Whether `parts` lie edge to edge along `direction` and cover `frame`
/// from its first cell to its last, each as long as `frame` on the other axis.
fn covers(parts: &[Rect], frame: Rect, direction: Direction) -> bool {
    let (mut at, end) = match direction {
        Direction::Horizontal => (u32::from(frame.x), u32::from(frame.x) + u32::from(frame.width)),
        Direction::Vertical => (u32::from(frame.y), u32::from(frame.y) + u32::from(frame.height)),
    };
    for part in parts {
        let (start, extent, same) = match direction {
            Direction::Horizontal => (
                part.x,
                part.width,
                part.y == frame.y && part.height == frame.height,
            ),
            Direction::Vertical => (
                part.y,
                part.height,
                part.x == frame.x && part.width == frame.width,
            ),
        };
        if !same || u32::from(start) != at {
            return false;
        }
        at += u32::from(extent);
    }
    at == end
}

#[test]
fn halves_of_width_100() {
    let parts = split(
        rect(0, 0, 100, 10),
        Direction::Horizontal,
        0,
        &vec![Constraint::Percentage(50), Constraint::Percentage(50)],
    );
    assert_eq!(parts, vec![rect(0, 0, 50, 10), rect(50, 0, 50, 10)]);
}

#[test]
fn thirty_and_seventy_of_width_100() {
    let parts = split(
        rect(0, 0, 100, 10),
        Direction::Horizontal,
        0,
        &vec![Constraint::Percentage(30), Constraint::Percentage(70)],
    );
    assert_eq!(parts, vec![rect(0, 0, 30, 10), rect(30, 0, 70, 10)]);
    assert_eq!(parts[0].width + parts[1].width, 100);
}

#[test]
fn min_takes_what_length_leaves_inside_the_margin() {
    let parts = split(
        rect(0, 0, 40, 20),
        Direction::Vertical,
        1,
        &vec![Constraint::Min(1), Constraint::Length(2)],
    );
    assert_eq!(parts, vec![rect(1, 1, 38, 16), rect(1, 17, 38, 2)]);
    assert_eq!(parts[0].height, 18 - 2);
    assert_eq!(parts[1].height, 2);
}

#[test]
fn vertical_split_keeps_the_column() {
    let parts = split(
        rect(7, 3, 30, 40),
        Direction::Vertical,
        0,
        &vec![Constraint::Percentage(80), Constraint::Percentage(20)],
    );
    assert_eq!(parts, vec![rect(7, 3, 30, 32), rect(7, 35, 30, 8)]);
}

#[test]
fn one_part_for_each_constraint() {
    let area = rect(2, 5, 60, 30);
    let lists: Vec<Vec<Constraint>> = vec![
        vec![],
        vec![Constraint::Min(0)],
        vec![Constraint::Length(5), Constraint::Min(0)],
        vec![Constraint::Percentage(10), Constraint::Length(3), Constraint::Min(4)],
        vec![
            Constraint::Percentage(25),
            Constraint::Percentage(25),
            Constraint::Percentage(25),
            Constraint::Percentage(25),
        ],
    ];
    for list in &lists {
        assert_eq!(split(area, Direction::Horizontal, 0, list).len(), list.len());
        assert_eq!(split(area, Direction::Vertical, 2, list).len(), list.len());
    }
}

#[test]
fn parts_tile_the_inside_of_the_area() {
    let area = rect(4, 6, 81, 25);
    let inside = rect(6, 8, 77, 21);
    let lists: Vec<Vec<Constraint>> = vec![
        vec![Constraint::Percentage(50), Constraint::Percentage(50)],
        vec![Constraint::Percentage(30), Constraint::Percentage(70)],
        vec![Constraint::Min(1), Constraint::Length(2)],
        vec![Constraint::Length(5), Constraint::Min(0)],
        vec![Constraint::Length(3), Constraint::Percentage(40), Constraint::Min(2)],
    ];
    for list in &lists {
        let across = split(area, Direction::Horizontal, 2, list);
        assert!(covers(&across, inside, Direction::Horizontal));
        let down = split(area, Direction::Vertical, 2, list);
        assert!(covers(&down, inside, Direction::Vertical));
    }
}

#[test]
fn constraints_that_ask_for_too_much_or_too_little_still_tile() {
    let area = rect(0, 0, 20, 4);
    let lists: Vec<Vec<Constraint>> = vec![
        vec![Constraint::Length(5), Constraint::Length(5)],
        vec![Constraint::Length(15), Constraint::Length(15)],
        vec![Constraint::Percentage(80), Constraint::Percentage(80)],
        vec![Constraint::Min(30), Constraint::Length(2)],
    ];
    for list in &lists {
        let parts = split(area, Direction::Horizontal, 0, list);
        assert_eq!(parts.len(), list.len());
        assert!(covers(&parts, area, Direction::Horizontal));
    }
}

#[test]
fn split_twice_gives_the_same_parts() {
    let area = rect(3, 1, 97, 33);
    let list = vec![
        Constraint::Percentage(30),
        Constraint::Length(7),
        Constraint::Min(5),
    ];
    let first = split(area, Direction::Horizontal, 1, &list);
    let second = split(area, Direction::Horizontal, 1, &list);
    assert_eq!(first, second);
    let down = split(area, Direction::Vertical, 1, &list);
    assert_eq!(down, split(area, Direction::Vertical, 1, &list));
}

#[test]
fn margin_that_does_not_fit_leaves_empty_parts_at_the_origin() {
    let list = vec![Constraint::Percentage(50), Constraint::Percentage(50)];
    let parts = split(rect(10, 10, 3, 1), Direction::Horizontal, 1, &list);
    assert_eq!(parts, vec![rect(0, 0, 0, 0), rect(0, 0, 0, 0)]);
}

#[test]
fn margin_beyond_half_of_u16_leaves_empty_parts_at_the_origin() {
    let list = vec![Constraint::Min(1), Constraint::Length(2)];
    let area = rect(5, 5, 65535, 65535);
    assert!(area.fits_margin(32768));
    let parts = split(area, Direction::Vertical, 32768, &list);
    assert_eq!(parts, vec![rect(0, 0, 0, 0), rect(0, 0, 0, 0)]);
    let parts = split(area, Direction::Horizontal, 65535, &list);
    assert_eq!(parts, vec![rect(0, 0, 0, 0), rect(0, 0, 0, 0)]);
}

#[test]
fn fits_margin_tells_when_the_inner_origin_can_be_written() {
    assert!(rect(0, 0, 80, 24).fits_margin(0));
    assert!(rect(0, 0, 80, 24).fits_margin(1));
    assert!(rect(65535, 65535, 80, 24).fits_margin(0));
    assert!(rect(65534, 65534, 2, 2).fits_margin(1));
    assert!(!rect(65535, 0, 2, 2).fits_margin(1));
    assert!(!rect(0, 65535, 2, 2).fits_margin(1));
    assert!(rect(65535, 65535, 1, 2).fits_margin(1));
    assert!(rect(65535, 65535, 2, 1).fits_margin(1));
    assert!(rect(32768, 32768, 65535, 65535).fits_margin(32767));
    assert!(!rect(32769, 0, 65535, 65535).fits_margin(32767));
    assert!(rect(65535, 65535, 65535, 65535).fits_margin(32768));
    assert!(rect(65535, 65535, 0, 0).fits_margin(65535));
}

#[test]
fn every_list_of_up_to_three_constraints_tiles_every_small_width() {
    let choices = [
        Constraint::Percentage(0),
        Constraint::Percentage(15),
        Constraint::Percentage(50),
        Constraint::Percentage(100),
        Constraint::Length(0),
        Constraint::Length(3),
        Constraint::Length(40),
        Constraint::Min(0),
        Constraint::Min(1),
        Constraint::Min(25),
    ];
    let mut lists: Vec<Vec<Constraint>> = Vec::new();
    for a in choices {
        lists.push(vec![a]);
        for b in choices {
            lists.push(vec![a, b]);
            for c in choices {
                lists.push(vec![a, b, c]);
            }
        }
    }
    for width in 0..=33u16 {
        let area = rect(9, 2, width, 5);
        for list in &lists {
            let parts = split(area, Direction::Horizontal, 0, list);
            assert_eq!(parts.len(), list.len());
            assert!(
                covers(&parts, area, Direction::Horizontal),
                "{:?} on width {} gave {:?}",
                list,
                width,
                parts
            );
        }
    }
}

#[test]
fn one_constraint_gets_the_whole_inside() {
    for constraint in [
        Constraint::Percentage(10),
        Constraint::Length(3),
        Constraint::Min(50),
    ] {
        let parts = split(rect(2, 3, 20, 10), Direction::Horizontal, 2, &vec![constraint]);
        assert_eq!(parts, vec![rect(4, 5, 16, 6)]);
    }
}

#[test]
fn area_that_ends_beyond_u16_is_covered_as_far_as_16_bits_reach() {
    let list = vec![Constraint::Percentage(50), Constraint::Percentage(50)];
    let across = split(rect(65530, 7, 10, 1), Direction::Horizontal, 0, &list);
    assert_eq!(across.len(), 2);
    assert_eq!(across[0].x, 65530);
    assert_eq!(u32::from(across[0].x) + u32::from(across[0].width), u32::from(across[1].x));
    assert_eq!(u32::from(across[1].x) + u32::from(across[1].width), 65535);
    assert!(across.iter().all(|part| part.y == 7 && part.height == 1));

    let down = split(rect(7, 65000, 3, 1000), Direction::Vertical, 0, &list);
    assert_eq!(down.len(), 2);
    assert_eq!(down[0].y, 65000);
    assert_eq!(u32::from(down[0].y) + u32::from(down[0].height), u32::from(down[1].y));
    assert_eq!(u32::from(down[1].y) + u32::from(down[1].height), 65535);
    assert!(down.iter().all(|part| part.x == 7 && part.width == 3));
}

#[test]
fn tall_areas_with_margins_are_tiled_from_top_to_bottom() {
    let lists: Vec<Vec<Constraint>> = vec![
        vec![Constraint::Min(1), Constraint::Length(2)],
        vec![Constraint::Percentage(33), Constraint::Percentage(33), Constraint::Percentage(34)],
        vec![Constraint::Percentage(15), Constraint::Percentage(15), Constraint::Percentage(15)],
        vec![Constraint::Length(1), Constraint::Percentage(50), Constraint::Min(3), Constraint::Length(1)],
    ];
    for margin in 0..=3u16 {
        for height in 0..=60u16 {
            let area = rect(60000, 65000, 40, height);
            let inside = if 40 < 2 * margin || height < 2 * margin {
                rect(0, 0, 0, 0)
            } else {
                rect(60000 + margin, 65000 + margin, 40 - 2 * margin, height - 2 * margin)
            };
            for list in &lists {
                let parts = split(area, Direction::Vertical, margin, list);
                assert!(
                    covers(&parts, inside, Direction::Vertical),
                    "{:?} on height {} with margin {} gave {:?}",
                    list,
                    height,
                    margin,
                    parts
                );
            }
        }
    }
}

#[test]
fn a_width_is_divided_the_same_way_whatever_the_height() {
    let lists: Vec<Vec<Constraint>> = vec![
        vec![Constraint::Percentage(30), Constraint::Percentage(70)],
        vec![Constraint::Min(1), Constraint::Length(2)],
        vec![Constraint::Length(5), Constraint::Length(5)],
        vec![Constraint::Percentage(80), Constraint::Percentage(80)],
        vec![Constraint::Min(30), Constraint::Min(30)],
        vec![Constraint::Percentage(50), Constraint::Length(10), Constraint::Percentage(50)],
    ];
    for list in &lists {
        let first: Vec<(u16, u16)> = split(rect(0, 0, 20, 0), Direction::Horizontal, 0, list)
            .iter()
            .map(|part| (part.x, part.width))
            .collect();
        for height in 1..300u16 {
            let again: Vec<(u16, u16)> = split(rect(0, 0, 20, height), Direction::Horizontal, 0, list)
                .iter()
                .map(|part| (part.x, part.width))
                .collect();
            assert_eq!(again, first);
        }
    }
}
