use compass::common_types::cursor_position::{CursorPosition, CursorRange};
use compass::common_types::direction::Direction;
use compass::common_types::extmark::Extmark;
use compass::config::marks::update_range::{Range, UpdateRange};
use compass::config::marks::MarksConfig;

#[test]
fn can_identify_close_same_line_position() {
    let pos1: CursorPosition = (420, 0).into();
    let pos2: CursorPosition = (420, 6969).into();

    assert!(pos1.is_nearby(&pos2, &MarksConfig::default().update_range))
}

#[test]
fn can_identify_close_multi_line_position() {
    let pos1: CursorPosition = (29, 42).into();
    let pos2: CursorPosition = (28, 45).into();

    assert!(pos1.is_nearby(&pos2, &MarksConfig::default().update_range))
}

fn near(a: (usize, usize), b: (usize, usize), conf: &UpdateRange) -> bool {
    let a = CursorPosition::from(a);
    let b = CursorPosition::from(b);
    assert_eq!(a.is_nearby(&b, conf), b.is_nearby(&a, conf));
    a.is_nearby(&b, conf)
}

#[test]
fn nearness_with_the_default_ranges() {
    let conf = UpdateRange::default();
    // within 10 lines: near whatever the columns
    assert!(near((10, 0), (20, 9999), &conf));
    // within 25 lines and 25 columns
    assert!(near((10, 0), (21, 25), &conf));
    assert!(near((10, 0), (35, 25), &conf));
    assert!(!near((10, 0), (21, 26), &conf));
    assert!(!near((10, 0), (36, 0), &conf));
    assert!(!near((36, 5), (10, 5), &conf));
}

#[test]
fn nearness_with_other_ranges() {
    let none = UpdateRange { lines: None, columns: None };
    assert!(near((0, 0), (usize::MAX, usize::MAX), &none));

    let columns_alone = UpdateRange {
        lines: Some(Range { single_max_distance: None, combined_max_distance: None }),
        columns: Some(Range { single_max_distance: Some(3), combined_max_distance: None }),
    };
    assert!(near((1, 10), (900, 13), &columns_alone));
    assert!(!near((1, 10), (1, 14), &columns_alone));

    let lines_only = UpdateRange {
        lines: Some(Range { single_max_distance: None, combined_max_distance: Some(2) }),
        columns: None,
    };
    assert!(near((5, 0), (7, 500), &lines_only));
    assert!(!near((5, 0), (8, 0), &lines_only));
}

#[test]
fn places_as_marks_count_them() {
    assert_eq!(CursorPosition::from((5, 3)).to_range(), CursorRange::from((4, 3)));
    assert_eq!(CursorPosition::from((1, 0)).to_range(), CursorRange::from((0, 0)));
    assert_eq!(CursorPosition::from((0, 7)).to_range(), CursorRange::from((0, 7)));
    assert_eq!(CursorRange::from((4, 3)).to_position(), CursorPosition::from((5, 3)));
}

#[test]
fn a_mark_stands_where_the_editor_reports_it() {
    let mark = Extmark::new(7, (10, 4).into());
    assert_eq!(mark.id(), 7);
    assert_eq!(mark.id, 7);
    assert_eq!(mark.init_pos(), (10, 4).into());
    assert_eq!(mark.pos(Some((12, 1).into())), (12, 1).into());
    assert_eq!(mark.pos(None), (10, 4).into());
    assert_eq!(mark.pos(Some((2, 0).into())), (10, 4).into());
    assert_eq!(mark.pos(Some((2, 1).into())), (2, 1).into());
    assert_eq!(mark.get_range(Some((12, 1).into())), (11, 1).into());
    assert_eq!(mark.get_range(None), (9, 4).into());
}

#[test]
fn directions_by_name() {
    assert_eq!(Direction::from_name("back"), Some(Direction::Back));
    assert_eq!(Direction::from_name("forward"), Some(Direction::Forward));
    assert_eq!(Direction::from_name("Back"), None);
    assert_eq!(Direction::from_name(""), None);
    assert_eq!(Direction::default(), Direction::Back);
}
