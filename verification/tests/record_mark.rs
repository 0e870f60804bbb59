use compass::common_types::cursor_position::CursorRange;
use compass::ui::record_mark::{
    get_first_non_blank_col, get_non_blank_pos, mark_col, recreate_mark_time, truncate_path,
    RecordMarkTime,
};

#[test]
fn recreates_mark_track_respecting_pos_middle() {
    let ran = Some(1);

    let r = 0..4;
    let mut hl_vec = Vec::new();
    for i in r {
        hl_vec.push(recreate_mark_time(i, ran));
    }

    let want = Vec::from([
        RecordMarkTime::Future,
        RecordMarkTime::FutureClose,
        RecordMarkTime::PastClose,
        RecordMarkTime::Past,
    ]);
    assert_eq!(hl_vec, want);
}

#[test]
fn recreates_mark_track_respecting_pos_start() {
    let ran = None;

    let r = 0..4;
    let mut hl_vec = Vec::new();
    for i in r {
        hl_vec.push(recreate_mark_time(i, ran));
    }

    let want = Vec::from([
        RecordMarkTime::PastClose,
        RecordMarkTime::Past,
        RecordMarkTime::Past,
        RecordMarkTime::Past,
    ]);
    assert_eq!(hl_vec, want);
}

#[test]
fn recreates_mark_time_at_the_edges() {
    assert_eq!(recreate_mark_time(0, Some(0)), RecordMarkTime::FutureClose);
    assert_eq!(recreate_mark_time(usize::MAX, Some(usize::MAX)), RecordMarkTime::FutureClose);
    assert_eq!(recreate_mark_time(0, Some(usize::MAX)), RecordMarkTime::Future);
    assert_eq!(recreate_mark_time(usize::MAX, Some(usize::MAX - 1)), RecordMarkTime::PastClose);
    assert_eq!(recreate_mark_time(usize::MAX, None), RecordMarkTime::Past);
}

/// The lines around `line` of a buffer that holds `buf`.
fn around(buf: &[&str], line: usize) -> Vec<Option<String>> {
    (0..11)
        .map(|k| (line + k).checked_sub(5).and_then(|l| buf.get(l)).map(|s| s.to_string()))
        .collect()
}

fn non_blank(buf: &[&str], at: (usize, usize)) -> CursorRange {
    get_non_blank_pos(&around(buf, at.0), &at.into())
}

#[test]
fn gets_first_non_blank_col() {
    let buf = [
        "\t\topener line",
        "\t\t    processed line   ",
        "l",
        "  finish line",
    ];

    let got = non_blank(&buf, (1usize, 0usize));

    assert_eq!(got, (1usize, 6usize).into());
}

#[test]
fn get_first_non_blank_line_and_col_downside() {
    let buf = [
        "\t\topener line",
        "",
        "", // processed line
        "",
        "\t\texpected line",
        "\t\t",
    ];

    let got = non_blank(&buf, (2usize, 0usize));

    assert_eq!(got, (4usize, 2usize).into());
}

#[test]
fn get_first_non_blank_line_and_col_upside() {
    let buf = [
        "\t\topener line",
        "\t\texpected line",
        "\t\t",
        "", // processed line
        "",
        "\t\t",
        "",
    ];

    let got = non_blank(&buf, (3usize, 0usize));

    assert_eq!(got, (1usize, 2usize).into());
}

#[test]
fn get_first_non_blank_line_and_col_when_end_line() {
    let buf = ["\t\topener line", "\t 234567", "  finish line"];

    let got = non_blank(&buf, (1usize, 7usize));

    assert_eq!(got, (1usize, 7usize).into());
}

#[test]
fn a_mark_stays_where_no_line_has_a_place() {
    let blank = ["", " ", "\t", "", "  ", "", "", "", "", "", "", "", "x"];
    assert_eq!(non_blank(&blank, (6, 3)), (6, 3).into());
    assert_eq!(non_blank(&blank, (7, 3)), (12, 0).into());
    assert_eq!(non_blank(&[], (0, 0)), (0, 0).into());
    assert_eq!(non_blank(&["", "", "   y"], (0, 2)), (2, 3).into());
}

#[test]
fn the_line_below_is_tried_before_the_line_above() {
    let buf = ["above", "", " below"];
    assert_eq!(non_blank(&buf, (1, 0)), (2, 1).into());
    let buf = ["above", "", ""];
    assert_eq!(non_blank(&buf, (1, 0)), (0, 0).into());
}

#[test]
fn first_non_blank_col_of_a_line() {
    assert_eq!(get_first_non_blank_col("", None), None);
    assert_eq!(get_first_non_blank_col("", Some(0)), None);
    assert_eq!(get_first_non_blank_col("   ", None), None);
    assert_eq!(get_first_non_blank_col("  a b", None), Some(2));
    assert_eq!(get_first_non_blank_col("  a b", Some(3)), Some(4));
    assert_eq!(get_first_non_blank_col("  a ", Some(3)), Some(3));
    assert_eq!(get_first_non_blank_col("  a  ", Some(4)), Some(4));
    assert_eq!(get_first_non_blank_col("  a  ", Some(2)), Some(2));
    assert_eq!(get_first_non_blank_col("  a   ", Some(3)), None);
    assert_eq!(get_first_non_blank_col("ab", Some(10)), Some(1));
    assert_eq!(get_first_non_blank_col("\u{a0}\u{2003}x", None), Some(2));
    // the column asked for counts bytes, the column found counts characters
    assert_eq!(get_first_non_blank_col("éé xy", Some(2)), Some(1));
    assert_eq!(get_first_non_blank_col("éé xy", Some(3)), Some(3));
    assert_eq!(get_first_non_blank_col("€𝄞 x", Some(4)), Some(3));
    assert_eq!(get_first_non_blank_col("€𝄞 x", Some(3)), Some(3));
    let marks = vec![(false, 0), (true, 1), (false, 2), (true, 3)];
    assert_eq!(mark_col(&marks, None), Some(1));
    assert_eq!(mark_col(&marks, Some(2)), Some(3));
    assert_eq!(mark_col(&marks, Some(3)), Some(3));
    let marks = vec![(false, 0), (true, 1), (false, 2), (false, 3), (false, 4)];
    assert_eq!(mark_col(&marks, Some(2)), None);
    assert_eq!(mark_col(&marks, Some(1)), Some(1));
    let wide = vec![(true, 0), (true, 4), (true, 8), (true, 12)];
    assert_eq!(mark_col(&wide, Some(1)), Some(1));
    assert_eq!(mark_col(&wide, Some(2)), Some(1));
    assert_eq!(mark_col(&Vec::new(), Some(0)), None);
}

fn parts(path: &str) -> Vec<String> {
    path.split('/').map(str::to_owned).collect()
}

#[test]
fn a_path_is_cut_to_its_last_parts() {
    assert_eq!(truncate_path(parts("/a/b/c/d.rs"), 2), vec!["c", "d.rs"]);
    assert_eq!(truncate_path(parts("/a/b/c/d.rs"), 1), vec!["d.rs"]);
    assert_eq!(truncate_path(parts("/a/b/c/d.rs"), 0), Vec::<String>::new());
    assert_eq!(truncate_path(parts("/a/b/c/d.rs"), 5), parts("/a/b/c/d.rs"));
    assert_eq!(truncate_path(parts("/a/b/c/d.rs"), 50), parts("/a/b/c/d.rs"));
    assert_eq!(truncate_path(Vec::new(), 3), Vec::<String>::new());
}
