use compass::highlights::{
    HighlightList, HintHighlightList, OptsHighlight, RecordHighlightList, HIGHLIGHT_GROUPS,
};
use compass::ui::grid::GridLayout;
use compass::ui::record_mark::RecordMarkTime;

#[test]
fn the_names_of_the_groups() {
    let names = RecordHighlightList::record_hl_names(RecordMarkTime::Past);
    assert_eq!((names.mark, names.sign), ("CompassRecordPast", "CompassRecordPastSign"));
    let names = RecordHighlightList::record_hl_names(RecordMarkTime::PastClose);
    assert_eq!((names.mark, names.sign), ("CompassRecordClosePast", "CompassRecordClosePastSign"));
    let names = RecordHighlightList::record_hl_names(RecordMarkTime::Future);
    assert_eq!((names.mark, names.sign), ("CompassRecordFuture", "CompassRecordFutureSign"));
    let names = RecordHighlightList::record_hl_names(RecordMarkTime::FutureClose);
    assert_eq!(
        (names.mark, names.sign),
        ("CompassRecordCloseFuture", "CompassRecordCloseFutureSign")
    );
    let names = HintHighlightList::hint_hl_names(GridLayout::Open);
    assert_eq!((names.mark, names.path), ("CompassHintOpen", "CompassHintOpenPath"));
    let names = HintHighlightList::hint_hl_names(GridLayout::Follow);
    assert_eq!((names.mark, names.path), ("CompassHintFollow", "CompassHintFollowPath"));
}

#[test]
fn the_command_of_a_group() {
    let all = OptsHighlight::new(Some("black"), Some("yellow"), Some("bold"));
    assert_eq!(all.command("G"), "hi default G guifg=black guibg=yellow gui=bold");
    assert_eq!(OptsHighlight::new(None, None, None).command("G"), "hi default G");
    assert_eq!(OptsHighlight::new(None, Some("grey"), None).command("G"), "hi default G guibg=grey");
    assert_eq!(
        OptsHighlight::new(Some("red"), None, Some("bold")).command("X"),
        "hi default X guifg=red gui=bold"
    );
}

#[test]
fn all_groups_are_gone_through() {
    let list = HighlightList::default();
    let mut walk = list.iter();
    let mut commands = Vec::new();
    while let Some((name, opts)) = walk.next() {
        commands.push(opts.command(name));
    }
    assert_eq!(
        commands,
        vec![
            "hi default CompassRecordPast guibg=grey gui=bold",
            "hi default CompassRecordPastSign guifg=grey gui=bold",
            "hi default CompassRecordClosePast guifg=red gui=bold",
            "hi default CompassRecordClosePastSign guifg=red gui=bold",
            "hi default CompassRecordFuture guibg=grey gui=bold",
            "hi default CompassRecordFutureSign guifg=grey gui=bold",
            "hi default CompassRecordCloseFuture guifg=blue gui=bold",
            "hi default CompassRecordCloseFutureSign guifg=blue gui=bold",
            "hi default CompassHintOpen guifg=black guibg=yellow gui=bold",
            "hi default CompassHintOpenPath guifg=yellow gui=bold",
            "hi default CompassHintFollow guifg=black guibg=yellow gui=bold",
            "hi default CompassHintFollowPath guifg=yellow gui=bold",
        ]
    );
    assert_eq!(commands.len(), HIGHLIGHT_GROUPS);
    assert!(walk.next().is_none());
    assert!(walk.next().is_none());
    assert_eq!(walk.index, HIGHLIGHT_GROUPS);
    assert!(list.group(HIGHLIGHT_GROUPS).is_none());
    assert_eq!(list.group(8).unwrap().0, "CompassHintOpen");
    assert_eq!(
        list.tracks.get(RecordMarkTime::PastClose).mark.fg,
        list.tracks.close_past.mark.fg
    );
}
