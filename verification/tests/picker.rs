use compass::config::frecency::FrecencyConfig;
use compass::config::persistence::PersistenceConfig;
use compass::config::picker::jump_keymaps::{JumpKeymap, JumpKeymapList};
use compass::config::picker::window_grid_size::WindowGridSize;
use compass::functions::follow::keys::{follow_buf, follow_places};
use compass::state::track_list::TrackList;
use compass::config::tracker::Debounce;
use compass::functions::open::priority::unique_bufs_priority;
use compass::functions::{cmd_completion, get_open_completion, CommandNames};
use compass::common_types::extmark::Extmark;
use compass::common_types::timestamp::Timestamp;
use compass::state::record::{ChangeTypeRecord, Record, Tick, TypeRecord};
use compass::state::worker::{Job, Worker};
use compass::ui::grid::{follow_key_mapping, follow_mapping, get_goto_string, goto_mapping, GridLayout};

fn keeping(enable: bool) -> PersistenceConfig {
    PersistenceConfig { enable, path: None, interval_milliseconds: 3000 }
}

#[test]
fn a_job_runs_again_after_its_wait() {
    let debounce = Debounce::default();
    let mut worker = Worker::new(1000);
    assert!(!worker.is_due(Job::Track, 1199, &debounce, &keeping(true)));
    assert!(worker.is_due(Job::Track, 1200, &debounce, &keeping(true)));
    assert!(!worker.is_due(Job::Maintain, 1499, &debounce, &keeping(true)));
    assert!(worker.is_due(Job::Maintain, 1500, &debounce, &keeping(true)));
    assert!(!worker.is_due(Job::Persist, 3999, &debounce, &keeping(true)));
    assert!(worker.is_due(Job::Persist, 4000, &debounce, &keeping(true)));
    assert!(!worker.is_due(Job::Persist, 4000, &debounce, &keeping(false)));
    // a clock that went back
    assert!(!worker.is_due(Job::Track, 0, &debounce, &keeping(true)));

    worker.done(Job::Track, 1200);
    assert_eq!(worker, Worker { tracked_at: 1200, maintained_at: 1000, persisted_at: 1000 });
    assert!(!worker.is_due(Job::Track, 1399, &debounce, &keeping(true)));
    assert!(worker.is_due(Job::Track, 1400, &debounce, &keeping(true)));
    worker.done(Job::Maintain, 1500);
    worker.done(Job::Persist, 4000);
    assert_eq!(worker, Worker { tracked_at: 1200, maintained_at: 1500, persisted_at: 4000 });

    let at_once = Debounce { run: 0, maintenance: 0, activate: 0 };
    assert!(worker.is_due(Job::Track, 0, &at_once, &keeping(true)));
}

#[test]
fn one_record_of_each_buffer_comes_first() {
    let bufs = vec![1, 1, 2, 1, 3, 2];
    assert_eq!(unique_bufs_priority(&bufs, 2), vec![0, 2]);
    assert_eq!(unique_bufs_priority(&bufs, 3), vec![0, 2, 4]);
    assert_eq!(unique_bufs_priority(&bufs, 4), vec![0, 2, 4, 1]);
    assert_eq!(unique_bufs_priority(&bufs, 6), vec![0, 2, 4, 1, 3, 5]);
    assert_eq!(unique_bufs_priority(&bufs, 60), vec![0, 2, 4, 1, 3, 5]);
    assert_eq!(unique_bufs_priority(&bufs, 0), Vec::<usize>::new());
    assert_eq!(unique_bufs_priority(&Vec::new(), 4), Vec::<usize>::new());
    assert_eq!(unique_bufs_priority(&vec![7, 7, 7], 2), vec![0, 1]);
}

#[test]
fn the_command_line_is_completed() {
    let names = vec!["follow", "goto", "open", "place", "pop"];
    assert_eq!(CommandNames::variants(), names);
    assert_eq!(cmd_completion(Vec::new()), names);
    assert_eq!(cmd_completion(vec!["go"]), names);
    assert_eq!(cmd_completion(vec!["goto", "a=b", "c"]), names);
    assert_eq!(cmd_completion(vec!["goto"]), vec!["relative", "absolute"]);
    assert_eq!(cmd_completion(vec!["goto", "relative"]), vec!["direction="]);
    assert_eq!(cmd_completion(vec!["goto", "absolute", "x=y"]), vec!["target="]);
    assert_eq!(cmd_completion(vec!["goto", "x=y"]), vec!["relative", "absolute"]);
    assert_eq!(cmd_completion(vec!["pop"]), vec!["relative"]);
    assert_eq!(cmd_completion(vec!["pop", "relative"]), vec!["direction="]);
    assert_eq!(cmd_completion(vec!["place", "change"]), vec!["change"]);
    assert_eq!(cmd_completion(vec!["follow"]), vec!["buf"]);
    assert_eq!(cmd_completion(vec!["follow", "buf"]), vec!["target=", "max_windows="]);
    assert_eq!(cmd_completion(vec!["open"]), vec!["record_types=", "max_windows="]);
    assert_eq!(get_open_completion(), vec!["record_types=", "max_windows="]);
    assert_eq!(CommandNames::from_name("goto"), Some(CommandNames::Goto));
    assert_eq!(CommandNames::from_name("follow"), Some(CommandNames::Follow));
    assert_eq!(CommandNames::from_name("open"), Some(CommandNames::Open));
    assert_eq!(CommandNames::from_name("place"), Some(CommandNames::Place));
    assert_eq!(CommandNames::from_name("pop"), Some(CommandNames::Pop));
    assert_eq!(CommandNames::from_name("Goto"), None);
}

#[test]
fn the_keys_of_the_picker() {
    let by_tick = Record::new(
        153,
        TypeRecord::Change(ChangeTypeRecord::Tick(Tick(42))),
        Extmark::new(1, (1, 0).into()),
        Timestamp::from_secs(5),
    );
    assert_eq!(get_goto_string(&by_tick), r#"tick={"buf":153,"tick":42}"#);
    let by_hand = Record::new(
        -7,
        TypeRecord::Change(ChangeTypeRecord::Manual(Some(Tick(42)))),
        Extmark::new(1, (1, 0).into()),
        Timestamp::from_secs(1700000000),
    );
    assert_eq!(get_goto_string(&by_hand), r#"time={"buf":-7,"timestamp":1700000000}"#);
    assert_eq!(goto_mapping("index=3"), ":tabclose<CR>:Compass goto absolute index=3<CR>");
    assert_eq!(
        follow_mapping("12", "6"),
        ":tabclose<CR>:Compass follow buf target=12 max_windows=6<CR>"
    );
    assert_eq!(
        follow_key_mapping(GridLayout::Open, "12", "6", "index=3"),
        ":tabclose<CR>:Compass follow buf target=12 max_windows=6<CR>"
    );
    assert_eq!(
        follow_key_mapping(GridLayout::Follow, "12", "6", "index=3"),
        ":tabclose<CR>:Compass goto absolute index=3<CR>"
    );
}

fn change(buf: i32, tick: i32, pos: (usize, usize)) -> Record {
    Record::new(
        buf,
        TypeRecord::Change(ChangeTypeRecord::Tick(tick.into())),
        Extmark::new(tick as u32, pos.into()),
        Timestamp::from_secs(1000),
    )
}

/// The records to show, as the picker chooses them.
fn unique_bufs<'a>(max_windows: WindowGridSize, list: &'a TrackList<Record>) -> Vec<&'a Record> {
    let by_score = list.frecency(Timestamp::from_secs(2000), &FrecencyConfig::default());
    let bufs: Vec<i32> = by_score.iter().map(|(_, r)| r.buf).collect();
    unique_bufs_priority(&bufs, max_windows.to_usize())
        .into_iter()
        .map(|k| by_score[k].1)
        .collect()
}

#[test]
fn can_get_unique_bufs() {
    let mut list = TrackList::<Record>::default();
    let repeated_buf = 1;
    let unique_buf = 2;
    let rec1 = change(repeated_buf, 4, (2, 2));
    list.push(rec1);
    let rec2 = change(repeated_buf, 11, (4, 6));
    list.push(rec2);
    let rec3 = change(unique_buf, 15, (5, 11));
    list.push(rec3.clone());
    let rec4 = change(repeated_buf, 16, (15, 42));
    list.push(rec4.clone());

    let got = unique_bufs(WindowGridSize::try_from_i32(2).unwrap(), &list);
    let mut iter = got.iter();

    assert_eq!(got.len(), 2);
    assert_eq!((**iter.next().unwrap()).typ, rec4.typ);
    assert_eq!((**iter.next().unwrap()).typ, rec3.typ);
}

#[test]
fn can_reuse_keymap_with_follow_buf() {
    let buf1 = 1;
    let buf2 = 2;
    let mut record_list: TrackList<Record> = TrackList::default();
    record_list.push(change(buf1, 3, (3, 3))); // k
    record_list.push(change(buf2, 2, (2, 2))); // f
    record_list.push(change(buf1, 1, (1, 1))); // j

    let shown = unique_bufs(WindowGridSize::default(), &record_list);
    let bufs: Vec<i32> = shown.iter().map(|r| r.buf).collect();
    let def_keymaps = JumpKeymapList::default();
    let (places, jump_keymaps) =
        follow_buf(&bufs, buf1, WindowGridSize::default().to_usize(), &def_keymaps).unwrap();
    let record_vec: Vec<&Record> = places.iter().map(|&k| shown[k]).collect();

    assert_eq!(
        record_vec.first().unwrap().typ,
        TypeRecord::Change(ChangeTypeRecord::Tick(1.into()))
    );
    assert_eq!(
        record_vec.get(1).unwrap().typ,
        TypeRecord::Change(ChangeTypeRecord::Tick(3.into()))
    );
    assert_eq!(*jump_keymaps.first().unwrap(), def_keymaps.get(0).unwrap()); // j
    assert_eq!(*jump_keymaps.get(1).unwrap(), def_keymaps.get(2).unwrap()); // k
}

#[test]
fn a_record_beyond_the_keys_gets_the_first_key_left() {
    let keys = JumpKeymapList::new(
        ["a", "b", "c"]
            .iter()
            .map(|k| JumpKeymap { follow: k.to_string(), immediate: k.to_uppercase() })
            .collect(),
    );
    let bufs = vec![9, 1, 9, 9, 1, 9, 9];
    assert_eq!(follow_places(&bufs, 9, 4), vec![0, 2, 3, 5]);
    assert_eq!(follow_places(&bufs, 1, 4), vec![1, 4]);
    assert_eq!(follow_places(&bufs, 2, 4), Vec::<usize>::new());

    let (places, got) = follow_buf(&bufs, 9, 3, &keys).unwrap();
    assert_eq!(places, vec![0, 2, 3]);
    let follow: Vec<&str> = got.iter().map(|k| k.follow.as_str()).collect();
    assert_eq!(follow, vec!["a", "c", "b"]);

    let (places, got) = follow_buf(&bufs, 1, 3, &keys).unwrap();
    assert_eq!(places, vec![1, 4]);
    let follow: Vec<&str> = got.iter().map(|k| k.follow.as_str()).collect();
    assert_eq!(follow, vec!["b", "a"]);

    assert_eq!(follow_buf(&bufs, 9, 4, &keys), None);
    assert_eq!(follow_buf(&bufs, 7, 4, &keys), Some((Vec::new(), Vec::new())));
}
