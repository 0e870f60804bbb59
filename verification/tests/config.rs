use compass::common_types::cursor_position::CursorPosition;
use compass::config::common::sign::SignText;
use compass::config::marks::signs::Signs;
use compass::config::persistence::{escaped_path, PersistenceConfig};
use compass::config::picker::filename::Filename;
use compass::config::picker::jump_keymaps::{JumpKeymap, JumpKeymapList};
use compass::config::picker::window_grid_size::{GridSizeFault, WindowGridSize};
use compass::config::picker::PickerConfig;
use compass::config::tracker::{Debounce, TrackerConfig};
use compass::config::Config;
use compass::error::{Error, InputError};
use compass::ui::grid::{calc_halves, GridLayout};
use compass::ui::record_mark::RecordMarkTime;

fn arguments(message: &str) -> Error {
    Error::Input(InputError::FunctionArguments(message.to_owned()))
}

#[test]
fn a_grid_size_is_an_even_number_above_zero() {
    assert_eq!(WindowGridSize::try_from_i32(8).unwrap().to_u32(), 8);
    assert_eq!(WindowGridSize::try_from_i32(2).unwrap().to_usize(), 2);
    assert_eq!(WindowGridSize::try_from_i32(i32::MAX - 1).unwrap().to_i32(), Some(i32::MAX - 1));
    assert_eq!(
        WindowGridSize::try_from_i32(7).unwrap_err(),
        arguments(
            "provided i32 number: 7 is not an even number, but it should be for the window grid size"
        )
    );
    assert_eq!(
        WindowGridSize::try_from_i32(0).unwrap_err(),
        arguments("provided i32 number is 0 which is invalid for window grid size")
    );
    assert_eq!(
        WindowGridSize::try_from_i32(-2).unwrap_err(),
        Error::Internal("out of range integral type conversion attempted".to_owned())
    );
    assert_eq!(WindowGridSize::default().to_u32(), 6);
}

#[test]
fn a_grid_size_of_a_wide_number() {
    assert_eq!(WindowGridSize::try_from_i64(4294967294).unwrap().to_u32(), 4294967294);
    assert_eq!(WindowGridSize::try_from_i64(4294967294).unwrap().to_i32(), None);
    assert_eq!(WindowGridSize::try_from_i64(2147483648).unwrap().to_i32(), None);
    assert_eq!(WindowGridSize::try_from_i64(2147483646).unwrap().to_i32(), Some(2147483646));
    assert_eq!(
        WindowGridSize::try_from_i64(4294967296).unwrap_err(),
        Error::Internal("out of range integral type conversion attempted".to_owned())
    );
    assert_eq!(
        WindowGridSize::try_from_i64(-1).unwrap_err(),
        Error::Internal("out of range integral type conversion attempted".to_owned())
    );
    assert_eq!(
        WindowGridSize::try_from_i64(4294967295).unwrap_err(),
        arguments(
            "provided i64 number: 4294967295 is not an even number, but it should be for the window grid size"
        )
    );
    assert_eq!(
        WindowGridSize::try_from_i64(0).unwrap_err(),
        arguments("provided i64 number is 0 which is invalid for window grid size")
    );
    assert_eq!(WindowGridSize::check(-1).unwrap_err(), GridSizeFault::OutOfRange);
    assert_eq!(WindowGridSize::check(3).unwrap_err(), GridSizeFault::Odd);
    assert_eq!(WindowGridSize::check(0).unwrap_err(), GridSizeFault::Zero);
    assert_eq!(WindowGridSize::check(10).unwrap().to_u32(), 10);
}

#[test]
fn a_grid_size_from_text() {
    assert_eq!(WindowGridSize::try_from_str("8").unwrap().to_u32(), 8);
    assert_eq!(WindowGridSize::try_from_str("+12").unwrap().to_u32(), 12);
    assert_eq!(
        WindowGridSize::try_from_str("eight").unwrap_err(),
        arguments("provided a non integer value: eight as window grid size")
    );
    assert_eq!(
        WindowGridSize::try_from_str("").unwrap_err(),
        arguments("provided a non integer value:  as window grid size")
    );
    assert_eq!(
        WindowGridSize::try_from_str("99999999999").unwrap_err(),
        arguments("provided a non integer value: 99999999999 as window grid size")
    );
    assert_eq!(
        WindowGridSize::try_from_str("-4").unwrap_err(),
        Error::Internal("out of range integral type conversion attempted".to_owned())
    );
    assert_eq!(
        WindowGridSize::try_from_str("5").unwrap_err(),
        arguments(
            "provided i32 number: 5 is not an even number, but it should be for the window grid size"
        )
    );
    assert_eq!(WindowGridSize::from_parsed("x", Some(4)).unwrap().to_u32(), 4);
    assert_eq!(
        WindowGridSize::from_parsed("x", None).unwrap_err(),
        arguments("provided a non integer value: x as window grid size")
    );
}

#[test]
fn the_rows_of_the_grid() {
    let six = WindowGridSize::default();
    assert_eq!(calc_halves(0, six), (0, 0));
    assert_eq!(calc_halves(1, six), (1, 0));
    assert_eq!(calc_halves(2, six), (1, 1));
    assert_eq!(calc_halves(5, six), (3, 2));
    assert_eq!(calc_halves(6, six), (3, 3));
    assert_eq!(calc_halves(7, six), (3, 3));
    assert_eq!(calc_halves(usize::MAX, six), (3, 3));
    assert_eq!(calc_halves(7, WindowGridSize::try_from_i32(2).unwrap()), (1, 1));
    assert_ne!(GridLayout::Open, GridLayout::Follow);
}

#[test]
fn the_default_jump_keys() {
    let keys = JumpKeymapList::default();
    assert_eq!(keys.len(), 10);
    let follow: Vec<&str> = keys.iter().map(|k| k.follow.as_str()).collect();
    assert_eq!(follow, vec!["j", "f", "k", "d", "l", "s", ";", "a", "h", "g"]);
    let immediate: Vec<&str> = keys.iter().map(|k| k.immediate.as_str()).collect();
    assert_eq!(immediate, vec!["J", "F", "K", "D", "L", "S", ";", "A", "H", "G"]);
    assert_eq!(keys.get(2).unwrap().follow, "k");
    assert_eq!(keys.get(10), None);

    let used = vec![keys.get(0).unwrap(), keys.get(1).unwrap(), keys.get(3).unwrap()];
    assert_eq!(keys.first_unused(&used), keys.get(2));
    assert_eq!(keys.first_unused(&Vec::new()), keys.get(0));
    let all: Vec<&JumpKeymap> = keys.iter().collect();
    assert_eq!(keys.first_unused(&all), None);
}

fn keys(n: usize) -> JumpKeymapList {
    JumpKeymapList::new(
        (0..n)
            .map(|i| JumpKeymap { follow: format!("f{i}"), immediate: format!("i{i}") })
            .collect(),
    )
}

#[test]
fn the_picker_needs_a_key_for_each_window() {
    let conf = PickerConfig::default();
    assert_eq!(conf.max_windows.to_u32(), 6);
    assert_eq!(conf.jump_keys, JumpKeymapList::default());
    assert_eq!(conf.filename, Filename { enable: true, depth: 2 });
    assert_eq!(Filename::default(), Filename { enable: true, depth: 2 });

    let eight = WindowGridSize::try_from_i32(8).unwrap();
    let conf = PickerConfig::try_new(Some(eight), Some(keys(8)), None).unwrap();
    assert_eq!(conf.max_windows.to_u32(), 8);
    assert_eq!(conf.jump_keys, keys(8));
    assert_eq!(
        PickerConfig::try_new(Some(eight), Some(keys(7)), None).unwrap_err(),
        Error::Input(InputError::Other(
            "length of jump_keys must be equal or bigger that the max_windows value".to_owned()
        ))
    );
    assert!(PickerConfig::try_new(None, Some(keys(5)), None).is_err());
    assert!(PickerConfig::try_new(None, Some(keys(6)), None).is_ok());
    assert!(PickerConfig::try_new(Some(eight), None, None).is_ok());
    let twelve = WindowGridSize::try_from_i32(12).unwrap();
    assert!(PickerConfig::try_new(Some(twelve), None, None).is_err());
    let filename = Filename { enable: false, depth: 9 };
    assert_eq!(PickerConfig::try_new(None, None, Some(filename)).unwrap().filename, filename);
}

#[test]
fn the_name_of_the_file_of_a_working_directory() {
    assert_eq!(escaped_path("/home/user/project", false), "_home_user_project");
    assert_eq!(escaped_path("", false), "");
    assert_eq!(escaped_path("//ü/_/", false), "__ü___");
    assert_eq!(escaped_path("C:\\Users\\x y", true), "\"C:\\Users\\x y\"");
    assert_eq!(escaped_path("a/b", true), "\"a/b\"");
}

#[test]
fn where_the_list_is_kept() {
    let given = Some("/given".to_owned());
    let default = Some("/default".to_owned());
    assert!(PersistenceConfig::needs_default_path(None, false));
    assert!(PersistenceConfig::needs_default_path(Some(true), false));
    assert!(!PersistenceConfig::needs_default_path(Some(true), true));
    assert!(!PersistenceConfig::needs_default_path(Some(false), false));

    assert_eq!(
        PersistenceConfig::resolve(None, None, None, default.clone()),
        Some(PersistenceConfig { enable: true, path: default.clone(), interval_milliseconds: 3000 })
    );
    assert_eq!(
        PersistenceConfig::resolve(Some(true), given.clone(), Some(10), default.clone()),
        Some(PersistenceConfig { enable: true, path: given.clone(), interval_milliseconds: 10 })
    );
    assert_eq!(PersistenceConfig::resolve(None, None, None, None), None);
    assert_eq!(
        PersistenceConfig::resolve(Some(false), None, None, None),
        Some(PersistenceConfig { enable: false, path: None, interval_milliseconds: 3000 })
    );
    assert_eq!(
        PersistenceConfig::resolve(Some(false), given.clone(), None, default),
        Some(PersistenceConfig { enable: false, path: given, interval_milliseconds: 3000 })
    );
}

#[test]
fn the_jobs_wait() {
    let debounce = Debounce::default();
    assert_eq!(debounce, Debounce { run: 200, maintenance: 500, activate: 3000 });
    assert_eq!(debounce.min(), 200);
    assert_eq!(Debounce { run: 9, maintenance: 5, activate: 7 }.min(), 5);
    assert_eq!(Debounce { run: 9, maintenance: 8, activate: 7 }.min(), 7);
}

#[test]
fn files_under_git_are_left_alone() {
    let conf = TrackerConfig::default();
    assert!(conf.enable);
    assert!(conf.is_ignored("/home/user/project/.git/COMMIT_EDITMSG"));
    assert!(conf.is_ignored("project/.git/hooks/pre-commit"));
    assert!(!conf.is_ignored("/home/user/project/src/main.rs"));
    assert!(!conf.is_ignored("/home/user/project/.gitignore"));
    assert!(!conf.is_ignored(""));
}

#[test]
fn the_signs_of_the_bands() {
    let signs = Signs::default();
    assert_eq!(signs.sign(RecordMarkTime::Past).as_str(), "◀");
    assert_eq!(signs.sign(RecordMarkTime::PastClose).as_str(), "◀");
    assert_eq!(signs.sign(RecordMarkTime::Future).as_str(), "▶");
    assert_eq!(signs.sign(RecordMarkTime::FutureClose).as_str(), "▶");
    let own = Signs { close_past: SignText::from("x".to_owned()), ..Signs::default() };
    assert_eq!(own.sign(RecordMarkTime::PastClose), &SignText("x".to_owned()));
    assert_eq!(own.sign(RecordMarkTime::Past).clone().into_string(), "◀");
}

#[test]
fn the_configuration_of_a_user_who_sets_nothing() {
    let persistence =
        PersistenceConfig { enable: false, path: None, interval_milliseconds: 1 };
    let conf = Config::with_persistence(persistence.clone());
    assert_eq!(conf.persistence, persistence);
    assert_eq!(conf.frecency.cooldown_seconds, 60);
    assert_eq!(conf.picker.max_windows.to_u32(), 6);
    assert!(conf.tracker.enable);
    let a = CursorPosition::from((1, 0));
    let b = CursorPosition::from((11, 400));
    assert!(a.is_nearby(&b, &conf.marks.update_range));
    assert_eq!(conf.marks.signs.past.as_str(), "◀");
}

#[test]
fn a_set_of_the_patterns_that_are_given() {
    let debounce = Debounce { run: 1, maintenance: 2, activate: 3 };

    let none = TrackerConfig::with_patterns(false, debounce, &Vec::new()).unwrap();
    assert!(!none.enable);
    assert_eq!(none.debounce_milliseconds, debounce);
    assert!(!none.is_ignored("/home/user/project/.git/config"));
    assert!(!none.is_ignored(""));

    let patterns = vec!["**/target/**".to_owned(), "*.lock".to_owned()];
    let some = TrackerConfig::with_patterns(true, debounce, &patterns).unwrap();
    assert!(some.enable);
    assert!(some.is_ignored("/p/target/debug/x"));
    assert!(some.is_ignored("Cargo.lock"));
    assert!(!some.is_ignored("/p/src/lib.rs"));

    let broken = vec!["*.rs".to_owned(), "a{b".to_owned()];
    assert!(TrackerConfig::with_patterns(true, debounce, &broken).is_none());

    assert!(TrackerConfig::with_glob_set(true, debounce, None).is_none());
    let set = globset::GlobSet::new([globset::Glob::new("*.md").unwrap()]).unwrap();
    let conf = TrackerConfig::with_glob_set(true, debounce, Some(set)).unwrap();
    assert!(conf.enable);
    assert_eq!(conf.debounce_milliseconds, debounce);
    assert!(conf.is_ignored("README.md"));
    assert!(!conf.is_ignored("README.txt"));
}
