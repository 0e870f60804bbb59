use compass::common_types::timestamp::Timestamp;
use compass::config::frecency::{BucketTime, BucketTimeConfig, FrecencyConfig, VisitTypeConfig};
use compass::state::frecency::frecency_record::FrecencyRecord;
use compass::state::frecency::frecency_type::FrecencyType;
use compass::state::frecency::frecency_weight::FrecencyWeight;
use compass::state::frecency::{Frecency, FrecencyScore};
use compass::state::track_list::TrackList;

const HOUR: i64 = 3600;

fn at(secs: i64) -> Timestamp {
    Timestamp::from_secs(secs)
}

fn score_after(secs: i64) -> i64 {
    Frecency::new_at(at(0))
        .total_score(at(secs), &FrecencyConfig::default())
        .value()
}

#[test]
fn creation_ten_hours_ago_scores_120() {
    let frecency = Frecency::new_at(at(0));
    let conf = FrecencyConfig::default();
    let now = at(10 * HOUR);
    assert_eq!(frecency.total_score(now, &conf), FrecencyWeight::from(70 + 50));
    assert_eq!(frecency.checked_total_score(now, &conf), Some(FrecencyWeight::from(120)));
}

#[test]
fn default_weights() {
    let conf = FrecencyConfig::default();
    assert_eq!(conf.cooldown_seconds, 60);
    assert_eq!(conf.time_bucket.fallback.value(), 10);
    let table: Vec<(i64, i64)> = conf
        .time_bucket
        .thresholds
        .iter()
        .map(|b| (b.hours, b.weight.value()))
        .collect();
    assert_eq!(table, vec![(4, 100), (14, 70), (31, 50), (90, 30)]);
    assert_eq!(conf.visit_type.create.value(), 50);
    assert_eq!(conf.visit_type.update.value(), 100);
    assert_eq!(conf.visit_type.relative_goto.value(), 50);
    assert_eq!(conf.visit_type.absolute_goto.value(), 100);
    let visits = VisitTypeConfig::default();
    assert_eq!(FrecencyType::Create.weight(&visits).value(), 50);
    assert_eq!(FrecencyType::Update.weight(&visits).value(), 100);
    assert_eq!(FrecencyType::RelativeGoto.weight(&visits).value(), 50);
    assert_eq!(FrecencyType::AbsoluteGoto.weight(&visits).value(), 100);
}

#[test]
fn the_first_step_above_the_age_wins() {
    let buckets = BucketTimeConfig::default();
    let want = [
        (-5, 100),
        (0, 100),
        (3, 100),
        (4, 70),
        (13, 70),
        (14, 50),
        (30, 50),
        (31, 30),
        (89, 30),
        (90, 10),
        (100_000, 10),
    ];
    for (hours, weight) in want {
        assert_eq!(buckets.weight(hours).value(), weight, "{hours} hours");
    }
}

#[test]
fn steps_are_tried_in_their_order() {
    let buckets = BucketTimeConfig {
        thresholds: vec![
            BucketTime { hours: 10, weight: FrecencyWeight::from(1) },
            BucketTime { hours: 5, weight: FrecencyWeight::from(2) },
            BucketTime { hours: 20, weight: FrecencyWeight::from(3) },
        ],
        fallback: FrecencyWeight::from(4),
    };
    assert_eq!(buckets.weight(3).value(), 1);
    assert_eq!(buckets.weight(7).value(), 1);
    assert_eq!(buckets.weight(10).value(), 3);
    assert_eq!(buckets.weight(20).value(), 4);
    let none = BucketTimeConfig { thresholds: Vec::new(), fallback: FrecencyWeight::from(9) };
    assert_eq!(none.weight(0).value(), 9);
}

#[test]
fn age_counts_in_whole_hours() {
    assert_eq!(at(3599).hours_since(at(0)), 0);
    assert_eq!(at(3600).hours_since(at(0)), 1);
    assert_eq!(at(7199).hours_since(at(0)), 1);
    assert_eq!(at(0).hours_since(at(3599)), 0);
    assert_eq!(at(0).hours_since(at(3600)), -1);
    assert_eq!(at(0).hours_since(at(7199)), -1);
    assert_eq!(at(i64::MAX).hours_since(at(i64::MIN)), 5124095576030431);
    assert_eq!(at(i64::MIN).hours_since(at(i64::MAX)), -5124095576030431);
    assert_eq!(score_after(4 * HOUR - 1), 150);
    assert_eq!(score_after(4 * HOUR), 120);
    assert_eq!(score_after(90 * HOUR), 60);
    assert_eq!(score_after(-90 * HOUR), 150);
}

#[test]
fn timestamps() {
    assert_eq!(at(5).secs(), 5);
    assert_eq!(Timestamp::try_from_u64(7), Some(at(7)));
    assert_eq!(Timestamp::try_from_u64(i64::MAX as u64), Some(at(i64::MAX)));
    assert_eq!(Timestamp::try_from_u64(i64::MAX as u64 + 1), None);
    assert!(at(61).is_later_by_more_than(at(0), 60));
    assert!(!at(60).is_later_by_more_than(at(0), 60));
    assert!(!at(i64::MIN).is_later_by_more_than(at(i64::MAX), 0));
    assert!(at(i64::MAX).is_later_by_more_than(at(i64::MIN), i64::MAX));
}

#[test]
fn now_is_the_time_of_the_system_clock() {
    let before = std::time::SystemTime::now()
        .duration_since(std::time::UNIX_EPOCH)
        .unwrap()
        .as_secs() as i64;
    let now = Timestamp::now().secs();
    let after = std::time::SystemTime::now()
        .duration_since(std::time::UNIX_EPOCH)
        .unwrap()
        .as_secs() as i64;
    assert!(before <= now && now <= after);
}

#[test]
fn an_event_counts_only_after_the_cooldown() {
    let mut frecency = Frecency::new_at(at(100));
    frecency.add_record_at(FrecencyType::Update, at(160), 60);
    assert_eq!(frecency.to_records().len(), 1);
    frecency.add_record_at(FrecencyType::Update, at(161), 60);
    assert_eq!(
        frecency.to_records(),
        vec![
            FrecencyRecord::new_at(FrecencyType::Create, at(100)),
            FrecencyRecord::new_at(FrecencyType::Update, at(161)),
        ]
    );
    assert_eq!(frecency.latest_timestamp(), at(161));
    frecency.add_record_at(FrecencyType::AbsoluteGoto, at(221), 60);
    assert_eq!(frecency.to_records().len(), 2);
    frecency.add_record_at(FrecencyType::AbsoluteGoto, at(222), 60);
    assert_eq!(frecency.to_records().len(), 3);
    assert_eq!(frecency.get(2).unwrap().typ(), FrecencyType::AbsoluteGoto);
    assert_eq!(frecency.get(2).unwrap().timestamp(), at(222));
    assert_eq!(frecency.get(3), None);
}

#[test]
fn the_score_is_the_sum_over_the_log() {
    let conf = FrecencyConfig::default();
    let mut frecency = Frecency::new_at(at(0));
    frecency.add_record_at(FrecencyType::Update, at(20 * HOUR), 60);
    frecency.add_record_at(FrecencyType::RelativeGoto, at(99 * HOUR), 60);
    // at 100 hours: 10 + 50, 30 + 100, 100 + 50
    assert_eq!(frecency.total_score(at(100 * HOUR), &conf).value(), 340);
    let record = frecency.get(1).unwrap();
    assert_eq!(record.score(at(100 * HOUR), &conf).value(), 130);
    assert_eq!(record.score_wide(at(100 * HOUR), &conf), 130);
    assert_eq!(frecency.duplicate(), frecency);
}

#[test]
fn with_the_system_clock() {
    let conf = FrecencyConfig::default();
    let mut frecency = Frecency::new();
    assert_eq!(frecency.to_records().len(), 1);
    assert_eq!(frecency.get(0).unwrap().typ(), FrecencyType::Create);
    frecency.add_record(FrecencyType::Update, &conf);
    assert_eq!(frecency.to_records().len(), 1);
    let eager = FrecencyConfig { cooldown_seconds: -1, ..FrecencyConfig::default() };
    frecency.add_record(FrecencyType::Update, &eager);
    assert_eq!(frecency.to_records().len(), 2);
    assert_eq!(frecency.get(1).unwrap().typ(), FrecencyType::Update);
    assert_eq!(FrecencyRecord::new(FrecencyType::RelativeGoto).typ(), FrecencyType::RelativeGoto);
    assert_eq!(frecency.total_score(Timestamp::now(), &conf).value(), 100 + 50 + 100 + 100);
}

#[test]
fn a_log_is_never_empty() {
    assert_eq!(Frecency::from_records(Vec::new()), None);
    let records = vec![
        FrecencyRecord::new_at(FrecencyType::Create, at(1)),
        FrecencyRecord::new_at(FrecencyType::Update, at(2)),
    ];
    let frecency = Frecency::from_records(records.clone()).unwrap();
    assert_eq!(frecency.to_records(), records);
    assert_eq!(frecency.latest_timestamp(), at(2));
    assert_eq!(Frecency::new_at(at(9)).latest_timestamp(), at(9));
}

#[test]
fn a_score_too_large_is_none() {
    let conf = FrecencyConfig {
        time_bucket: BucketTimeConfig {
            thresholds: Vec::new(),
            fallback: FrecencyWeight::from(i64::MAX),
        },
        visit_type: VisitTypeConfig {
            create: FrecencyWeight::from(1),
            update: FrecencyWeight::from(-1),
            relative_goto: FrecencyWeight::from(0),
            absolute_goto: FrecencyWeight::from(i64::MIN),
        },
        cooldown_seconds: 0,
    };
    let mut frecency = Frecency::new_at(at(0));
    assert_eq!(frecency.checked_total_score(at(1), &conf), None);
    let mut fits = Frecency::from_records(vec![FrecencyRecord::new_at(
        FrecencyType::RelativeGoto,
        at(0),
    )])
    .unwrap();
    assert_eq!(fits.checked_total_score(at(1), &conf), Some(FrecencyWeight::from(i64::MAX)));
    fits.add_record_at(FrecencyType::Update, at(5), 0);
    assert_eq!(fits.checked_total_score(at(9), &conf), None);
    frecency.add_record_at(FrecencyType::AbsoluteGoto, at(5), 0);
    assert_eq!(frecency.checked_total_score(at(9), &conf), None);
    assert!(FrecencyWeight::from(1).can_add(FrecencyWeight::from(i64::MAX - 1)));
    assert!(!FrecencyWeight::from(1).can_add(FrecencyWeight::from(i64::MAX)));
    assert_eq!(FrecencyWeight::from(2) + FrecencyWeight::from(3), FrecencyWeight::from(5));
    assert!(FrecencyWeight::from(2) < FrecencyWeight::from(3));
}

#[derive(Debug, PartialEq)]
struct Scored(&'static str, i64);

impl FrecencyScore for Scored {
    fn total_score(&self, _: Timestamp, _: &FrecencyConfig) -> FrecencyWeight {
        FrecencyWeight::from(self.1)
    }
}

#[test]
fn frecency_sorts_by_score_and_keeps_the_order_of_equals() {
    let mut list = TrackList::<Scored>::default();
    for scored in [
        Scored("a", 30),
        Scored("b", 10),
        Scored("c", 30),
        Scored("d", -5),
        Scored("e", 10),
        Scored("f", 30),
        Scored("g", 20),
    ] {
        list.push_plain(scored);
    }

    let got = list.frecency(at(0), &FrecencyConfig::default());

    let names: Vec<(usize, &str)> = got.iter().map(|(i, s)| (*i, s.0)).collect();
    assert_eq!(
        names,
        vec![(3, "d"), (1, "b"), (4, "e"), (6, "g"), (0, "a"), (2, "c"), (5, "f")]
    );
    for (i, s) in got {
        assert_eq!(list.get(i).unwrap(), s);
    }
    assert!(TrackList::<Scored>::default()
        .frecency(at(0), &FrecencyConfig::default())
        .is_empty());
}

#[test]
fn the_clock_decides_whether_an_event_counts() {
    let now = Timestamp::now().secs();
    let conf = FrecencyConfig::default();

    // the latest event is an hour old: the cooldown has passed
    let mut old = Frecency::new_at(at(now - HOUR));
    old.add_record(FrecencyType::RelativeGoto, &conf);
    let records = old.to_records();
    assert_eq!(records.len(), 2);
    assert_eq!(records[1].typ(), FrecencyType::RelativeGoto);
    assert!(records[1].timestamp().secs() >= now);
    assert!(records[1].timestamp().secs() - records[0].timestamp().secs() > conf.cooldown_seconds);

    // the latest event lies in the future: nothing is added
    let mut ahead = Frecency::new_at(at(now + HOUR));
    ahead.add_record(FrecencyType::RelativeGoto, &conf);
    assert_eq!(ahead, Frecency::new_at(at(now + HOUR)));
}
