use std::collections::HashSet;

use taskgen::record::{from_record, Value};
use taskgen::task::{
    digit_string, duration_option, project_color, Task, TaskStatus, DURATION_OPTIONS_LEN,
    PROJECT_COLORS_LEN,
};
use taskgen::user::User;
use taskgen::words::join_words;

fn sample_user() -> User {
    User {
        id: 42,
        first_name: String::from("Ada"),
        last_name: String::from("Lovelace"),
    }
}

#[test]
fn ids_are_pairwise_distinct_across_many_calls() {
    let mut seen: HashSet<u128> = HashSet::new();
    for _ in 0..1000 {
        let t = Task::new_random_task(&None);
        assert!(seen.insert(t.id), "duplicate id generated");
    }
}

#[test]
fn status_is_always_a_defined_member() {
    for _ in 0..200 {
        let t = Task::new_random_task(&None);
        assert!(matches!(
            t.status,
            TaskStatus::Done
                | TaskStatus::InProgress
                | TaskStatus::NotNeeded
                | TaskStatus::ReadyToStart
        ));
    }
}

#[test]
fn random_status_reaches_every_member() {
    let mut done = false;
    let mut in_progress = false;
    let mut not_needed = false;
    let mut ready = false;
    for _ in 0..2000 {
        match TaskStatus::get_random_task_status() {
            TaskStatus::Done => done = true,
            TaskStatus::InProgress => in_progress = true,
            TaskStatus::NotNeeded => not_needed = true,
            TaskStatus::ReadyToStart => ready = true,
        }
    }
    assert!(done && in_progress && not_needed && ready);
}

#[test]
fn name_splits_into_three_or_four_words() {
    for _ in 0..200 {
        let t = Task::new_random_task(&None);
        let n = t.name.split_whitespace().count();
        assert!(n == 3 || n == 4, "name {:?} has {} words", t.name, n);
    }
}

#[test]
fn updated_at_equals_finished_at() {
    for _ in 0..200 {
        let t = Task::new_random_task(&None);
        assert_eq!(t.updated_at, t.finished_at);
    }
}

#[test]
fn started_at_is_no_later_than_updated_at() {
    for _ in 0..200 {
        let t = Task::new_random_task(&None);
        assert!(t.started_at <= t.updated_at);
        let span = t.finished_at - t.started_at;
        assert!(span > 0 && span % 2 == 0);
    }
}

#[test]
fn timestamps_sit_near_the_present() {
    let t = Task::new_random_task(&None);
    // after 2020, before the year 3000: the anchor is at most ten days and
    // two hours away from the clock
    assert!(t.started_at > 1_577_836_800);
    assert!(t.finished_at < 32_503_680_000);
}

#[test]
fn color_parses_as_index_strictly_below_the_last_palette_entry() {
    for _ in 0..500 {
        let t = Task::new_random_task(&None);
        let idx: usize = t.color.parse().expect("color is not a decimal index");
        assert!(idx <= 8, "color index {} reaches the last palette entry", idx);
        assert!(idx < PROJECT_COLORS_LEN - 1);
    }
}

#[test]
fn supplied_user_is_kept_unchanged() {
    let u = sample_user();
    let t = Task::new_random_task(&Some(sample_user()));
    assert_eq!(t.user.id, u.id);
    assert_eq!(t.user.first_name, u.first_name);
    assert_eq!(t.user.last_name, u.last_name);
}

#[test]
fn missing_user_is_replaced_by_a_valid_one() {
    let t = Task::new_random_task(&None);
    assert!(!t.user.first_name.is_empty());
    assert!(!t.user.last_name.is_empty());
}

#[test]
fn created_user_has_populated_name_parts() {
    for _ in 0..50 {
        let u = User::create_random_user();
        assert!(!u.first_name.is_empty());
        assert!(!u.last_name.is_empty());
    }
}

#[test]
fn record_round_trip_preserves_every_field() {
    for _ in 0..50 {
        let t = Task::new_random_task(&Some(sample_user()));
        let r = t.to_record();
        let back = from_record(&r).expect("serialized record must deserialize");
        assert_eq!(back.id, t.id);
        assert_eq!(back.name, t.name);
        assert_eq!(back.status, t.status);
        assert_eq!(back.user.id, t.user.id);
        assert_eq!(back.user.first_name, t.user.first_name);
        assert_eq!(back.user.last_name, t.user.last_name);
        assert_eq!(back.started_at, t.started_at);
        assert_eq!(back.updated_at, t.updated_at);
        assert_eq!(back.finished_at, t.finished_at);
        assert_eq!(back.color, t.color);
    }
}

#[test]
fn record_field_names_are_preserved_exactly() {
    let t = Task::new_random_task(&None);
    let r = t.to_record();
    let names: Vec<&str> = r.iter().map(|f| f.0.as_str()).collect();
    assert_eq!(
        names,
        vec![
            "id",
            "name",
            "status",
            "user.id",
            "user.first_name",
            "user.last_name",
            "started_at",
            "updated_at",
            "finished_at",
            "color"
        ]
    );
}

#[test]
fn status_names_round_trip() {
    for s in [
        TaskStatus::Done,
        TaskStatus::InProgress,
        TaskStatus::NotNeeded,
        TaskStatus::ReadyToStart,
    ] {
        let n = s.name();
        assert_eq!(TaskStatus::from_name(n.as_str()), Some(s));
    }
    assert_eq!(TaskStatus::Done.name(), "Done");
    assert_eq!(TaskStatus::InProgress.name(), "InProgress");
    assert_eq!(TaskStatus::NotNeeded.name(), "NotNeeded");
    assert_eq!(TaskStatus::ReadyToStart.name(), "ReadyToStart");
    assert_eq!(TaskStatus::from_name("NotAStatus"), None);
    assert_eq!(TaskStatus::from_name(""), None);
}

#[test]
fn truncated_record_is_rejected() {
    let t = Task::new_random_task(&None);
    let mut r = t.to_record();
    r.pop();
    assert!(from_record(&r).is_none());
}

#[test]
fn misnamed_record_field_is_rejected() {
    let t = Task::new_random_task(&None);
    let mut r = t.to_record();
    r[0].0 = String::from("identifier");
    assert!(from_record(&r).is_none());
}

#[test]
fn mistyped_record_field_is_rejected() {
    let t = Task::new_random_task(&None);
    let mut r = t.to_record();
    r[1].1 = Value::Num(7);
    assert!(from_record(&r).is_none());
}

#[test]
fn unknown_status_name_in_record_is_rejected() {
    let t = Task::new_random_task(&None);
    let mut r = t.to_record();
    r[2].1 = Value::Str(String::from("Paused"));
    assert!(from_record(&r).is_none());
}

#[test]
fn status_index_mapping_collapses_the_surplus_draw() {
    assert_eq!(TaskStatus::from_index(0), TaskStatus::Done);
    assert_eq!(TaskStatus::from_index(1), TaskStatus::InProgress);
    assert_eq!(TaskStatus::from_index(2), TaskStatus::NotNeeded);
    assert_eq!(TaskStatus::from_index(3), TaskStatus::ReadyToStart);
    assert_eq!(TaskStatus::from_index(4), TaskStatus::ReadyToStart);
}

#[test]
fn duration_options_hold_the_seven_fixed_values() {
    let expected: [i64; 7] = [3600, 1800, 5400, 3450, 1600, 1954, 7200];
    assert_eq!(DURATION_OPTIONS_LEN, 7);
    for (i, want) in expected.iter().enumerate() {
        assert_eq!(duration_option(i), *want);
    }
}

#[test]
fn palette_holds_the_ten_fixed_colors() {
    let expected = [
        "#61e294ff",
        "#7bcdbaff",
        "#9799caff",
        "#bd93d8ff",
        "#b47aeaff",
        "#d3d5d4ff",
        "#a2c5acff",
        "#9db5b2ff",
        "#878e99ff",
        "#7f6a93ff",
    ];
    assert_eq!(PROJECT_COLORS_LEN, 10);
    for (i, want) in expected.iter().enumerate() {
        assert_eq!(project_color(i), *want);
    }
}

#[test]
fn digit_strings_are_the_decimal_digits() {
    for d in 0..=9u64 {
        assert_eq!(digit_string(d), d.to_string());
    }
}

#[test]
fn join_words_uses_single_spaces() {
    let ws = vec![
        String::from("lorem"),
        String::from("ipsum"),
        String::from("dolor"),
    ];
    assert_eq!(join_words(&ws), "lorem ipsum dolor");
    let one = vec![String::from("sit")];
    assert_eq!(join_words(&one), "sit");
    let none: Vec<String> = Vec::new();
    assert_eq!(join_words(&none), "");
}
