use mb_library::api::select::{
    effective_date, select_effective, select_release, should_replace_release,
};
use mb_library::api::wire::ReleaseItem;
use mb_library::dates::{parse_date, CalendarDate};

fn release(id: &str, date: Option<&str>) -> ReleaseItem {
    let mut item = ReleaseItem::default();
    item.id = id.to_string();
    item.date = date.map(|d| d.to_string());
    item
}

fn texts(list: &[&str]) -> Vec<String> {
    list.iter().map(|s| s.to_string()).collect()
}

#[test]
fn earliest_effective_date_is_selected() {
    let dates = texts(&["2020-05-17", "2020-05-01", ""]);
    assert_eq!(select_effective(&dates), Some(1));
}

#[test]
fn smaller_text_wins_on_the_same_day() {
    let same = Some(CalendarDate { year: 2020, month: 5, day: 1 });
    for _ in 0..5 {
        assert!(should_replace_release(same, "2020-05-01", same, "2020-05-01z"));
        assert!(!should_replace_release(same, "2020-05-01z", same, "2020-05-01"));
    }
}

#[test]
fn same_day_and_same_text_keeps_the_first() {
    let same = Some(CalendarDate { year: 2020, month: 5, day: 1 });
    assert!(!should_replace_release(same, "2020-05-01", same, "2020-05-01"));
    let dates = texts(&["2020-05-01", "2020-05-01", "2020-05-01"]);
    assert_eq!(select_effective(&dates), Some(0));
}

#[test]
fn readable_date_beats_unreadable() {
    let some = Some(CalendarDate { year: 2021, month: 1, day: 1 });
    assert!(should_replace_release(some, "2021", None, "aaa"));
    assert!(!should_replace_release(None, "aaa", some, "2021"));
    assert_eq!(select_effective(&texts(&["soon", "2021", "1999-13-01"])), Some(1));
}

#[test]
fn earlier_day_wins_whatever_the_text() {
    let early = Some(CalendarDate { year: 2019, month: 12, day: 31 });
    let late = Some(CalendarDate { year: 2020, month: 1, day: 1 });
    assert!(should_replace_release(early, "zzz", late, "aaa"));
    assert!(!should_replace_release(late, "aaa", early, "zzz"));
}

#[test]
fn among_unreadable_dates_text_beats_no_text() {
    assert!(should_replace_release(None, "x", None, ""));
    assert!(!should_replace_release(None, "", None, "x"));
    assert!(!should_replace_release(None, "", None, ""));
    assert!(should_replace_release(None, "abc", None, "abd"));
    assert!(!should_replace_release(None, "abd", None, "abc"));
    assert!(!should_replace_release(None, "abc", None, "abc"));
}

#[test]
fn texts_are_ordered_by_their_bytes() {
    assert!(should_replace_release(None, "Z", None, "a"));
    assert!(should_replace_release(None, "ab", None, "abc"));
    assert!(should_replace_release(None, "z", None, "é"));
}

#[test]
fn empty_list_has_no_choice() {
    assert_eq!(select_effective(&Vec::new()), None);
    assert_eq!(select_release(&Vec::new(), "2020"), None);
}

#[test]
fn all_empty_dates_keep_the_first() {
    assert_eq!(select_effective(&texts(&["", "", ""])), Some(0));
}

#[test]
fn effective_date_falls_back_when_own_date_is_missing_or_empty() {
    assert_eq!(effective_date(&None, "2020-01-01"), "2020-01-01");
    assert_eq!(effective_date(&Some(String::new()), "2020-01-01"), "2020-01-01");
    assert_eq!(effective_date(&Some("2021".to_string()), "2020-01-01"), "2021");
}

#[test]
fn release_without_date_takes_the_groups_date() {
    let releases = vec![
        release("a", Some("2020-05-17")),
        release("b", Some("2020-05-01")),
        release("c", None),
    ];
    // the third release counts as of 2020-01-01, which is the earliest
    assert_eq!(select_release(&releases, "2020-01-01"), Some(2));
    // without a group date it has no date at all
    assert_eq!(select_release(&releases, ""), Some(1));
}

#[test]
fn year_only_dates_take_part_as_first_of_january() {
    let releases = vec![
        release("a", Some("2020-01-02")),
        release("b", Some("2020")),
        release("c", Some("2020-01")),
    ];
    // "2020" and "2020-01" are the same day; "2020" is the smaller text
    assert_eq!(select_release(&releases, ""), Some(1));
    assert_eq!(parse_date("2020"), parse_date("2020-01"));
}
