use deskup::fetch::{
    anniversary_url, holiday_url, joke_url, mark_done_body, task_query_body, task_query_url,
    task_update_url, this_years_holiday_url, todays_anniversary_url, weather_url,
};
use deskup::models::RawTaskEntry;
use deskup::tasks::decode_tasks;

#[test]
fn task_decode_skips_empty_titles_and_keeps_the_first_segment() {
    let entries = vec![
        RawTaskEntry { id: String::from("a1"), title: vec![] },
        RawTaskEntry { id: String::from("b2"), title: vec![String::from("Buy milk")] },
        RawTaskEntry {
            id: String::from("c3"),
            title: vec![String::from("First"), String::from("Second")],
        },
    ];
    let items = decode_tasks(&entries);
    assert_eq!(items.len(), 2);
    assert_eq!(items[0].id, "b2");
    assert_eq!(items[0].title, "Buy milk");
    assert_eq!(items[1].id, "c3");
    assert_eq!(items[1].title, "First");
}

#[test]
fn task_decode_of_nothing_is_nothing() {
    let entries: Vec<RawTaskEntry> = vec![];
    assert!(decode_tasks(&entries).is_empty());
    let all_empty = vec![
        RawTaskEntry { id: String::from("a"), title: vec![] },
        RawTaskEntry { id: String::from("b"), title: vec![] },
    ];
    assert!(decode_tasks(&all_empty).is_empty());
}

#[test]
fn endpoint_urls_are_exact() {
    assert_eq!(
        weather_url("Tokyo", "key123"),
        "https://api.openweathermap.org/data/2.5/weather?q=Tokyo&appid=key123&lang=ja"
    );
    assert_eq!(joke_url(), "https://official-joke-api.appspot.com/jokes/random");
    assert_eq!(anniversary_url(3, 7), "https://api.whatistoday.cyou/v3/anniv/month/3/day/7");
    assert_eq!(anniversary_url(12, 31), "https://api.whatistoday.cyou/v3/anniv/month/12/day/31");
    assert_eq!(holiday_url(2026, "JP"), "https://date.nager.at/api/v3/publicholidays/2026/JP");
    assert_eq!(
        task_query_url("db42"),
        "https://api.notion.com/v1/databases/db42/query"
    );
    assert_eq!(task_update_url("p9"), "https://api.notion.com/v1/pages/p9");
}

#[test]
fn task_bodies_are_exact() {
    assert_eq!(
        task_query_body(),
        "{\"filter\":{\"property\":\"Status\",\"status\":{\"does_not_equal\":\"Done\"}}}"
    );
    assert_eq!(
        mark_done_body(),
        "{\"properties\":{\"Status\":{\"status\":{\"name\":\"Done\"}}}}"
    );
}

#[test]
fn dated_urls_follow_the_clock() {
    let u = todays_anniversary_url();
    assert!(u.starts_with("https://api.whatistoday.cyou/v3/anniv/month/"));
    assert!(u.contains("/day/"));
    let h = this_years_holiday_url("JP");
    assert!(h.starts_with("https://date.nager.at/api/v3/publicholidays/"));
    assert!(h.ends_with("/JP"));
}
