use deskup::config::{AppConfig, Bookmark, BookmarkCategory, Bookmarks};
use deskup::settings::{encode_settings, load_or_init, parse_settings};

fn chars(s: &str) -> Vec<char> {
    s.chars().collect()
}

fn text(v: &[char]) -> String {
    v.iter().collect()
}

fn assert_configs_equal(a: &AppConfig, b: &AppConfig) {
    assert_eq!(a.user_name, b.user_name);
    assert_eq!(a.weather_api_key, b.weather_api_key);
    assert_eq!(a.location, b.location);
    assert_eq!(a.country_code, b.country_code);
    assert_eq!(a.notion_api_key, b.notion_api_key);
    assert_eq!(a.notion_database_id, b.notion_database_id);
    assert_eq!(a.bookmarks.desktop.len(), b.bookmarks.desktop.len());
    assert_eq!(a.bookmarks.web.len(), b.bookmarks.web.len());
    for (ca, cb) in a.bookmarks.desktop.iter().zip(b.bookmarks.desktop.iter()) {
        assert_eq!(ca.name, cb.name);
        assert_eq!(ca.items.len(), cb.items.len());
        for (ia, ib) in ca.items.iter().zip(cb.items.iter()) {
            assert_eq!(ia.name, ib.name);
            assert_eq!(ia.url, ib.url);
        }
    }
    for (ca, cb) in a.bookmarks.web.iter().zip(b.bookmarks.web.iter()) {
        assert_eq!(ca.name, cb.name);
        assert_eq!(ca.items.len(), cb.items.len());
        for (ia, ib) in ca.items.iter().zip(cb.items.iter()) {
            assert_eq!(ia.name, ib.name);
            assert_eq!(ia.url, ib.url);
        }
    }
}

#[test]
fn default_settings_round_trip() {
    let c = AppConfig::default_with_username(String::from("tester"));
    let written = encode_settings(&c);
    let read = parse_settings(&written).expect("encoded settings must parse");
    assert_configs_equal(&c, &read);
}

#[test]
fn awkward_values_round_trip() {
    // Field values full of the codec's own delimiters: digits, colons,
    // newlines, spaces, dashes and non-ASCII text.
    let c = AppConfig {
        user_name: String::from("12:34\nline two -"),
        weather_api_key: String::new(),
        location: String::from("Tokyo 東京"),
        country_code: String::from("JP"),
        bookmarks: Bookmarks {
            desktop: vec![
                BookmarkCategory { name: String::from("work\n"), items: vec![] },
                BookmarkCategory {
                    name: String::new(),
                    items: vec![
                        Bookmark { name: String::from("a:b"), url: String::from("c d") },
                        Bookmark { name: String::new(), url: String::new() },
                    ],
                },
            ],
            web: vec![],
        },
        notion_api_key: Some(String::from("7:x")),
        notion_database_id: None,
    };
    let written = encode_settings(&c);
    let read = parse_settings(&written).expect("encoded settings must parse");
    assert_configs_equal(&c, &read);
}

#[test]
fn encoded_default_is_the_expected_text() {
    let mut c = AppConfig::default_with_username(String::from("me"));
    c.notion_api_key = Some(String::from("k"));
    let written = text(&encode_settings(&c));
    let expected = "user_name 2:me\n\
weather_api_key 17:your_api_key_here\n\
location 5:Tokyo\n\
country_code 2:JP\n\
notion_api_key 1:k\n\
notion_database_id -\n\
desktop 1\n\
category 2:作業 1\n\
bookmark 7:notepad 7:notepad\n\
web 1\n\
category 2:検索 1\n\
bookmark 6:Google 18:https://google.com\n";
    assert_eq!(written, expected);
}

#[test]
fn malformed_documents_are_rejected() {
    // Truncated document.
    let c = AppConfig::default_with_username(String::from("tester"));
    let mut written = encode_settings(&c);
    written.pop();
    assert!(parse_settings(&written).is_none());
    // Trailing garbage.
    let mut written = encode_settings(&c);
    written.push('x');
    assert!(parse_settings(&written).is_none());
    // Wrong keyword.
    assert!(parse_settings(&chars("username 2:me\n")).is_none());
    // Length prefix longer than the remaining text.
    assert!(parse_settings(&chars("user_name 99:me\n")).is_none());
    // Empty document.
    assert!(parse_settings(&chars("")).is_none());
    // A length prefix too large for any machine.
    assert!(parse_settings(&chars("user_name 99999999999999999999:me\n")).is_none());
}

#[test]
fn many_bookmarks_round_trip() {
    // Two-digit category and item counts.
    let mut c = AppConfig::default_with_username(String::from("tester"));
    c.bookmarks.web = (0..12)
        .map(|i| BookmarkCategory {
            name: format!("category {i}"),
            items: (0..11)
                .map(|j| Bookmark { name: format!("b{i}-{j}"), url: format!("https://x/{i}/{j}") })
                .collect(),
        })
        .collect();
    let written = encode_settings(&c);
    let read = parse_settings(&written).expect("encoded settings must parse");
    assert_configs_equal(&c, &read);
}

#[test]
fn missing_file_creates_placeholder_defaults_and_reloads_unchanged() {
    // No settings file at startup: a default record is adopted, text for a
    // new file is handed back, and it carries the placeholder API key and
    // the Tokyo/JP defaults.
    let (created, to_write) =
        load_or_init(None, String::from("tester")).expect("defaults must load");
    assert_eq!(created.user_name, "tester");
    assert_eq!(created.weather_api_key, "your_api_key_here");
    assert_eq!(created.location, "Tokyo");
    assert_eq!(created.country_code, "JP");
    assert_eq!(created.notion_api_key, None);
    assert_eq!(created.notion_database_id, None);
    let written = to_write.expect("a new settings file must be written");

    // Immediately reloading the written file reads back the same values
    // without further mutation.
    let (reloaded, to_write_again) =
        load_or_init(Some(written), String::from("ignored")).expect("reload must succeed");
    assert_configs_equal(&created, &reloaded);
    assert!(to_write_again.is_none());
}

#[test]
fn malformed_file_fails_startup() {
    let garbage = chars("not a settings file");
    assert!(load_or_init(Some(garbage), String::from("tester")).is_none());
}
