//! User settings: display name, location, API credentials and the bookmark
//! tree. The record is created once at startup (with defaults if the settings
//! file is absent), read by the orchestrator and the renderer, and never
//! mutated during a session.

use vstd::prelude::*;
use vstd::string::*;

verus! {

/// One launch target: a display name and the command or URL it launches.
#[derive(Clone, Debug)]
pub struct Bookmark {
    pub name: String,
    pub url: String,
}

/// A named group of bookmarks.
#[derive(Clone, Debug)]
pub struct BookmarkCategory {
    pub name: String,
    pub items: Vec<Bookmark>,
}

/// The bookmark tree: local launchers and web links, each a sequence of
/// categories.
#[derive(Clone, Debug)]
pub struct Bookmarks {
    pub desktop: Vec<BookmarkCategory>,
    pub web: Vec<BookmarkCategory>,
}

/// The user settings record.
#[derive(Clone, Debug)]
pub struct AppConfig {
    pub user_name: String,
    pub weather_api_key: String,
    pub location: String,
    pub country_code: String,
    pub bookmarks: Bookmarks,
    pub notion_api_key: Option<String>,
    pub notion_database_id: Option<String>,
}

/// Mathematical image of a `Bookmark`.
#[verifier::ext_equal]
pub struct BookmarkView {
    pub name: Seq<char>,
    pub url: Seq<char>,
}

/// Mathematical image of a `BookmarkCategory`.
#[verifier::ext_equal]
pub struct BookmarkCategoryView {
    pub name: Seq<char>,
    pub items: Seq<BookmarkView>,
}

/// Mathematical image of `Bookmarks`.
#[verifier::ext_equal]
pub struct BookmarksView {
    pub desktop: Seq<BookmarkCategoryView>,
    pub web: Seq<BookmarkCategoryView>,
}

/// Mathematical image of `AppConfig`.
#[verifier::ext_equal]
pub struct AppConfigView {
    pub user_name: Seq<char>,
    pub weather_api_key: Seq<char>,
    pub location: Seq<char>,
    pub country_code: Seq<char>,
    pub bookmarks: BookmarksView,
    pub notion_api_key: Option<Seq<char>>,
    pub notion_database_id: Option<Seq<char>>,
}

impl View for Bookmark {
    type V = BookmarkView;

    open spec fn view(&self) -> BookmarkView {
        BookmarkView { name: self.name@, url: self.url@ }
    }
}

impl View for BookmarkCategory {
    type V = BookmarkCategoryView;

    open spec fn view(&self) -> BookmarkCategoryView {
        BookmarkCategoryView {
            name: self.name@,
            items: self.items@.map_values(|b: Bookmark| b@),
        }
    }
}

impl View for Bookmarks {
    type V = BookmarksView;

    open spec fn view(&self) -> BookmarksView {
        BookmarksView {
            desktop: self.desktop@.map_values(|c: BookmarkCategory| c@),
            web: self.web@.map_values(|c: BookmarkCategory| c@),
        }
    }
}

impl View for AppConfig {
    type V = AppConfigView;

    open spec fn view(&self) -> AppConfigView {
        AppConfigView {
            user_name: self.user_name@,
            weather_api_key: self.weather_api_key@,
            location: self.location@,
            country_code: self.country_code@,
            bookmarks: self.bookmarks@,
            notion_api_key: match self.notion_api_key {
                Some(k) => Some(k@),
                None => None,
            },
            notion_database_id: match self.notion_database_id {
                Some(k) => Some(k@),
                None => None,
            },
        }
    }
}

/// The settings record a fresh installation starts with: a placeholder
/// weather key, Tokyo/JP as the place, one local launcher and one web link,
/// and no task-service credentials.
pub open spec fn spec_default_config(username: Seq<char>) -> AppConfigView {
    AppConfigView {
        user_name: username,
        weather_api_key: "your_api_key_here"@,
        location: "Tokyo"@,
        country_code: "JP"@,
        bookmarks: BookmarksView {
            desktop: seq![
                BookmarkCategoryView {
                    name: "作業"@,
                    items: seq![BookmarkView { name: "notepad"@, url: "notepad"@ }],
                },
            ],
            web: seq![
                BookmarkCategoryView {
                    name: "検索"@,
                    items: seq![
                        BookmarkView { name: "Google"@, url: "https://google.com"@ },
                    ],
                },
            ],
        },
        notion_api_key: None,
        notion_database_id: None,
    }
}

impl AppConfig {
    /// The default settings record for a given user name.
    pub fn default_with_username(username: String) -> (c: Self)
        ensures
            c@ == spec_default_config(username@),
    {
        let desktop_items = vec_of_one(
            Bookmark { name: String::from_str("notepad"), url: String::from_str("notepad") },
        );
        let web_items = vec_of_one(
            Bookmark {
                name: String::from_str("Google"),
                url: String::from_str("https://google.com"),
            },
        );
        let desktop = vec_of_one(
            BookmarkCategory { name: String::from_str("作業"), items: desktop_items },
        );
        let web = vec_of_one(BookmarkCategory { name: String::from_str("検索"), items: web_items });
        let c = AppConfig {
            user_name: username,
            weather_api_key: String::from_str("your_api_key_here"),
            location: String::from_str("Tokyo"),
            country_code: String::from_str("JP"),
            bookmarks: Bookmarks { desktop, web },
            notion_api_key: None,
            notion_database_id: None,
        };
        proof {
            assert(c.bookmarks@.desktop =~~= spec_default_config(username@).bookmarks.desktop);
            assert(c.bookmarks@.web =~~= spec_default_config(username@).bookmarks.web);
            assert(c.bookmarks@ =~~= spec_default_config(username@).bookmarks);
            assert(c@ =~~= spec_default_config(username@));
        }
        c
    }
}

/// A vector holding exactly one element.
fn vec_of_one<T>(x: T) -> (v: Vec<T>)
    ensures
        v@ =~= seq![x],
{
    let mut v: Vec<T> = Vec::new();
    v.push(x);
    v
}

/// Whether the weather fetch has what it needs: a location and an API key.
pub open spec fn spec_weather_configured(c: AppConfigView) -> bool {
    c.location.len() > 0 && c.weather_api_key.len() > 0
}

/// Whether the holiday fetch has what it needs: a country code.
pub open spec fn spec_holiday_configured(c: AppConfigView) -> bool {
    c.country_code.len() > 0
}

/// Whether the task-list fetch has what it needs: a task-service key and a
/// database id.
pub open spec fn spec_tasks_configured(c: AppConfigView) -> bool {
    c.notion_api_key is Some && c.notion_database_id is Some
}

/// Decides whether the weather fetch is configured.
pub fn weather_configured(c: &AppConfig) -> (b: bool)
    ensures
        b == spec_weather_configured(c@),
{
    !c.location.as_str().is_empty() && !c.weather_api_key.as_str().is_empty()
}

/// Decides whether the holiday fetch is configured.
pub fn holiday_configured(c: &AppConfig) -> (b: bool)
    ensures
        b == spec_holiday_configured(c@),
{
    !c.country_code.as_str().is_empty()
}

/// Decides whether the task-list fetch is configured.
pub fn tasks_configured(c: &AppConfig) -> (b: bool)
    ensures
        b == spec_tasks_configured(c@),
{
    c.notion_api_key.is_some() && c.notion_database_id.is_some()
}

} // verus!
