//! The presentation layer: a pure function from the current slot states and
//! the settings to the panel's text. Every section tolerates partial
//! completion — an unfinished fetch shows a loading placeholder, a failed one
//! its own message, and an unconfigured one a "not configured" note, each
//! distinguishable from the others.

use vstd::arithmetic::div_mod::lemma_fundamental_div_mod_converse;
use vstd::prelude::*;
use vstd::string::*;

use crate::config::{BookmarkCategory, BookmarkCategoryView};
use crate::greeting::{greeting_for_hour, spec_greeting_for_hour, Greeting};
use crate::models::{
    HolidayResponse, HolidayResponseView, JapaneseAnniversary, JapaneseAnniversaryView, TaskItem,
    TaskItemView, WeatherResponse, WeatherResponseView,
};
use crate::slot::Slot;
use crate::text::{dec_digits, digit_char, digit_str, push_i32_str, push_nat_str, spec_dec_int};

verus! {

// ---------------------------------------------------------------------------
// Greeting
// ---------------------------------------------------------------------------
/// The words of each greeting.
pub open spec fn spec_greeting_text(g: Greeting) -> Seq<char> {
    match g {
        Greeting::Morning => "Good morning!"@,
        Greeting::Midday => "Hello!"@,
        Greeting::Evening => "Good evening!"@,
    }
}

/// The words of a greeting.
pub fn greeting_text(g: Greeting) -> (r: &'static str)
    ensures
        r@ == spec_greeting_text(g),
{
    match g {
        Greeting::Morning => "Good morning!",
        Greeting::Midday => "Hello!",
        Greeting::Evening => "Good evening!",
    }
}

/// The header line for an hour of the day.
pub open spec fn spec_header_line(user: Seq<char>, hour: u32) -> Seq<char> {
    spec_greeting_text(spec_greeting_for_hour(hour)) + ", "@ + user + ". Is the coffee ready?"@
}

/// Renders the header: the greeting the hour calls for, then the user's name.
pub fn header_line(user_name: &str, hour: u32) -> (r: String)
    requires
        hour < 24,
    ensures
        r@ == spec_header_line(user_name@, hour),
{
    let mut out = String::new();
    out.append(greeting_text(greeting_for_hour(hour)));
    out.append(", ");
    out.append(user_name);
    out.append(". Is the coffee ready?");
    assert(out@ =~= spec_header_line(user_name@, hour));
    out
}

// ---------------------------------------------------------------------------
// Temperature
// ---------------------------------------------------------------------------
/// The displayed Celsius value, in tenths of a degree, for a temperature in
/// hundredths of a kelvin: `ck/100 - 273.15` rounded to one decimal, half up.
pub open spec fn spec_celsius_tenths(ck: u32) -> int {
    (ck - 27310) / 10
}

/// The one-decimal writing of a value in tenths of a degree: sign, whole
/// degrees, a point, one decimal digit.
pub open spec fn spec_tenths_text(t: int) -> Seq<char> {
    if t < 0 {
        seq!['-'] + dec_digits(((-t) as nat) / 10) + seq!['.'] + seq![
            digit_char(((-t) as nat) % 10),
        ]
    } else {
        dec_digits((t as nat) / 10) + seq!['.'] + seq![digit_char((t as nat) % 10)]
    }
}

/// Writes the Celsius display for a temperature in hundredths of a kelvin:
/// one decimal, rounded half up.
pub fn format_celsius(ck: u32) -> (r: String)
    ensures
        r@ == spec_tenths_text(spec_celsius_tenths(ck)),
{
    proof {
        reveal_strlit(".");
        assert("."@ =~= seq!['.']);
        reveal_strlit("-");
        assert("-"@ =~= seq!['-']);
    }
    let mut out = String::new();
    if ck >= 27310 {
        let t: u32 = (ck - 27310) / 10;
        assert(t == spec_celsius_tenths(ck));
        push_nat_str(&mut out, (t / 10) as u64);
        out.append(".");
        out.append(digit_str((t % 10) as u8));
        assert(out@ =~= spec_tenths_text(spec_celsius_tenths(ck)));
    } else {
        let d: u32 = 27310 - ck;
        let t: u32 = (d + 9) / 10;
        proof {
            let q = ((d + 9) / 10) as int;
            let rm = ((d + 9) % 10) as int;
            lemma_fundamental_div_mod_converse(0 - (d as int), 10, 0 - q, 9 - rm);
            assert(spec_celsius_tenths(ck) == 0 - q);
        }
        out.append("-");
        push_nat_str(&mut out, (t / 10) as u64);
        out.append(".");
        out.append(digit_str((t % 10) as u8));
        proof {
            let ct = spec_celsius_tenths(ck);
            assert(ct < 0 && (-ct) as nat == t as nat);
            assert(out@ =~= spec_tenths_text(ct));
        }
    }
    out
}

// ---------------------------------------------------------------------------
// Section texts
// ---------------------------------------------------------------------------
/// The weather line for a decoded reply.
pub open spec fn spec_weather_line(w: WeatherResponseView, location: Seq<char>) -> Seq<char> {
    "Weather in "@ + location + ": "@ + w.weather[0].description + ", Temperature: "@
        + spec_tenths_text(spec_celsius_tenths(w.main.temp_centikelvin)) + "\u{00b0}C, Humidity: "@
        + spec_dec_int(w.main.humidity as int) + "%"@
}

/// Renders the weather line for a decoded reply.
pub fn weather_line(w: &WeatherResponse, location: &str) -> (r: String)
    requires
        w.weather@.len() > 0,
    ensures
        r@ == spec_weather_line(w@, location@),
{
    let mut out = String::new();
    out.append("Weather in ");
    out.append(location);
    out.append(": ");
    out.append(w.weather[0].description.as_str());
    out.append(", Temperature: ");
    let temp = format_celsius(w.main.temp_centikelvin);
    out.append(temp.as_str());
    out.append("\u{00b0}C, Humidity: ");
    push_i32_str(&mut out, w.main.humidity);
    out.append("%");
    assert(out@ =~= spec_weather_line(w@, location@));
    out
}

/// The weather section's one line, for every slot state.
pub open spec fn spec_weather_section(s: Slot<WeatherResponse>, location: Seq<char>) -> Seq<
    char,
> {
    match s {
        Slot::Ready(w) => spec_weather_line(w@, location),
        Slot::Unset | Slot::Pending => "Loading weather data..."@,
        Slot::Failed(_) => "Weather data unavailable."@,
        Slot::NotConfigured => "Weather is not configured."@,
    }
}

/// Renders the weather section: the weather line once the fetch has
/// delivered, a loading placeholder while it has not, and a distinct message
/// for a failed or unconfigured fetch.
pub fn weather_section(s: &Slot<WeatherResponse>, location: &str) -> (r: String)
    requires
        *s matches Slot::Ready(w) ==> w.weather@.len() > 0,
    ensures
        r@ == spec_weather_section(*s, location@),
{
    match s {
        Slot::Ready(w) => weather_line(w, location),
        Slot::Unset | Slot::Pending => String::from_str("Loading weather data..."),
        Slot::Failed(_) => String::from_str("Weather data unavailable."),
        Slot::NotConfigured => String::from_str("Weather is not configured."),
    }
}

/// A joke's display string: setup, a dash, punchline.
pub open spec fn spec_joke_display(setup: Seq<char>, punchline: Seq<char>) -> Seq<char> {
    setup + " - "@ + punchline
}

/// Concatenates a decoded joke into its one display string.
pub fn joke_display(setup: &str, punchline: &str) -> (r: String)
    ensures
        r@ == spec_joke_display(setup@, punchline@),
{
    let mut out = String::new();
    out.append(setup);
    out.append(" - ");
    out.append(punchline);
    assert(out@ =~= spec_joke_display(setup@, punchline@));
    out
}

/// The joke section's one line, for every slot state.
pub open spec fn spec_joke_section(s: Slot<String>) -> Seq<char> {
    match s {
        Slot::Ready(j) => j@,
        Slot::Unset | Slot::Pending => "Loading quote data..."@,
        Slot::Failed(_) => "Quote data unavailable."@,
        Slot::NotConfigured => "Quotes are not configured."@,
    }
}

/// Renders the joke section.
pub fn joke_section(s: &Slot<String>) -> (r: String)
    ensures
        r@ == spec_joke_section(*s),
{
    match s {
        Slot::Ready(j) => j.clone(),
        Slot::Unset | Slot::Pending => String::from_str("Loading quote data..."),
        Slot::Failed(_) => String::from_str("Quote data unavailable."),
        Slot::NotConfigured => String::from_str("Quotes are not configured."),
    }
}

/// One anniversary's line.
pub open spec fn spec_anniversary_line(a: JapaneseAnniversaryView) -> Seq<char> {
    "- "@ + a.name + ": "@ + a.description
}

/// One holiday's line.
pub open spec fn spec_holiday_line(h: HolidayResponseView) -> Seq<char> {
    "- "@ + h.date + ": "@ + h.name + " ("@ + h.local_name + ")"@
}

/// One open task's line.
pub open spec fn spec_task_line(t: TaskItemView) -> Seq<char> {
    "[ ] "@ + t.title
}

/// Renders one anniversary.
pub fn anniversary_line(a: &JapaneseAnniversary) -> (r: String)
    ensures
        r@ == spec_anniversary_line(a@),
{
    let mut out = String::new();
    out.append("- ");
    out.append(a.name.as_str());
    out.append(": ");
    out.append(a.description.as_str());
    assert(out@ =~= spec_anniversary_line(a@));
    out
}

/// Renders one holiday.
pub fn holiday_line(h: &HolidayResponse) -> (r: String)
    ensures
        r@ == spec_holiday_line(h@),
{
    let mut out = String::new();
    out.append("- ");
    out.append(h.date.as_str());
    out.append(": ");
    out.append(h.name.as_str());
    out.append(" (");
    out.append(h.local_name.as_str());
    out.append(")");
    assert(out@ =~= spec_holiday_line(h@));
    out
}

/// Renders one open task.
pub fn task_line(t: &TaskItem) -> (r: String)
    ensures
        r@ == spec_task_line(t@),
{
    let mut out = String::new();
    out.append("[ ] ");
    out.append(t.title.as_str());
    assert(out@ =~= spec_task_line(t@));
    out
}

/// The views of a sequence of rendered lines.
pub open spec fn line_views(lines: Seq<String>) -> Seq<Seq<char>> {
    lines.map_values(|s: String| s@)
}

proof fn lemma_line_views_push(prev: Seq<String>, s: String)
    ensures
        line_views(prev.push(s)) =~= line_views(prev).push(s@),
{
}

proof fn lemma_map_take_push<T>(s: Seq<T>, i: int, f: spec_fn(T) -> Seq<char>)
    requires
        0 <= i < s.len(),
    ensures
        s.take(i + 1).map_values(f) =~= s.take(i).map_values(f).push(f(s[i])),
{
}

/// The anniversary sub-list: one line per entry once the fetch has
/// delivered, otherwise one placeholder line.
pub open spec fn spec_anniversary_section(s: Slot<Vec<JapaneseAnniversary>>) -> Seq<Seq<char>> {
    match s {
        Slot::Ready(list) => list@.map_values(|a: JapaneseAnniversary| spec_anniversary_line(a@)),
        Slot::Unset | Slot::Pending => seq!["Loading anniversary data..."@],
        Slot::Failed(_) => seq!["Anniversary data unavailable."@],
        Slot::NotConfigured => seq!["Anniversaries are not configured."@],
    }
}

/// Renders the anniversary sub-list.
pub fn anniversary_section(s: &Slot<Vec<JapaneseAnniversary>>) -> (r: Vec<String>)
    ensures
        line_views(r@) == spec_anniversary_section(*s),
{
    let mut out: Vec<String> = Vec::new();
    match s {
        Slot::Ready(list) => {
            let mut i: usize = 0;
            while i < list.len()
                invariant
                    i <= list@.len(),
                    line_views(out@) =~= list@.take(i as int).map_values(
                        |a: JapaneseAnniversary| spec_anniversary_line(a@),
                    ),
                decreases list@.len() - i,
            {
                let ghost prev = out@;
                let line = anniversary_line(&list[i]);
                let ghost lv = line@;
                out.push(line);
                proof {
                    lemma_line_views_push(prev, out@[i as int]);
                    lemma_map_take_push(
                        list@,
                        i as int,
                        |a: JapaneseAnniversary| spec_anniversary_line(a@),
                    );
                    assert(line_views(out@) =~= list@.take(i + 1).map_values(
                        |a: JapaneseAnniversary| spec_anniversary_line(a@),
                    ));
                }
                i += 1;
            }
            assert(list@.take(list@.len() as int) =~= list@);
        },
        Slot::Unset | Slot::Pending => {
            out.push(String::from_str("Loading anniversary data..."));
            assert(line_views(out@) =~= seq!["Loading anniversary data..."@]);
        },
        Slot::Failed(_) => {
            out.push(String::from_str("Anniversary data unavailable."));
            assert(line_views(out@) =~= seq!["Anniversary data unavailable."@]);
        },
        Slot::NotConfigured => {
            out.push(String::from_str("Anniversaries are not configured."));
            assert(line_views(out@) =~= seq!["Anniversaries are not configured."@]);
        },
    }
    out
}

/// The holiday sub-list: one line per entry once the fetch has delivered,
/// otherwise one placeholder line.
pub open spec fn spec_holiday_section(s: Slot<Vec<HolidayResponse>>) -> Seq<Seq<char>> {
    match s {
        Slot::Ready(list) => list@.map_values(|h: HolidayResponse| spec_holiday_line(h@)),
        Slot::Unset | Slot::Pending => seq!["Loading anniversary data..."@],
        Slot::Failed(_) => seq!["Holiday data unavailable."@],
        Slot::NotConfigured => seq!["Holidays are not configured."@],
    }
}

/// Renders the holiday sub-list.
pub fn holiday_section(s: &Slot<Vec<HolidayResponse>>) -> (r: Vec<String>)
    ensures
        line_views(r@) == spec_holiday_section(*s),
{
    let mut out: Vec<String> = Vec::new();
    match s {
        Slot::Ready(list) => {
            let mut i: usize = 0;
            while i < list.len()
                invariant
                    i <= list@.len(),
                    line_views(out@) =~= list@.take(i as int).map_values(
                        |h: HolidayResponse| spec_holiday_line(h@),
                    ),
                decreases list@.len() - i,
            {
                let ghost prev = out@;
                let line = holiday_line(&list[i]);
                out.push(line);
                proof {
                    lemma_line_views_push(prev, out@[i as int]);
                    lemma_map_take_push(
                        list@,
                        i as int,
                        |h: HolidayResponse| spec_holiday_line(h@),
                    );
                    assert(line_views(out@) =~= list@.take(i + 1).map_values(
                        |h: HolidayResponse| spec_holiday_line(h@),
                    ));
                }
                i += 1;
            }
            assert(list@.take(list@.len() as int) =~= list@);
        },
        Slot::Unset | Slot::Pending => {
            out.push(String::from_str("Loading anniversary data..."));
            assert(line_views(out@) =~= seq!["Loading anniversary data..."@]);
        },
        Slot::Failed(_) => {
            out.push(String::from_str("Holiday data unavailable."));
            assert(line_views(out@) =~= seq!["Holiday data unavailable."@]);
        },
        Slot::NotConfigured => {
            out.push(String::from_str("Holidays are not configured."));
            assert(line_views(out@) =~= seq!["Holidays are not configured."@]);
        },
    }
    out
}

/// The task sub-list: one checkbox line per open task once the fetch has
/// delivered, otherwise one placeholder line.
pub open spec fn spec_task_section(s: Slot<Vec<TaskItem>>) -> Seq<Seq<char>> {
    match s {
        Slot::Ready(list) => list@.map_values(|t: TaskItem| spec_task_line(t@)),
        Slot::Unset | Slot::Pending => seq!["Loading task data..."@],
        Slot::Failed(_) => seq!["Task data unavailable."@],
        Slot::NotConfigured => seq!["Task service is not configured."@],
    }
}

/// Renders the task sub-list.
pub fn task_section(s: &Slot<Vec<TaskItem>>) -> (r: Vec<String>)
    ensures
        line_views(r@) == spec_task_section(*s),
{
    let mut out: Vec<String> = Vec::new();
    match s {
        Slot::Ready(list) => {
            let mut i: usize = 0;
            while i < list.len()
                invariant
                    i <= list@.len(),
                    line_views(out@) =~= list@.take(i as int).map_values(
                        |t: TaskItem| spec_task_line(t@),
                    ),
                decreases list@.len() - i,
            {
                let ghost prev = out@;
                let line = task_line(&list[i]);
                out.push(line);
                proof {
                    lemma_line_views_push(prev, out@[i as int]);
                    lemma_map_take_push(list@, i as int, |t: TaskItem| spec_task_line(t@));
                    assert(line_views(out@) =~= list@.take(i + 1).map_values(
                        |t: TaskItem| spec_task_line(t@),
                    ));
                }
                i += 1;
            }
            assert(list@.take(list@.len() as int) =~= list@);
        },
        Slot::Unset | Slot::Pending => {
            out.push(String::from_str("Loading task data..."));
            assert(line_views(out@) =~= seq!["Loading task data..."@]);
        },
        Slot::Failed(_) => {
            out.push(String::from_str("Task data unavailable."));
            assert(line_views(out@) =~= seq!["Task data unavailable."@]);
        },
        Slot::NotConfigured => {
            out.push(String::from_str("Task service is not configured."));
            assert(line_views(out@) =~= seq!["Task service is not configured."@]);
        },
    }
    out
}

/// The lines of one bookmark category: its name, then one indented line per
/// bookmark showing the display name and the launch target.
pub open spec fn spec_bookmark_cat_lines(c: BookmarkCategoryView) -> Seq<Seq<char>> {
    seq![c.name] + c.items.map_values(
        |b: crate::config::BookmarkView| "  "@ + b.name + " -> "@ + b.url,
    )
}

/// The lines of a bookmark list, category after category.
pub open spec fn spec_bookmark_lines(cats: Seq<BookmarkCategoryView>) -> Seq<Seq<char>>
    decreases cats.len(),
{
    if cats.len() == 0 {
        Seq::empty()
    } else {
        spec_bookmark_cat_lines(cats[0]) + spec_bookmark_lines(cats.drop_first())
    }
}

/// Renders the lines of the categories from index `i` on into `out`.
fn push_bookmark_lines_from(out: &mut Vec<String>, cats: &Vec<BookmarkCategory>, i: usize)
    requires
        i <= cats@.len(),
    ensures
        line_views(final(out)@) == line_views(old(out)@) + spec_bookmark_lines(
            crate::settings::cat_views(cats@).skip(i as int),
        ),
    decreases cats@.len() - i,
{
    if i < cats.len() {
        let c = &cats[i];
        out.push(c.name.clone());
        let mut j: usize = 0;
        while j < c.items.len()
            invariant
                j <= c.items@.len(),
                line_views(out@) =~= line_views(old(out)@) + seq![c@.name] + c@.items.take(
                    j as int,
                ).map_values(|b: crate::config::BookmarkView| "  "@ + b.name + " -> "@ + b.url),
            decreases c.items@.len() - j,
        {
            let b = &c.items[j];
            let mut line = String::new();
            line.append("  ");
            line.append(b.name.as_str());
            line.append(" -> ");
            line.append(b.url.as_str());
            let ghost prev = out@;
            out.push(line);
            proof {
                lemma_line_views_push(prev, out@[prev.len() as int]);
                lemma_map_take_push(
                    c@.items,
                    j as int,
                    |b: crate::config::BookmarkView| "  "@ + b.name + " -> "@ + b.url,
                );
                assert(line_views(out@) =~= line_views(old(out)@) + seq![c@.name]
                    + c@.items.take(j + 1).map_values(
                    |b: crate::config::BookmarkView| "  "@ + b.name + " -> "@ + b.url,
                ));
            }
            j += 1;
        }
        proof {
            assert(c@.items.take(c.items@.len() as int) =~= c@.items);
            assert(line_views(out@) =~= line_views(old(out)@) + spec_bookmark_cat_lines(c@));
        }
        push_bookmark_lines_from(out, cats, i + 1);
        proof {
            let vs = crate::settings::cat_views(cats@);
            assert(vs.skip(i as int)[0] == cats@[i as int]@);
            assert(vs.skip(i as int).drop_first() =~= vs.skip(i + 1));
            assert(line_views(out@) =~= line_views(old(out)@) + spec_bookmark_lines(
                vs.skip(i as int),
            ));
        }
    } else {
        proof {
            assert(crate::settings::cat_views(cats@).skip(i as int)
                =~= Seq::<BookmarkCategoryView>::empty());
            assert(line_views(out@) =~= line_views(old(out)@));
        }
    }
}

proof fn lemma_line_views_concat(a: Seq<String>, b: Seq<String>)
    ensures
        line_views(a + b) =~= line_views(a) + line_views(b),
{
}

/// Renders a bookmark list as text lines, category after category.
pub fn bookmark_lines(cats: &Vec<BookmarkCategory>) -> (r: Vec<String>)
    ensures
        line_views(r@) == spec_bookmark_lines(crate::settings::cat_views(cats@)),
{
    let mut out: Vec<String> = Vec::new();
    push_bookmark_lines_from(&mut out, cats, 0);
    proof {
        assert(crate::settings::cat_views(cats@).skip(0) =~= crate::settings::cat_views(cats@));
        assert(line_views(out@) =~= spec_bookmark_lines(crate::settings::cat_views(cats@)));
    }
    out
}

// ---------------------------------------------------------------------------
// The whole panel
// ---------------------------------------------------------------------------
/// The whole panel's lines, in their fixed section order: title, greeting,
/// weather, the two anniversary sub-lists, the joke, the two bookmark
/// columns, the task list.
pub open spec fn spec_panel(
    d: crate::dashboard::Dashboard,
    cfg: crate::config::AppConfigView,
    hour: u32,
) -> Seq<Seq<char>> {
    seq![
        "DeskUp"@,
        spec_header_line(cfg.user_name, hour),
        "Weather"@,
        spec_weather_section(d.weather_data, cfg.location),
        "What day is it today?"@,
        "Anniversary in Japan"@,
    ] + spec_anniversary_section(d.jp_anniversary) + seq!["Anniversary in the world"@]
        + spec_holiday_section(d.world_holiday) + seq!["Joke of the day"@, spec_joke_section(
        d.joke,
    )] + seq!["Desktop Applications"@] + spec_bookmark_lines(cfg.bookmarks.desktop) + seq![
        "WEB Applications"@,
    ] + spec_bookmark_lines(cfg.bookmarks.web) + seq!["Tasks"@] + spec_task_section(d.tasks)
}

/// Renders the whole panel from the current slots and the settings: a pure
/// read of the state, one line per entry, every section in its fixed place.
pub fn panel(
    d: &crate::dashboard::Dashboard,
    config: &crate::config::AppConfig,
    hour: u32,
) -> (r: Vec<String>)
    requires
        hour < 24,
        d.weather_data matches Slot::Ready(w) ==> w.weather@.len() > 0,
    ensures
        line_views(r@) == spec_panel(*d, config@, hour),
{
    let ghost goal = spec_panel(*d, config@, hour);
    let mut out: Vec<String> = Vec::new();
    out.push(String::from_str("DeskUp"));
    out.push(header_line(config.user_name.as_str(), hour));
    out.push(String::from_str("Weather"));
    out.push(weather_section(&d.weather_data, config.location.as_str()));
    out.push(String::from_str("What day is it today?"));
    out.push(String::from_str("Anniversary in Japan"));
    let ghost seg1 = out@;
    assert(line_views(seg1) =~= seq![
        "DeskUp"@,
        spec_header_line(config@.user_name, hour),
        "Weather"@,
        spec_weather_section(d.weather_data, config@.location),
        "What day is it today?"@,
        "Anniversary in Japan"@,
    ]);
    let mut sec = anniversary_section(&d.jp_anniversary);
    let ghost sec1 = sec@;
    out.append(&mut sec);
    proof {
        lemma_line_views_concat(seg1, sec1);
    }
    out.push(String::from_str("Anniversary in the world"));
    let ghost seg2 = out@;
    assert(line_views(seg2) =~= line_views(seg1) + spec_anniversary_section(d.jp_anniversary)
        + seq!["Anniversary in the world"@]) by {
        lemma_line_views_push(seg1 + sec1, seg2.last());
        lemma_line_views_concat(seg1, sec1);
    }
    let mut sec = holiday_section(&d.world_holiday);
    let ghost sec2 = sec@;
    out.append(&mut sec);
    proof {
        lemma_line_views_concat(seg2, sec2);
    }
    out.push(String::from_str("Joke of the day"));
    out.push(joke_section(&d.joke));
    out.push(String::from_str("Desktop Applications"));
    let ghost seg3 = out@;
    assert(line_views(seg3) =~= line_views(seg2) + spec_holiday_section(d.world_holiday) + seq![
        "Joke of the day"@,
        spec_joke_section(d.joke),
        "Desktop Applications"@,
    ]);
    let mut sec = bookmark_lines(&config.bookmarks.desktop);
    let ghost sec3 = sec@;
    out.append(&mut sec);
    proof {
        lemma_line_views_concat(seg3, sec3);
    }
    out.push(String::from_str("WEB Applications"));
    let ghost seg4 = out@;
    assert(line_views(seg4) =~= line_views(seg3) + spec_bookmark_lines(config@.bookmarks.desktop)
        + seq!["WEB Applications"@]);
    let mut sec = bookmark_lines(&config.bookmarks.web);
    let ghost sec4 = sec@;
    out.append(&mut sec);
    proof {
        lemma_line_views_concat(seg4, sec4);
    }
    out.push(String::from_str("Tasks"));
    let ghost seg5 = out@;
    assert(line_views(seg5) =~= line_views(seg4) + spec_bookmark_lines(config@.bookmarks.web)
        + seq!["Tasks"@]);
    let mut sec = task_section(&d.tasks);
    let ghost sec5 = sec@;
    out.append(&mut sec);
    proof {
        lemma_line_views_concat(seg5, sec5);
        assert(line_views(out@) =~= goal);
    }
    out
}

} // verus!
