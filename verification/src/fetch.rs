//! The compute half of the fetch tasks: the exact request URLs and bodies,
//! built from the settings and the current date. The caller performs the
//! network call these describe and hands the decoded outcome back to the
//! matching slot.

use vstd::prelude::*;
use vstd::string::*;

use crate::text::{dec_digits, push_nat_str, push_i32_str, spec_dec_int};

verus! {

/// What one day's clock reading looks like: a year, a month 1 to 12, a day
/// of month 1 to 31 and an hour 0 to 23.
pub open spec fn plausible_clock(year: i32, month: u32, day: u32, hour: u32) -> bool {
    1 <= month <= 12 && 1 <= day <= 31 && hour < 24
}

/// Relies on chrono: `Local::now` reads the current local time, and its
/// `Datelike`/`Timelike` accessors return the year, the month (documented
/// 1 to 12), the day of month (documented 1 to 31) and the hour (documented
/// 0 to 23). Nothing else is assumed of the clock: every caller must hold
/// for any reading within those bounds.
#[verifier::external_body]
fn now_local_parts() -> (r: (i32, u32, u32, u32))
    ensures
        plausible_clock(r.0, r.1, r.2, r.3),
{
    let now = chrono::Local::now();
    (
        chrono::Datelike::year(&now),
        chrono::Datelike::month(&now),
        chrono::Datelike::day(&now),
        chrono::Timelike::hour(&now),
    )
}

/// The weather endpoint for a place and an API key.
pub open spec fn spec_weather_url(location: Seq<char>, api_key: Seq<char>) -> Seq<char> {
    "https://api.openweathermap.org/data/2.5/weather?q="@ + location + "&appid="@ + api_key
        + "&lang=ja"@
}

/// Builds the weather endpoint for a place and an API key.
pub fn weather_url(location: &str, api_key: &str) -> (r: String)
    ensures
        r@ == spec_weather_url(location@, api_key@),
{
    let mut out = String::new();
    out.append("https://api.openweathermap.org/data/2.5/weather?q=");
    out.append(location);
    out.append("&appid=");
    out.append(api_key);
    out.append("&lang=ja");
    assert(out@ =~= spec_weather_url(location@, api_key@));
    out
}

/// The random-joke endpoint.
pub fn joke_url() -> (r: String)
    ensures
        r@ == "https://official-joke-api.appspot.com/jokes/random"@,
{
    String::from_str("https://official-joke-api.appspot.com/jokes/random")
}

/// The anniversary endpoint for a month and a day.
pub open spec fn spec_anniversary_url(month: u32, day: u32) -> Seq<char> {
    "https://api.whatistoday.cyou/v3/anniv/month/"@ + dec_digits(month as nat) + "/day/"@
        + dec_digits(day as nat)
}

/// Builds the anniversary endpoint for a month and a day.
pub fn anniversary_url(month: u32, day: u32) -> (r: String)
    ensures
        r@ == spec_anniversary_url(month, day),
{
    let mut out = String::new();
    out.append("https://api.whatistoday.cyou/v3/anniv/month/");
    push_nat_str(&mut out, month as u64);
    out.append("/day/");
    push_nat_str(&mut out, day as u64);
    assert(out@ =~= spec_anniversary_url(month, day));
    out
}

/// Builds the anniversary endpoint for the current date, as the clock reads
/// it: always a URL for a month 1 to 12 and a day 1 to 31.
pub fn todays_anniversary_url() -> (r: String)
    ensures
        exists|month: u32, day: u32|
            1 <= month <= 12 && 1 <= day <= 31 && r@ == spec_anniversary_url(month, day),
{
    let (_, month, day, _) = now_local_parts();
    let r = anniversary_url(month, day);
    assert(1 <= month <= 12 && 1 <= day <= 31 && r@ == spec_anniversary_url(month, day));
    r
}

/// The public-holiday endpoint for a year and a country code.
pub open spec fn spec_holiday_url(year: i32, country_code: Seq<char>) -> Seq<char> {
    "https://date.nager.at/api/v3/publicholidays/"@ + spec_dec_int(year as int) + "/"@
        + country_code
}

/// Builds the public-holiday endpoint for a year and a country code.
pub fn holiday_url(year: i32, country_code: &str) -> (r: String)
    ensures
        r@ == spec_holiday_url(year, country_code@),
{
    let mut out = String::new();
    out.append("https://date.nager.at/api/v3/publicholidays/");
    push_i32_str(&mut out, year);
    out.append("/");
    out.append(country_code);
    assert(out@ =~= spec_holiday_url(year, country_code@));
    out
}

/// Builds the public-holiday endpoint for the current year, as the clock
/// reads it.
pub fn this_years_holiday_url(country_code: &str) -> (r: String)
    ensures
        exists|year: i32| r@ == spec_holiday_url(year, country_code@),
{
    let (year, _, _, _) = now_local_parts();
    let r = holiday_url(year, country_code);
    assert(r@ == spec_holiday_url(year, country_code@));
    r
}

/// The hour of the day, as the clock reads it: always 0 to 23.
pub fn current_hour() -> (h: u32)
    ensures
        h < 24,
{
    let (_, _, _, hour) = now_local_parts();
    hour
}

/// The task-query endpoint for a task database.
pub open spec fn spec_task_query_url(database_id: Seq<char>) -> Seq<char> {
    "https://api.notion.com/v1/databases/"@ + database_id + "/query"@
}

/// Builds the task-query endpoint for a task database.
pub fn task_query_url(database_id: &str) -> (r: String)
    ensures
        r@ == spec_task_query_url(database_id@),
{
    let mut out = String::new();
    out.append("https://api.notion.com/v1/databases/");
    out.append(database_id);
    out.append("/query");
    assert(out@ =~= spec_task_query_url(database_id@));
    out
}

/// The task-query body: only items whose status is not done.
pub fn task_query_body() -> (r: String)
    ensures
        r@ == "{\"filter\":{\"property\":\"Status\",\"status\":{\"does_not_equal\":\"Done\"}}}"@,
{
    String::from_str(
        "{\"filter\":{\"property\":\"Status\",\"status\":{\"does_not_equal\":\"Done\"}}}",
    )
}

/// The task-update endpoint for one task.
pub open spec fn spec_task_update_url(task_id: Seq<char>) -> Seq<char> {
    "https://api.notion.com/v1/pages/"@ + task_id
}

/// Builds the task-update endpoint for one task: the mark-done command sends
/// its body here.
pub fn task_update_url(task_id: &str) -> (r: String)
    ensures
        r@ == spec_task_update_url(task_id@),
{
    let mut out = String::new();
    out.append("https://api.notion.com/v1/pages/");
    out.append(task_id);
    assert(out@ =~= spec_task_update_url(task_id@));
    out
}

/// The mark-done body: sets a task's status to done.
pub fn mark_done_body() -> (r: String)
    ensures
        r@ == "{\"properties\":{\"Status\":{\"status\":{\"name\":\"Done\"}}}}"@,
{
    String::from_str("{\"properties\":{\"Status\":{\"status\":{\"name\":\"Done\"}}}}")
}

} // verus!
