//! Typed response models: one passive record per remote reply shape. Pure
//! data; each model carries a mathematical view for contracts.

use vstd::prelude::*;

verus! {

/// One weather-condition entry of a weather reply.
#[derive(Clone, Debug)]
pub struct Weather {
    pub description: String,
}

/// The numeric block of a weather reply. The temperature is carried in
/// hundredths of a kelvin, exactly as precise as the one-decimal Celsius
/// display needs.
#[derive(Clone, Copy, Debug, PartialEq, Eq, Structural)]
pub struct MainWeather {
    pub temp_centikelvin: u32,
    pub humidity: i32,
}

/// A decoded weather reply.
#[derive(Clone, Debug)]
pub struct WeatherResponse {
    pub weather: Vec<Weather>,
    pub main: MainWeather,
}

/// A decoded joke reply.
#[derive(Clone, Debug)]
pub struct JokeResponse {
    pub setup: String,
    pub punchline: String,
}

/// One Japanese anniversary of the day.
#[derive(Clone, Debug)]
pub struct JapaneseAnniversary {
    pub name: String,
    pub description: String,
}

/// A decoded anniversary reply.
#[derive(Clone, Debug)]
pub struct JapaneseAnniversaryResponse {
    pub anniversaries: Vec<JapaneseAnniversary>,
}

/// One public holiday of the configured country.
#[derive(Clone, Debug)]
pub struct HolidayResponse {
    pub date: String,
    pub name: String,
    pub local_name: String,
}

/// One open item of the external task tracker.
#[derive(Clone, Debug)]
pub struct TaskItem {
    pub id: String,
    pub title: String,
}

/// One raw entry of a task-query reply: an identifier and the title as the
/// tracker sends it, a list of text segments that may be empty.
#[derive(Clone, Debug)]
pub struct RawTaskEntry {
    pub id: String,
    pub title: Vec<String>,
}

/// Mathematical image of a `Weather`.
#[verifier::ext_equal]
pub struct WeatherView {
    pub description: Seq<char>,
}

/// Mathematical image of a `WeatherResponse`.
#[verifier::ext_equal]
pub struct WeatherResponseView {
    pub weather: Seq<WeatherView>,
    pub main: MainWeather,
}

/// Mathematical image of a `JokeResponse`.
#[verifier::ext_equal]
pub struct JokeResponseView {
    pub setup: Seq<char>,
    pub punchline: Seq<char>,
}

/// Mathematical image of a `JapaneseAnniversary`.
#[verifier::ext_equal]
pub struct JapaneseAnniversaryView {
    pub name: Seq<char>,
    pub description: Seq<char>,
}

/// Mathematical image of a `HolidayResponse`.
#[verifier::ext_equal]
pub struct HolidayResponseView {
    pub date: Seq<char>,
    pub name: Seq<char>,
    pub local_name: Seq<char>,
}

/// Mathematical image of a `TaskItem`.
#[verifier::ext_equal]
pub struct TaskItemView {
    pub id: Seq<char>,
    pub title: Seq<char>,
}

/// Mathematical image of a `RawTaskEntry`.
#[verifier::ext_equal]
pub struct RawTaskEntryView {
    pub id: Seq<char>,
    pub title: Seq<Seq<char>>,
}

impl View for Weather {
    type V = WeatherView;

    open spec fn view(&self) -> WeatherView {
        WeatherView { description: self.description@ }
    }
}

impl View for WeatherResponse {
    type V = WeatherResponseView;

    open spec fn view(&self) -> WeatherResponseView {
        WeatherResponseView {
            weather: self.weather@.map_values(|w: Weather| w@),
            main: self.main,
        }
    }
}

impl View for JokeResponse {
    type V = JokeResponseView;

    open spec fn view(&self) -> JokeResponseView {
        JokeResponseView { setup: self.setup@, punchline: self.punchline@ }
    }
}

impl View for JapaneseAnniversary {
    type V = JapaneseAnniversaryView;

    open spec fn view(&self) -> JapaneseAnniversaryView {
        JapaneseAnniversaryView { name: self.name@, description: self.description@ }
    }
}

impl View for HolidayResponse {
    type V = HolidayResponseView;

    open spec fn view(&self) -> HolidayResponseView {
        HolidayResponseView { date: self.date@, name: self.name@, local_name: self.local_name@ }
    }
}

impl View for TaskItem {
    type V = TaskItemView;

    open spec fn view(&self) -> TaskItemView {
        TaskItemView { id: self.id@, title: self.title@ }
    }
}

impl View for RawTaskEntry {
    type V = RawTaskEntryView;

    open spec fn view(&self) -> RawTaskEntryView {
        RawTaskEntryView { id: self.id@, title: self.title@.map_values(|t: String| t@) }
    }
}

} // verus!
