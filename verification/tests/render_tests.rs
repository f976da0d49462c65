use deskup::config::AppConfig;
use deskup::dashboard::Dashboard;
use deskup::greeting::Greeting;
use deskup::models::{MainWeather, TaskItem, Weather, WeatherResponse};
use deskup::render::{
    format_celsius, greeting_text, header_line, joke_display, panel, task_section,
    weather_line, weather_section,
};
use deskup::slot::{FetchError, Slot};

#[test]
fn greeting_boundaries() {
    // 0-11 morning, 12-17 midday, 18-23 evening; 11 and 12 land on opposite
    // sides.
    assert_eq!(greeting_text(deskup::greeting::greeting_for_hour(0)), "Good morning!");
    assert_eq!(greeting_text(deskup::greeting::greeting_for_hour(11)), "Good morning!");
    assert_eq!(greeting_text(deskup::greeting::greeting_for_hour(12)), "Hello!");
    assert_eq!(greeting_text(deskup::greeting::greeting_for_hour(17)), "Hello!");
    assert_eq!(greeting_text(deskup::greeting::greeting_for_hour(18)), "Good evening!");
    assert_eq!(greeting_text(deskup::greeting::greeting_for_hour(23)), "Good evening!");
    assert!(matches!(deskup::greeting::greeting_for_hour(11), Greeting::Morning));
    assert!(matches!(deskup::greeting::greeting_for_hour(12), Greeting::Midday));
}

#[test]
fn header_greets_by_hour() {
    assert_eq!(header_line("Alex", 9), "Good morning!, Alex. Is the coffee ready?");
    assert_eq!(header_line("Alex", 13), "Hello!, Alex. Is the coffee ready?");
    assert_eq!(header_line("Alex", 21), "Good evening!, Alex. Is the coffee ready?");
}

#[test]
fn kelvin_to_celsius_rounds_half_up() {
    // 300.00 K = 26.85 C; rounding half up displays 26.9.
    assert_eq!(format_celsius(30000), "26.9");
    // 300.04 K = 26.89 C -> 26.9; 300.05 K = 26.90 C exactly.
    assert_eq!(format_celsius(30004), "26.9");
    assert_eq!(format_celsius(30010), "27.0");
    // 273.15 K is exactly zero.
    assert_eq!(format_celsius(27315), "0.0");
    // 270.00 K = -3.15 C; half up gives -3.1.
    assert_eq!(format_celsius(27000), "-3.1");
    // 263.15 K = -10.00 C.
    assert_eq!(format_celsius(26315), "-10.0");
}

fn sample_weather() -> WeatherResponse {
    WeatherResponse {
        weather: vec![Weather { description: String::from("clear sky") }],
        main: MainWeather { temp_centikelvin: 30000, humidity: 43 },
    }
}

#[test]
fn weather_line_shows_place_conditions_and_celsius() {
    let line = weather_line(&sample_weather(), "Tokyo");
    assert_eq!(line, "Weather in Tokyo: clear sky, Temperature: 26.9\u{00b0}C, Humidity: 43%");
}

#[test]
fn weather_section_distinguishes_every_state() {
    let loading: Slot<WeatherResponse> = Slot::Unset;
    assert_eq!(weather_section(&loading, "Tokyo"), "Loading weather data...");
    let pending: Slot<WeatherResponse> = Slot::Pending;
    assert_eq!(weather_section(&pending, "Tokyo"), "Loading weather data...");
    let failed: Slot<WeatherResponse> = Slot::Failed(FetchError::Transport);
    assert_eq!(weather_section(&failed, "Tokyo"), "Weather data unavailable.");
    let unconfigured: Slot<WeatherResponse> = Slot::NotConfigured;
    assert_eq!(weather_section(&unconfigured, "Tokyo"), "Weather is not configured.");
    let ready: Slot<WeatherResponse> = Slot::Ready(sample_weather());
    assert!(weather_section(&ready, "Tokyo").starts_with("Weather in Tokyo:"));
}

#[test]
fn joke_concatenates_setup_and_punchline() {
    assert_eq!(
        joke_display("Why did the chicken cross the road?", "To get to the other side."),
        "Why did the chicken cross the road? - To get to the other side."
    );
}

#[test]
fn task_section_lists_open_items() {
    let ready: Slot<Vec<TaskItem>> = Slot::Ready(vec![
        TaskItem { id: String::from("t1"), title: String::from("Buy milk") },
        TaskItem { id: String::from("t2"), title: String::from("Ship crate") },
    ]);
    assert_eq!(task_section(&ready), vec!["[ ] Buy milk", "[ ] Ship crate"]);
    let unconfigured: Slot<Vec<TaskItem>> = Slot::NotConfigured;
    assert_eq!(task_section(&unconfigured), vec!["Task service is not configured."]);
}

#[test]
fn panel_has_fixed_section_order_with_placeholders() {
    let config = AppConfig::default_with_username(String::from("Alex"));
    let d = Dashboard::new();
    let lines = panel(&d, &config, 9);
    let expected = vec![
        "DeskUp",
        "Good morning!, Alex. Is the coffee ready?",
        "Weather",
        "Loading weather data...",
        "What day is it today?",
        "Anniversary in Japan",
        "Loading anniversary data...",
        "Anniversary in the world",
        "Loading anniversary data...",
        "Joke of the day",
        "Loading quote data...",
        "Desktop Applications",
        "作業",
        "  notepad -> notepad",
        "WEB Applications",
        "検索",
        "  Google -> https://google.com",
        "Tasks",
        "Loading task data...",
    ];
    assert_eq!(lines, expected);
}

#[test]
fn panel_shows_failures_distinctly_from_loading() {
    let config = AppConfig::default_with_username(String::from("Alex"));
    let mut d = Dashboard::new();
    let _ = d.refresh(&config);
    d.world_holiday.complete(Err(FetchError::Transport));
    let lines = panel(&d, &config, 9);
    assert!(lines.contains(&String::from("Holiday data unavailable.")));
    assert!(lines.contains(&String::from("Loading anniversary data...")));
    assert!(!lines.contains(&String::from("Loading task data...")));
    assert!(lines.contains(&String::from("Task service is not configured.")));
}
