use deskup::config::AppConfig;
use deskup::dashboard::Dashboard;
use deskup::slot::{FetchError, Slot};

fn configured_config() -> AppConfig {
    let mut c = AppConfig::default_with_username(String::from("tester"));
    c.notion_api_key = Some(String::from("SECRET-REDACTED"));
    c.notion_database_id = Some(String::from("db123"));
    c
}

#[test]
fn first_refresh_dispatches_every_configured_fetch() {
    let config = configured_config();
    let mut d = Dashboard::new();
    let plan = d.refresh(&config);
    assert!(plan.fetch_weather);
    assert!(plan.fetch_joke);
    assert!(plan.fetch_anniversary);
    assert!(plan.fetch_holiday);
    assert!(plan.fetch_tasks);
    assert!(d.weather_data.is_pending());
    assert!(d.joke.is_pending());
    assert!(d.jp_anniversary.is_pending());
    assert!(d.world_holiday.is_pending());
    assert!(d.tasks.is_pending());
}

#[test]
fn pending_slot_is_never_dispatched_twice() {
    let config = configured_config();
    let mut d = Dashboard::new();
    let first = d.refresh(&config);
    assert!(first.fetch_weather && first.fetch_joke && first.fetch_anniversary);
    assert!(first.fetch_holiday && first.fetch_tasks);
    // Every slot is now pending; repeated orchestrator passes must not
    // dispatch anything again.
    for _frame in 0..5 {
        let again = d.refresh(&config);
        assert!(!again.fetch_weather);
        assert!(!again.fetch_joke);
        assert!(!again.fetch_anniversary);
        assert!(!again.fetch_holiday);
        assert!(!again.fetch_tasks);
        assert!(d.joke.is_pending());
    }
}

#[test]
fn completed_slot_is_never_dispatched_again() {
    let config = configured_config();
    let mut d = Dashboard::new();
    let _ = d.refresh(&config);
    d.joke.complete(Ok(String::from("setup - punchline")));
    let again = d.refresh(&config);
    assert!(!again.fetch_joke);
    assert_eq!(d.joke.value(), Some(&String::from("setup - punchline")));
}

#[test]
fn unconfigured_fetches_are_marked_not_dispatched() {
    // No task credentials, an empty country code, an empty location.
    let mut config = AppConfig::default_with_username(String::from("tester"));
    config.country_code = String::new();
    config.location = String::new();
    let mut d = Dashboard::new();
    let plan = d.refresh(&config);
    assert!(!plan.fetch_weather);
    assert!(!plan.fetch_holiday);
    assert!(!plan.fetch_tasks);
    assert!(plan.fetch_joke);
    assert!(plan.fetch_anniversary);
    assert!(matches!(d.weather_data, Slot::NotConfigured));
    assert!(matches!(d.world_holiday, Slot::NotConfigured));
    assert!(matches!(d.tasks, Slot::NotConfigured));
}

#[test]
fn transport_failure_leaves_holiday_slot_terminally_failed() {
    // A simulated transport error for the holiday fetch: the slot must reach
    // a terminal Failed state, distinguishable from a fetch still loading.
    let config = configured_config();
    let mut d = Dashboard::new();
    let plan = d.refresh(&config);
    assert!(plan.fetch_holiday);
    assert!(d.world_holiday.is_pending());
    d.world_holiday.complete(Err(FetchError::Transport));
    assert!(!d.world_holiday.is_pending());
    assert!(matches!(d.world_holiday, Slot::Failed(FetchError::Transport)));
    // And a later pass neither re-dispatches nor disturbs the failed state.
    let again = d.refresh(&config);
    assert!(!again.fetch_holiday);
    assert!(matches!(d.world_holiday, Slot::Failed(FetchError::Transport)));
}

#[test]
fn complete_writes_a_slot_at_most_once() {
    let mut s: Slot<u32> = Slot::new();
    assert!(s.claim());
    assert!(!s.claim());
    s.complete(Ok(7));
    // A second completion must not overwrite the terminal state.
    s.complete(Ok(8));
    assert_eq!(s.value(), Some(&7));
    s.complete(Err(FetchError::Decode));
    assert_eq!(s.value(), Some(&7));
}

#[test]
fn decode_failure_is_distinguishable_from_transport_failure() {
    let mut a: Slot<u32> = Slot::new();
    let mut b: Slot<u32> = Slot::new();
    assert!(a.claim());
    assert!(b.claim());
    a.complete(Err(FetchError::Transport));
    b.complete(Err(FetchError::Decode));
    assert!(matches!(a, Slot::Failed(FetchError::Transport)));
    assert!(matches!(b, Slot::Failed(FetchError::Decode)));
}
