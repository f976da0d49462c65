//! The refresh orchestrator: one slot per data domain and one pass per
//! presentation frame that decides which fetches still need to run. A pass
//! claims a slot (moving it to `Pending`) in the same step that grants the
//! dispatch, so a request already in flight — or any settled slot — is never
//! dispatched again.

use vstd::prelude::*;

use crate::config::{
    spec_holiday_configured, spec_tasks_configured, spec_weather_configured, holiday_configured,
    tasks_configured, weather_configured, AppConfig, AppConfigView,
};
use crate::models::{HolidayResponse, JapaneseAnniversary, TaskItem, WeatherResponse};
use crate::slot::Slot;

verus! {

/// The shared application state: one slot per data domain.
pub struct Dashboard {
    pub weather_data: Slot<WeatherResponse>,
    pub joke: Slot<String>,
    pub jp_anniversary: Slot<Vec<JapaneseAnniversary>>,
    pub world_holiday: Slot<Vec<HolidayResponse>>,
    pub tasks: Slot<Vec<TaskItem>>,
}

/// What one refresh pass asks the caller to dispatch: one flag per fetch
/// task. The caller performs each granted fetch out of band and later hands
/// the outcome to the matching slot's `complete`.
#[derive(Clone, Copy, Debug, PartialEq, Eq, Structural)]
pub struct RefreshPlan {
    pub fetch_weather: bool,
    pub fetch_joke: bool,
    pub fetch_anniversary: bool,
    pub fetch_holiday: bool,
    pub fetch_tasks: bool,
}

/// How one slot moves under a refresh pass: an `Unset` slot becomes `Pending`
/// when its fetch is configured and `NotConfigured` when not; every other
/// state is left exactly as it was.
pub open spec fn spec_refresh_slot<T>(pre: Slot<T>, configured: bool) -> Slot<T> {
    if pre is Unset {
        if configured {
            Slot::Pending
        } else {
            Slot::NotConfigured
        }
    } else {
        pre
    }
}

/// Whether a refresh pass dispatches the fetch for one slot: exactly when
/// the slot is still `Unset` and the fetch is configured.
pub open spec fn spec_dispatches<T>(pre: Slot<T>, configured: bool) -> bool {
    pre is Unset && configured
}

/// The full effect of one refresh pass on the dashboard.
pub open spec fn spec_refresh(pre: Dashboard, c: AppConfigView, post: Dashboard, plan: RefreshPlan) -> bool {
    &&& post.weather_data == spec_refresh_slot(pre.weather_data, spec_weather_configured(c))
    &&& post.joke == spec_refresh_slot(pre.joke, true)
    &&& post.jp_anniversary == spec_refresh_slot(pre.jp_anniversary, true)
    &&& post.world_holiday == spec_refresh_slot(pre.world_holiday, spec_holiday_configured(c))
    &&& post.tasks == spec_refresh_slot(pre.tasks, spec_tasks_configured(c))
    &&& plan.fetch_weather == spec_dispatches(pre.weather_data, spec_weather_configured(c))
    &&& plan.fetch_joke == spec_dispatches(pre.joke, true)
    &&& plan.fetch_anniversary == spec_dispatches(pre.jp_anniversary, true)
    &&& plan.fetch_holiday == spec_dispatches(pre.world_holiday, spec_holiday_configured(c))
    &&& plan.fetch_tasks == spec_dispatches(pre.tasks, spec_tasks_configured(c))
}

impl Dashboard {
    /// All slots empty: the state at application start.
    pub fn new() -> (d: Dashboard)
        ensures
            d.weather_data is Unset,
            d.joke is Unset,
            d.jp_anniversary is Unset,
            d.world_holiday is Unset,
            d.tasks is Unset,
    {
        Dashboard {
            weather_data: Slot::new(),
            joke: Slot::new(),
            jp_anniversary: Slot::new(),
            world_holiday: Slot::new(),
            tasks: Slot::new(),
        }
    }

    /// One orchestrator pass, run once per presentation frame: for each data
    /// domain, grants a dispatch exactly when the slot is still `Unset` and
    /// the fetch has its credentials, claiming the slot in the same step.
    pub fn refresh(&mut self, config: &AppConfig) -> (plan: RefreshPlan)
        ensures
            spec_refresh(*old(self), config@, *final(self), plan),
    {
        let fetch_weather = if weather_configured(config) {
            self.weather_data.claim()
        } else {
            self.weather_data.mark_not_configured();
            false
        };
        let fetch_joke = self.joke.claim();
        let fetch_anniversary = self.jp_anniversary.claim();
        let fetch_holiday = if holiday_configured(config) {
            self.world_holiday.claim()
        } else {
            self.world_holiday.mark_not_configured();
            false
        };
        let fetch_tasks = if tasks_configured(config) {
            self.tasks.claim()
        } else {
            self.tasks.mark_not_configured();
            false
        };
        RefreshPlan { fetch_weather, fetch_joke, fetch_anniversary, fetch_holiday, fetch_tasks }
    }
}

/// Law: calling the orchestrator while a fetch is in flight dispatches
/// nothing for that slot and leaves it `Pending` — for every one of the five
/// fetch tasks. More generally, any slot that has left `Unset` (pending or
/// settled) is left untouched and gets no new dispatch.
pub proof fn lemma_no_duplicate_dispatch(
    pre: Dashboard,
    c: AppConfigView,
    post: Dashboard,
    plan: RefreshPlan,
)
    requires
        spec_refresh(pre, c, post, plan),
    ensures
        !(pre.weather_data is Unset) ==> !plan.fetch_weather && post.weather_data
            == pre.weather_data,
        !(pre.joke is Unset) ==> !plan.fetch_joke && post.joke == pre.joke,
        !(pre.jp_anniversary is Unset) ==> !plan.fetch_anniversary && post.jp_anniversary
            == pre.jp_anniversary,
        !(pre.world_holiday is Unset) ==> !plan.fetch_holiday && post.world_holiday
            == pre.world_holiday,
        !(pre.tasks is Unset) ==> !plan.fetch_tasks && post.tasks == pre.tasks,
{
}

/// Law: a refresh pass leaves no slot `Unset` — after the first frame every
/// domain is pending, settled, or marked as not configured, so a fetch runs
/// at most once per slot per session.
pub proof fn lemma_refresh_settles_every_slot(
    pre: Dashboard,
    c: AppConfigView,
    post: Dashboard,
    plan: RefreshPlan,
)
    requires
        spec_refresh(pre, c, post, plan),
    ensures
        !(post.weather_data is Unset),
        !(post.joke is Unset),
        !(post.jp_anniversary is Unset),
        !(post.world_holiday is Unset),
        !(post.tasks is Unset),
{
}

} // verus!
