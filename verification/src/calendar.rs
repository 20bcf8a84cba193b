//! The calendar: its settings, the cache of upcoming events, which events
//! are happening now, and the decisions of the refresh and polling cycles.

use vstd::prelude::*;
use crate::clock::now_unix_seconds;

verus! {

broadcast use Seq::lemma_filter_push;

/// One event of the subscribed ICS calendar.
#[derive(Debug, Clone)]
pub struct CalendarEvent {
    /// The event's ICS `UID`.
    pub uid: String,
    /// The event's title.
    pub summary: String,
    /// Start, in seconds since the Unix epoch.
    pub start: i64,
    /// End, in seconds since the Unix epoch.
    pub end: i64,
}

/// Calendar settings.
#[derive(Debug, Clone)]
pub struct CalendarConfig {
    /// The ICS feed to poll, once one is configured.
    pub ics_url: Option<String>,
    /// Whether recording starts by itself when a calendar event begins.
    pub auto_record_enabled: bool,
    /// Minutes between two polls of the feed.
    pub poll_interval_minutes: u64,
    /// Seconds before an event's start from which it counts as happening.
    pub pre_meeting_buffer_seconds: i64,
    /// Seconds after an event's end until which it still counts as happening.
    pub post_meeting_buffer_seconds: i64,
}

/// An event is happening at `now` when `now` lies in its time span widened
/// by `pre` seconds before and `post` seconds after (both ends included).
pub open spec fn spec_is_active_at(e: CalendarEvent, now: int, pre: int, post: int) -> bool {
    e.start - pre <= now <= e.end + post
}

/// The events happening at `now` under the given buffers.
pub open spec fn active_at(now: int, pre: int, post: int) -> spec_fn(CalendarEvent) -> bool {
    |e: CalendarEvent| spec_is_active_at(e, now, pre, post)
}

impl CalendarEvent {
    /// A copy of the event.
    pub fn duplicate(&self) -> (r: CalendarEvent)
        ensures
            r == *self,
    {
        CalendarEvent {
            uid: self.uid.clone(),
            summary: self.summary.clone(),
            start: self.start,
            end: self.end,
        }
    }

    /// Whether the event is happening at `now`, with `pre` seconds of lead
    /// time and `post` seconds of overrun.
    pub fn is_active_at(&self, now: i64, pre: i64, post: i64) -> (active: bool)
        ensures
            active == spec_is_active_at(*self, now as int, pre as int, post as int),
    {
        let now = now as i128;
        (self.start as i128) - (pre as i128) <= now && now <= (self.end as i128) + (post as i128)
    }
}

/// Sets the ICS feed to poll.
pub fn set_calendar_url(config: &mut CalendarConfig, url: String)
    ensures
        *final(config) == (CalendarConfig { ics_url: Some(url), ..*old(config) }),
{
    config.ics_url = Some(url);
}

/// Turns recording on calendar events on or off.
pub fn set_auto_record(config: &mut CalendarConfig, enabled: bool)
    ensures
        *final(config) == (CalendarConfig { auto_record_enabled: enabled, ..*old(config) }),
{
    config.auto_record_enabled = enabled;
}

/// The cached events that are happening at `now`, in cache order, under the
/// configured buffers.
pub fn get_active_events_at(
    events: &Vec<CalendarEvent>,
    config: &CalendarConfig,
    now: i64,
) -> (active: Vec<CalendarEvent>)
    ensures
        active@ == events@.filter(
            active_at(
                now as int,
                config.pre_meeting_buffer_seconds as int,
                config.post_meeting_buffer_seconds as int,
            ),
        ),
{
    let pre = config.pre_meeting_buffer_seconds;
    let post = config.post_meeting_buffer_seconds;
    let ghost p = active_at(now as int, pre as int, post as int);
    let mut active: Vec<CalendarEvent> = Vec::new();
    let n = events.len();
    let mut i: usize = 0;
    while i < n
        invariant
            n == events.len(),
            i <= n,
            p == active_at(now as int, pre as int, post as int),
            active@ == events@.take(i as int).filter(p),
        decreases n - i,
    {
        let e = &events[i];
        assert(events@.take(i + 1) =~= events@.take(i as int).push(*e));
        if e.is_active_at(now, pre, post) {
            active.push(e.duplicate());
        }
        i += 1;
    }
    assert(events@.take(n as int) =~= events@);
    active
}

/// The cached events that are happening now, by the system clock (a reading
/// at or after the Unix epoch); see [`get_active_events_at`].
pub fn get_active_events(events: &Vec<CalendarEvent>, config: &CalendarConfig) -> (active: Vec<
    CalendarEvent,
>)
    ensures
        exists|now: i64|
            now >= 0 && active@ == events@.filter(
                #[trigger] active_at(
                    now as int,
                    config.pre_meeting_buffer_seconds as int,
                    config.post_meeting_buffer_seconds as int,
                ),
            ),
{
    let now = now_unix_seconds();
    get_active_events_at(events, config, now)
}

/// The feed to fetch on a manual refresh, or the error "No calendar URL
/// configured" when none is set.
pub fn calendar_refresh_url(config: &CalendarConfig) -> (url: Result<String, String>)
    ensures
        match config.ics_url {
            Some(u) => url == Ok::<String, String>(u),
            None => url matches Err(msg) && msg@ == "No calendar URL configured"@,
        },
{
    match &config.ics_url {
        Some(u) => Ok(u.clone()),
        None => Err(String::from_str("No calendar URL configured")),
    }
}

/// Finishes a manual refresh with what the fetch gave: fetched events
/// replace the cache and their number is returned; a fetch error is passed
/// on and the cache stays as it was.
pub fn store_refreshed_events(
    events: &mut Vec<CalendarEvent>,
    fetched: Result<Vec<CalendarEvent>, String>,
) -> (result: Result<usize, String>)
    ensures
        match fetched {
            Ok(new_events) => {
                &&& final(events)@ == new_events@
                &&& result == Ok::<usize, String>(new_events.len())
            },
            Err(e) => {
                &&& final(events)@ == old(events)@
                &&& result == Err::<usize, String>(e)
            },
        },
{
    match fetched {
        Ok(new_events) => {
            let count = new_events.len();
            *events = new_events;
            Ok(count)
        },
        Err(e) => Err(e),
    }
}

/// What one cycle of the background poller does: fetch the feed when one
/// is configured, then sleep for the poll interval.
#[derive(Debug)]
pub struct PollPlan {
    pub fetch_url: Option<String>,
    pub sleep_seconds: u64,
}

/// The plan of one polling cycle for the given settings.
pub fn plan_calendar_poll(config: &CalendarConfig) -> (plan: PollPlan)
    requires
        config.poll_interval_minutes * 60 <= u64::MAX,
    ensures
        plan.fetch_url == config.ics_url,
        plan.sleep_seconds == config.poll_interval_minutes * 60,
{
    let fetch_url = match &config.ics_url {
        Some(u) => Some(u.clone()),
        None => None,
    };
    PollPlan { fetch_url, sleep_seconds: config.poll_interval_minutes * 60 }
}

/// What a polling cycle reports after its fetch.
#[derive(Debug)]
pub enum SyncOutcome {
    /// The cache now holds this many events.
    Loaded(usize),
    /// The fetch failed with this message; the cache was kept.
    Failed(String),
}

/// Applies the result of a poller's fetch to the cache.
pub fn apply_calendar_sync(
    events: &mut Vec<CalendarEvent>,
    fetched: Result<Vec<CalendarEvent>, String>,
) -> (outcome: SyncOutcome)
    ensures
        match fetched {
            Ok(new_events) => {
                &&& final(events)@ == new_events@
                &&& outcome == SyncOutcome::Loaded(new_events.len())
            },
            Err(e) => {
                &&& final(events)@ == old(events)@
                &&& outcome == SyncOutcome::Failed(e)
            },
        },
{
    match fetched {
        Ok(new_events) => {
            let count = new_events.len();
            *events = new_events;
            SyncOutcome::Loaded(count)
        },
        Err(e) => SyncOutcome::Failed(e),
    }
}

/// Widening the buffers never makes a happening event stop happening.
pub proof fn lemma_wider_buffers_keep_events_active(
    e: CalendarEvent,
    now: int,
    pre: int,
    post: int,
    wider_pre: int,
    wider_post: int,
)
    requires
        pre <= wider_pre,
        post <= wider_post,
        spec_is_active_at(e, now, pre, post),
    ensures
        spec_is_active_at(e, now, wider_pre, wider_post),
{
}

/// Every event reported as happening comes from the cache and is happening.
pub proof fn lemma_active_events_are_cached_and_active(
    events: Seq<CalendarEvent>,
    now: int,
    pre: int,
    post: int,
    i: int,
)
    requires
        0 <= i < events.filter(active_at(now, pre, post)).len(),
    ensures
        events.contains(events.filter(active_at(now, pre, post))[i]),
        spec_is_active_at(events.filter(active_at(now, pre, post))[i], now, pre, post),
{
    let f = events.filter(active_at(now, pre, post));
    events.lemma_filter_pred(active_at(now, pre, post), i);
    assert(f.contains(f[i]));
    events.lemma_filter_contains_rev(active_at(now, pre, post), f[i]);
}

/// Every cached event that is happening is reported.
pub proof fn lemma_active_events_are_complete(
    events: Seq<CalendarEvent>,
    now: int,
    pre: int,
    post: int,
    i: int,
)
    requires
        0 <= i < events.len(),
        spec_is_active_at(events[i], now, pre, post),
    ensures
        events.filter(active_at(now, pre, post)).contains(events[i]),
{
    assert(active_at(now, pre, post)(events[i]));
    events.lemma_filter_contains(active_at(now, pre, post), i);
}

} // verus!
