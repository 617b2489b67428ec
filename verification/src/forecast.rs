//! Forecast events, the forecast store, and the rain-window query over the
//! most recent batch.

use vstd::prelude::*;
use vstd::string::*;

use crate::errors::StoreError;

verus! {

/// One ingested forecast event. All events of one fetch share one
/// `batch_time`; only events of the greatest `batch_time` present count as
/// current.
pub struct ForecastEvent {
    /// Unix seconds at which the batch holding this event was fetched.
    pub batch_time: i64,
    /// Unix seconds of the predicted moment.
    pub forecast_time: i64,
    pub country: String,
    pub city: String,
    /// Short weather category, such as "Rain" or "Clouds".
    pub weather: String,
    /// Free-text description of the predicted weather.
    pub description: String,
}

/// Mathematical image of a forecast event.
pub struct ForecastEventView {
    pub batch_time: int,
    pub forecast_time: int,
    pub country: Seq<char>,
    pub city: Seq<char>,
    pub weather: Seq<char>,
    pub description: Seq<char>,
}

impl View for ForecastEvent {
    type V = ForecastEventView;

    open spec fn view(&self) -> ForecastEventView {
        ForecastEventView {
            batch_time: self.batch_time as int,
            forecast_time: self.forecast_time as int,
            country: self.country@,
            city: self.city@,
            weather: self.weather@,
            description: self.description@,
        }
    }
}

/// The four letters of "rain" stand at position `i` of `s`, in either case.
pub open spec fn rain_at(s: Seq<char>, i: int) -> bool {
    &&& 0 <= i
    &&& i + 4 <= s.len()
    &&& (s[i] == 'r' || s[i] == 'R')
    &&& (s[i + 1] == 'a' || s[i + 1] == 'A')
    &&& (s[i + 2] == 'i' || s[i + 2] == 'I')
    &&& (s[i + 3] == 'n' || s[i + 3] == 'N')
}

/// Case-insensitive substring match of "rain", as the rain query applies it
/// to the weather category.
pub open spec fn mentions_rain(s: Seq<char>) -> bool {
    exists|i: int| rain_at(s, i)
}

/// Whether `s` holds "rain" as a substring, ignoring the letters' case.
pub fn contains_rain(s: &str) -> (r: bool)
    ensures
        r == mentions_rain(s@),
{
    let n = s.unicode_len();
    if n < 4 {
        return false;
    }
    let mut i: usize = 0;
    while i <= n - 4
        invariant
            n == s@.len(),
            4 <= n,
            i <= n - 3,
            forall|j: int| 0 <= j < i ==> !rain_at(s@, j),
        decreases n - i,
    {
        let c0 = s.get_char(i);
        let c1 = s.get_char(i + 1);
        let c2 = s.get_char(i + 2);
        let c3 = s.get_char(i + 3);
        if (c0 == 'r' || c0 == 'R') && (c1 == 'a' || c1 == 'A') && (c2 == 'i' || c2 == 'I') && (c3
            == 'n' || c3 == 'N') {
            proof {
                assert(rain_at(s@, i as int));
            }
            return true;
        }
        i += 1;
    }
    proof {
        assert forall|j: int| !rain_at(s@, j) by {
            if 0 <= j < i {
            } else if j >= i {
                assert(j + 4 > n);
            }
        }
    }
    false
}

/// `e` belongs to the current batch of `events`: no stored event has a
/// greater `batch_time`.
pub open spec fn in_current_batch(events: Seq<ForecastEventView>, e: ForecastEventView) -> bool {
    forall|j: int| 0 <= j < events.len() ==> (#[trigger] events[j]).batch_time <= e.batch_time
}

/// The event at position `k` of `events` belongs to the current batch,
/// predicts a moment inside `[window_start, window_end]`, and its weather
/// category mentions rain.
pub open spec fn rain_candidate(
    events: Seq<ForecastEventView>,
    k: int,
    window_start: int,
    window_end: int,
) -> bool {
    &&& in_current_batch(events, events[k])
    &&& window_start <= events[k].forecast_time <= window_end
    &&& mentions_rain(events[k].weather)
}

/// Some event of the current batch predicts a moment inside
/// `[window_start, window_end]` with a weather category that mentions rain.
/// With no events at all this is false: absence of data never blocks
/// watering.
pub open spec fn rain_expected_spec(
    events: Seq<ForecastEventView>,
    window_start: int,
    window_end: int,
) -> bool {
    exists|k: int| 0 <= k < events.len() && rain_candidate(events, k, window_start, window_end)
}

/// A well-formed batch: all events share one `batch_time` and their
/// `forecast_time` values are distinct and ascending.
pub open spec fn batch_wf(events: Seq<ForecastEventView>) -> bool {
    &&& forall|i: int, j: int|
        0 <= i < events.len() && 0 <= j < events.len() ==> (#[trigger] events[i]).batch_time == (
        #[trigger] events[j]).batch_time
    &&& forall|i: int, j: int|
        0 <= i < j < events.len() ==> (#[trigger] events[i]).forecast_time < (
        #[trigger] events[j]).forecast_time
}

/// Strictly ascending `forecast_time` between neighbours extends to every
/// earlier-later pair of the batch.
proof fn lemma_forecast_times_ascend(events: Seq<ForecastEventView>, i: int, j: int)
    requires
        forall|k: int|
            0 <= k < events.len() - 1 ==> (#[trigger] events[k]).forecast_time < events[k
                + 1].forecast_time,
        0 <= i < j < events.len(),
    ensures
        events[i].forecast_time < events[j].forecast_time,
    decreases j - i,
{
    if i + 1 < j {
        lemma_forecast_times_ascend(events, i, j - 1);
    }
}

/// Whether `events` form a well-formed batch: one shared `batch_time` and
/// distinct, ascending `forecast_time` values.
pub fn batch_is_wf(events: &Vec<ForecastEvent>) -> (r: bool)
    ensures
        r == batch_wf(events@.map_values(|e: ForecastEvent| e@)),
{
    let ghost view = events@.map_values(|e: ForecastEvent| e@);
    let mut i: usize = 1;
    while i < events.len()
        invariant
            1 <= i || events@.len() == 0,
            i <= events@.len() || events@.len() == 0,
            view == events@.map_values(|e: ForecastEvent| e@),
            view.len() == events@.len(),
            forall|j: int| 0 <= j < i ==> (#[trigger] view[j]).batch_time == view[0].batch_time,
            forall|j: int|
                0 <= j < i - 1 ==> (#[trigger] view[j]).forecast_time < view[j + 1].forecast_time,
        decreases events@.len() - i,
    {
        if events[i].batch_time != events[0].batch_time {
            proof {
                assert(view[i as int].batch_time != view[0].batch_time);
            }
            return false;
        }
        if events[i - 1].forecast_time >= events[i].forecast_time {
            proof {
                assert(view[i - 1].forecast_time >= view[i as int].forecast_time);
            }
            return false;
        }
        i += 1;
    }
    proof {
        if events@.len() > 0 {
            assert forall|a: int, b: int|
                0 <= a < view.len() && 0 <= b < view.len() implies (#[trigger] view[a]).batch_time
                == (#[trigger] view[b]).batch_time by {
                assert(view[a].batch_time == view[0].batch_time);
                assert(view[b].batch_time == view[0].batch_time);
            }
            assert forall|a: int, b: int|
                0 <= a < b < view.len() implies (#[trigger] view[a]).forecast_time < (
            #[trigger] view[b]).forecast_time by {
                lemma_forecast_times_ascend(view, a, b);
            }
        }
    }
    true
}

/// Append-only store of forecast events, answering "will it rain inside a
/// window according to the latest batch".
pub struct ForecastStore {
    events: Vec<ForecastEvent>,
}

impl View for ForecastStore {
    type V = Seq<ForecastEventView>;

    closed spec fn view(&self) -> Seq<ForecastEventView> {
        self.events@.map_values(|e: ForecastEvent| e@)
    }
}

impl ForecastStore {
    /// An empty store.
    pub fn new() -> (store: ForecastStore)
        ensures
            store@ == Seq::<ForecastEventView>::empty(),
    {
        let store = ForecastStore { events: Vec::new() };
        proof {
            assert(store@ =~= Seq::<ForecastEventView>::empty());
        }
        store
    }

    /// Persists all events of one fetch, after rejecting a batch that does
    /// not share one `batch_time` or whose `forecast_time` values are not
    /// distinct and ascending. Each event is written independently: in this
    /// store the writes cannot fail partway, but a caller must not rely on
    /// a batch being all-or-nothing; a later complete batch supersedes a
    /// partial one through the greatest-`batch_time` rule.
    pub fn record_batch(&mut self, events: Vec<ForecastEvent>) -> (r: Result<(), StoreError>)
        ensures
            batch_wf(events@.map_values(|e: ForecastEvent| e@)) ==> {
                &&& r == Ok::<(), StoreError>(())
                &&& final(self)@ == old(self)@ + events@.map_values(|e: ForecastEvent| e@)
            },
            !batch_wf(events@.map_values(|e: ForecastEvent| e@)) ==> {
                &&& r == Err::<(), StoreError>(StoreError::ValidationError)
                &&& final(self)@ == old(self)@
            },
    {
        if !batch_is_wf(&events) {
            return Err(StoreError::ValidationError);
        }
        let ghost whole = events@;
        let mut events = events;
        self.events.append(&mut events);
        proof {
            assert(self@ =~= old(self)@ + whole.map_values(|e: ForecastEvent| e@));
        }
        Ok(())
    }

    /// Whether rain is expected inside `[window_start, window_end]`
    /// according to the current batch. With no data at all the answer is
    /// `Ok(false)`: absence of forecasts never blocks watering.
    pub fn rain_expected(&self, window_start: i64, window_end: i64) -> (r: Result<
        bool,
        StoreError,
    >)
        ensures
            r == Ok::<bool, StoreError>(
                rain_expected_spec(self@, window_start as int, window_end as int),
            ),
    {
        if self.events.len() == 0 {
            return Ok(false);
        }
        let mut max_batch: i64 = self.events[0].batch_time;
        proof {
            assert((self@[0]).batch_time == max_batch as int);
        }
        let mut i: usize = 1;
        while i < self.events.len()
            invariant
                1 <= i <= self@.len(),
                self@.len() == self.events@.len(),
                exists|m: int| 0 <= m < i && (#[trigger] self@[m]).batch_time == max_batch as int,
                forall|j: int| 0 <= j < i ==> (#[trigger] self@[j]).batch_time <= max_batch as int,
            decreases self@.len() - i,
        {
            if self.events[i].batch_time > max_batch {
                max_batch = self.events[i].batch_time;
                proof {
                    assert((self@[i as int]).batch_time == max_batch as int);
                }
            }
            i += 1;
        }
        let mut k: usize = 0;
        while k < self.events.len()
            invariant
                k <= self@.len(),
                self@.len() == self.events@.len(),
                exists|m: int|
                    0 <= m < self@.len() && (#[trigger] self@[m]).batch_time == max_batch as int,
                forall|j: int|
                    0 <= j < self@.len() ==> (#[trigger] self@[j]).batch_time <= max_batch as int,
                forall|j: int|
                    0 <= j < k ==> !((#[trigger] self@[j]).batch_time == max_batch as int
                        && window_start as int <= self@[j].forecast_time <= window_end as int
                        && mentions_rain(self@[j].weather)),
            decreases self@.len() - k,
        {
            let e = &self.events[k];
            if e.batch_time == max_batch && window_start <= e.forecast_time && e.forecast_time
                <= window_end {
                if contains_rain(e.weather.as_str()) {
                    proof {
                        assert(in_current_batch(self@, self@[k as int]));
                        assert(rain_candidate(
                            self@,
                            k as int,
                            window_start as int,
                            window_end as int,
                        ));
                    }
                    return Ok(true);
                }
            }
            k += 1;
        }
        proof {
            assert forall|j: int|
                0 <= j < self@.len() implies !rain_candidate(
                self@,
                j,
                window_start as int,
                window_end as int,
            ) by {
                if in_current_batch(self@, self@[j]) {
                    let m = choose|m: int|
                        0 <= m < self@.len() && (#[trigger] self@[m]).batch_time
                            == max_batch as int;
                    assert(self@[j].batch_time >= self@[m].batch_time);
                }
            }
        }
        Ok(false)
    }
}

/// Batch superseding: once a batch with a greater `batch_time` than
/// everything stored is appended, the rain query is decided by the new
/// batch alone, and events of the older batches no longer count.
pub proof fn lemma_batch_supersedes(
    stale: Seq<ForecastEventView>,
    batch: Seq<ForecastEventView>,
    window_start: int,
    window_end: int,
)
    requires
        batch.len() > 0,
        forall|i: int|
            0 <= i < batch.len() ==> (#[trigger] batch[i]).batch_time == batch[0].batch_time,
        forall|i: int|
            0 <= i < stale.len() ==> (#[trigger] stale[i]).batch_time < batch[0].batch_time,
    ensures
        rain_expected_spec(stale + batch, window_start, window_end) == rain_expected_spec(
            batch,
            window_start,
            window_end,
        ),
{
    let whole = stale + batch;
    let b = batch[0].batch_time;
    assert(whole[stale.len() as int] == batch[0]);
    if rain_expected_spec(whole, window_start, window_end) {
        let k = choose|k: int|
            0 <= k < whole.len() && rain_candidate(whole, k, window_start, window_end);
        assert(whole[k].batch_time >= b);
        assert(k >= stale.len());
        let k2 = k - stale.len();
        assert(batch[k2] == whole[k]);
        assert(in_current_batch(batch, batch[k2]));
        assert(rain_candidate(batch, k2, window_start, window_end));
    }
    if rain_expected_spec(batch, window_start, window_end) {
        let k2 = choose|k2: int|
            0 <= k2 < batch.len() && rain_candidate(batch, k2, window_start, window_end);
        let k = k2 + stale.len();
        assert(whole[k] == batch[k2]);
        assert(batch[k2].batch_time == b);
        assert forall|j: int| 0 <= j < whole.len() implies (#[trigger] whole[j]).batch_time
            <= whole[k].batch_time by {
            if j < stale.len() {
                assert(whole[j] == stale[j]);
            } else {
                assert(whole[j] == batch[j - stale.len()]);
            }
        }
        assert(in_current_batch(whole, whole[k]));
        assert(rain_candidate(whole, k, window_start, window_end));
    }
}

} // verus!
