//! Series of readings over the time axis.

use vstd::prelude::*;
use crate::data_farmer::{DataCollection, Metric, TimedData};

verus! {

/// A point of a series: the time in milliseconds, counted back from now and
/// so never above zero, and the reading.
pub type Point<V> = (i64, V);

/// Where a poll taken at `time` stands on the time axis when now is `now`: the
/// whole milliseconds between the two, negated. A poll later than now stands
/// at zero.
pub open spec fn offset_millis(now: u64, time: u64) -> int {
    if now >= time {
        -((now - time) / 1_000_000)
    } else {
        0
    }
}

/// The series of `metric` over `history`, with `now` as the display instant:
/// the polls are walked from the oldest on, each poll that has a reading of
/// the metric gives a point, and the walk ends behind the poll that was taken
/// at `now`.
pub open spec fn series_of<V>(history: Seq<(u64, TimedData<V>)>, metric: Metric, now: u64) -> Seq<
    Point<V>,
>
    decreases history.len(),
{
    if history.len() == 0 {
        Seq::empty()
    } else {
        let head = match history[0].1.reading(metric) {
            Some(value) => seq![(offset_millis(now, history[0].0) as i64, value)],
            None => Seq::empty(),
        };
        if history[0].0 == now {
            head
        } else {
            head + series_of(history.drop_first(), metric, now)
        }
    }
}

/// A series has at most one point for each poll, and no point stands behind
/// now: every time is zero or below.
pub proof fn lemma_series_of_bounds<V>(history: Seq<(u64, TimedData<V>)>, metric: Metric, now: u64)
    ensures
        series_of(history, metric, now).len() <= history.len(),
        forall|i: int|
            0 <= i < series_of(history, metric, now).len() ==> (#[trigger] series_of(
                history,
                metric,
                now,
            )[i]).0 <= 0,
    decreases history.len(),
{
    if history.len() > 0 {
        lemma_series_of_bounds(history.drop_first(), metric, now);
    }
}

/// A history without polls gives an empty series, and so does a history in
/// which no poll has a reading of the metric.
pub proof fn lemma_series_of_nothing<V>(history: Seq<(u64, TimedData<V>)>, metric: Metric, now: u64)
    requires
        forall|i: int| 0 <= i < history.len() ==> (#[trigger] history[i]).1.reading(metric) is None,
    ensures
        series_of(history, metric, now).len() == 0,
    decreases history.len(),
{
    if history.len() > 0 {
        let rest = history.drop_first();
        assert forall|i: int| 0 <= i < rest.len() implies (#[trigger] rest[i]).1.reading(
            metric,
        ) is None by {
            assert(rest[i] == history[i + 1]);
        }
        lemma_series_of_nothing(rest, metric, now);
    }
}

/// Where a poll taken at `time` stands on the time axis when now is `now`.
pub fn get_offset_millis(now: u64, time: u64) -> (offset: i64)
    ensures
        offset == offset_millis(now, time),
        offset <= 0,
{
    let since: u64 = now.saturating_sub(time) / 1_000_000;
    -(since as i64)
}

/// The series of `metric` over the history of `current_data`.
pub fn collect_series<V: Copy>(current_data: &DataCollection<V>, metric: Metric) -> (series: Vec<
    Point<V>,
>)
    ensures
        series@ == series_of(
            current_data.timed_data_vec@,
            metric,
            current_data.display_instant(),
        ),
        series@.len() <= current_data.timed_data_vec@.len(),
        forall|i: int| 0 <= i < series@.len() ==> (#[trigger] series@[i]).0 <= 0,
{
    proof {
        lemma_series_of_bounds(
            current_data.timed_data_vec@,
            metric,
            current_data.display_instant(),
        );
    }
    let mut result: Vec<Point<V>> = Vec::new();
    let current_time: u64 = current_data.get_display_instant();
    let ghost history = current_data.timed_data_vec@;
    let n: usize = current_data.timed_data_vec.len();
    let mut i: usize = 0;
    let mut done: bool = false;
    proof {
        assert(history.skip(0) =~= history);
    }
    while i < n && !done
        invariant
            i <= n,
            n == history.len(),
            history == current_data.timed_data_vec@,
            current_time == current_data.display_instant(),
            done ==> result@ == series_of(history, metric, current_time),
            !done ==> series_of(history, metric, current_time) == result@ + series_of(
                history.skip(i as int),
                metric,
                current_time,
            ),
        decreases n - i, (if done { 0int } else { 1int }),
    {
        let entry = &current_data.timed_data_vec[i];
        let ghost before = result@;
        proof {
            assert(history.skip(i as int)[0] == history[i as int]);
            assert(history.skip(i as int).drop_first() =~= history.skip(i + 1));
        }
        if let Some(value) = entry.1.get_reading(metric) {
            result.push((get_offset_millis(current_time, entry.0), value));
        }
        if entry.0 == current_time {
            done = true;
            proof {
                let rest = series_of(history.skip(i as int), metric, current_time);
                assert(result@ =~= before + rest);
            }
        } else {
            proof {
                assert(result@ + series_of(history.skip(i + 1), metric, current_time) =~= before
                    + series_of(history.skip(i as int), metric, current_time));
            }
            i += 1;
        }
    }
    proof {
        if !done {
            assert(history.skip(n as int) =~= Seq::empty());
            assert(result@ + Seq::<Point<V>>::empty() =~= result@);
        }
    }
    result
}

} // verus!
