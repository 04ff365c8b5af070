//! The streak calculator: how many consecutive qualifying days end at a
//! reference instant, given the completion log newest first.

use vstd::prelude::*;
use crate::frequency::StreakFrequency;
use crate::moment::{
    days_between, instant_nanos, weekday_of, Moment, FRIDAY, MONDAY, NANOS_PER_DAY, SATURDAY, SUNDAY,
};

verus! {

/// Whether the gap from `earlier` to `later` is a weekend that a weekdays
/// habit may skip: three days from Friday to Monday, or two days from
/// Friday to Sunday or from Saturday to Monday.
pub open spec fn excused_gap(earlier: Moment, later: Moment) -> bool {
    let span = days_between(later, earlier);
    let we = weekday_of(earlier);
    let wl = weekday_of(later);
    ||| span == 3 && we == FRIDAY && wl == MONDAY
    ||| span == 2 && we == FRIDAY && wl == SUNDAY
    ||| span == 2 && we == SATURDAY && wl == MONDAY
}

/// The walk over `history` (newest first) from `cursor`, the oldest day
/// still in the streak, with `count` days counted so far.
///
/// An event less than a day before the cursor is the cursor's own day: it
/// starts the count and moves the cursor if nothing was counted yet, and
/// is ignored otherwise. An event one day before extends the streak and
/// becomes the cursor. A longer gap ends the walk, unless the policy is
/// `weekdays` and the gap is an excused weekend: then the event is passed
/// over and the cursor stays where it was.
pub open spec fn streak_from(
    history: Seq<Moment>,
    cursor: Moment,
    count: int,
    policy: StreakFrequency,
) -> int
    decreases history.len(),
{
    if history.len() == 0 {
        count
    } else {
        let event = history[0];
        let rest = history.drop_first();
        let gap = days_between(cursor, event);
        if gap == 0 {
            if count == 0 {
                streak_from(rest, event, 1, policy)
            } else {
                streak_from(rest, cursor, count, policy)
            }
        } else if gap == 1 {
            streak_from(rest, event, count + 1, policy)
        } else if policy == StreakFrequency::weekdays && excused_gap(event, cursor) {
            streak_from(rest, cursor, count, policy)
        } else {
            count
        }
    }
}

/// The streak of `history` (newest first) at `reference` under `policy`.
pub open spec fn streak_count(history: Seq<Moment>, reference: Moment, policy: StreakFrequency) -> int {
    streak_from(history, reference, 0, policy)
}

/// Whether the gap from `t1` to the later `t2` is a weekend that a
/// weekdays habit may skip.
pub fn is_skipping_weekend(t1: Moment, t2: Moment) -> (r: bool)
    ensures
        r == excused_gap(t1, t2),
{
    let span = t2.days_since(&t1);
    let w1 = t1.weekday();
    let w2 = t2.weekday();
    if span == 3 && w1 == FRIDAY && w2 == MONDAY {
        return true;
    }
    if span == 2 && w1 == FRIDAY && w2 == SUNDAY {
        return true;
    }
    if span == 2 && w1 == SATURDAY && w2 == MONDAY {
        return true;
    }
    false
}

proof fn lemma_streak_from_bounded(history: Seq<Moment>, cursor: Moment, count: int, policy: StreakFrequency)
    requires
        count >= 0,
    ensures
        count <= streak_from(history, cursor, count, policy) <= count + history.len(),
    decreases history.len(),
{
    if history.len() > 0 {
        lemma_streak_from_bounded(history.drop_first(), history[0], 1, policy);
        lemma_streak_from_bounded(history.drop_first(), history[0], count + 1, policy);
        lemma_streak_from_bounded(history.drop_first(), cursor, count, policy);
    }
}

/// The number of consecutive qualifying days that end at
/// `current_timestamp`, read from `timestamps`, the completion instants
/// newest first. The walk relies on that order and does not check it.
pub fn calculate_streak_count(
    timestamps: Vec<Moment>,
    current_timestamp: Moment,
    streak_frequency: StreakFrequency,
) -> (r: usize)
    ensures
        r == streak_count(timestamps@, current_timestamp, streak_frequency),
        timestamps@.len() == 0 ==> r == 0,
        r <= timestamps@.len(),
{
    if timestamps.len() == 0 {
        return 0;
    }
    let mut cursor = current_timestamp;
    let mut count: usize = 0;
    let mut i: usize = 0;
    assert(timestamps@.subrange(0, timestamps@.len() as int) =~= timestamps@);
    while i < timestamps.len()
        invariant
            i <= timestamps@.len(),
            count <= i,
            streak_from(timestamps@.subrange(i as int, timestamps@.len() as int), cursor, count as int, streak_frequency)
                == streak_count(timestamps@, current_timestamp, streak_frequency),
        ensures
            count == streak_count(timestamps@, current_timestamp, streak_frequency),
        decreases timestamps@.len() - i,
    {
        let ts = timestamps[i];
        let ghost rest = timestamps@.subrange(i as int, timestamps@.len() as int);
        assert(rest.drop_first() =~= timestamps@.subrange(i + 1, timestamps@.len() as int));
        let gap = cursor.days_since(&ts);
        if gap == 0 {
            if count == 0 {
                count = 1;
                cursor = ts;
            }
        } else if gap == 1 {
            count = count + 1;
            cursor = ts;
        } else if streak_frequency == StreakFrequency::weekdays && is_skipping_weekend(ts, cursor) {
            // An excused weekend: pass the event over and keep the cursor.
        } else {
            break;
        }
        i = i + 1;
        proof {
            if i == timestamps@.len() {
                assert(timestamps@.subrange(i as int, timestamps@.len() as int) =~= Seq::<Moment>::empty());
            }
        }
    }
    proof {
        lemma_streak_from_bounded(timestamps@, current_timestamp, 0, streak_frequency);
    }
    count
}

/// An empty history has no streak, under either policy.
pub proof fn lemma_empty_history(reference: Moment, policy: StreakFrequency)
    ensures
        streak_count(Seq::empty(), reference, policy) == 0,
{
}

/// A history that holds only the reference instant is a streak of one day.
pub proof fn lemma_reference_alone(reference: Moment, policy: StreakFrequency)
    ensures
        streak_count(seq![reference], reference, policy) == 1,
{
    reveal_with_fuel(streak_from, 2);
    assert(seq![reference].drop_first() =~= Seq::<Moment>::empty());
    assert(days_between(reference, reference) == 0);
}

proof fn lemma_chain_steps(history: Seq<Moment>, j: int, k: int, policy: StreakFrequency)
    requires
        1 <= j <= k <= history.len(),
        forall|i: int|
            1 <= i < k ==> #[trigger] instant_nanos(history[i]) == instant_nanos(history[i - 1])
                - NANOS_PER_DAY,
    ensures
        streak_from(history.subrange(j, history.len() as int), history[j - 1], j, policy)
            == streak_from(history.subrange(k, history.len() as int), history[k - 1], k, policy),
    decreases k - j,
{
    if j < k {
        let rest = history.subrange(j, history.len() as int);
        assert(rest[0] == history[j]);
        assert(rest.drop_first() =~= history.subrange(j + 1, history.len() as int));
        assert(instant_nanos(history[j]) == instant_nanos(history[j - 1]) - NANOS_PER_DAY);
        assert(days_between(history[j - 1], history[j]) == 1);
        lemma_chain_steps(history, j + 1, k, policy);
    }
}

/// Completions exactly one day apart, the newest at the reference instant,
/// count one day each: a chain of `k` such completions is a streak of `k`
/// when nothing older follows, and also when the next older completion
/// lies a gap other than zero or one day back that the policy does not
/// excuse.
pub proof fn lemma_daily_chain(history: Seq<Moment>, reference: Moment, k: int, policy: StreakFrequency)
    requires
        1 <= k <= history.len(),
        forall|i: int|
            0 <= i < k ==> #[trigger] instant_nanos(history[i]) == instant_nanos(reference) - i
                * NANOS_PER_DAY,
    ensures
        k == history.len() ==> streak_count(history, reference, policy) == k,
        k < history.len() && days_between(history[k - 1], history[k]) != 0 && days_between(
            history[k - 1],
            history[k],
        ) != 1 && !(policy == StreakFrequency::weekdays && excused_gap(history[k], history[k - 1]))
            ==> streak_count(history, reference, policy) == k,
{
    assert(instant_nanos(history[0]) == instant_nanos(reference) - 0 * NANOS_PER_DAY);
    assert(days_between(reference, history[0]) == 0);
    assert(history.drop_first() =~= history.subrange(1, history.len() as int));
    assert forall|i: int| 1 <= i < k implies #[trigger] instant_nanos(history[i]) == instant_nanos(
        history[i - 1],
    ) - NANOS_PER_DAY by {
        assert(instant_nanos(history[i]) == instant_nanos(reference) - i * NANOS_PER_DAY);
        assert(instant_nanos(history[i - 1]) == instant_nanos(reference) - (i - 1) * NANOS_PER_DAY);
        assert(i * NANOS_PER_DAY == (i - 1) * NANOS_PER_DAY + NANOS_PER_DAY) by (nonlinear_arith);
    }
    lemma_chain_steps(history, 1, k, policy);
    let tail = history.subrange(k, history.len() as int);
    if k == history.len() {
        assert(tail =~= Seq::<Moment>::empty());
    } else {
        assert(tail[0] == history[k]);
    }
}

/// A single completion two or more whole days before the reference instant
/// is no streak.
pub proof fn lemma_lone_old_event(event: Moment, reference: Moment, policy: StreakFrequency)
    requires
        instant_nanos(reference) - instant_nanos(event) >= 2 * NANOS_PER_DAY,
    ensures
        streak_count(seq![event], reference, policy) == 0,
{
    reveal_with_fuel(streak_from, 2);
    assert(seq![event].drop_first() =~= Seq::<Moment>::empty());
    assert(days_between(reference, event) >= 2);
}

/// Under `weekdays`, a completion that follows the cursor by an excused
/// weekend is passed over: neither the count nor the cursor moves.
pub proof fn lemma_weekend_gap_passed_over(history: Seq<Moment>, cursor: Moment, count: int)
    requires
        history.len() > 0,
        excused_gap(history[0], cursor),
    ensures
        streak_from(history, cursor, count, StreakFrequency::weekdays) == streak_from(
            history.drop_first(),
            cursor,
            count,
            StreakFrequency::weekdays,
        ),
{
}

/// Any gap of other than zero or one day that is not an excused weekend
/// ends the walk, under `weekdays` exactly as under `alldays`.
pub proof fn lemma_other_gap_ends_streak(history: Seq<Moment>, cursor: Moment, count: int)
    requires
        history.len() > 0,
        days_between(cursor, history[0]) != 0,
        days_between(cursor, history[0]) != 1,
        !excused_gap(history[0], cursor),
    ensures
        streak_from(history, cursor, count, StreakFrequency::weekdays) == count,
        streak_from(history, cursor, count, StreakFrequency::alldays) == count,
{
}

/// The count depends on the history, the reference instant and the policy
/// alone: equal arguments give equal counts.
pub proof fn lemma_same_arguments_same_count(
    h1: Seq<Moment>,
    h2: Seq<Moment>,
    r1: Moment,
    r2: Moment,
    p1: StreakFrequency,
    p2: StreakFrequency,
)
    requires
        h1 == h2,
        r1 == r2,
        p1 == p2,
    ensures
        streak_count(h1, r1, p1) == streak_count(h2, r2, p2),
{
}

/// Once the cursor's day is counted, another completion on that same day
/// changes nothing: the walk goes on as if it were not there.
pub proof fn lemma_same_day_duplicate_ignored(
    history: Seq<Moment>,
    cursor: Moment,
    count: int,
    policy: StreakFrequency,
)
    requires
        history.len() > 0,
        count >= 1,
        days_between(cursor, history[0]) == 0,
    ensures
        streak_from(history, cursor, count, policy) == streak_from(
            history.drop_first(),
            cursor,
            count,
            policy,
        ),
{
}

} // verus!
