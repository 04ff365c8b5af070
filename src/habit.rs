//! Habits as stored, and the decisions taken on what the store returns.

use vstd::prelude::*;
use crate::frequency::{InvalidFrequency, StreakFrequency};
use crate::moment::{parsed_moment, Moment};
use crate::streak::{calculate_streak_count, streak_count};

verus! {

/// A habit: its row id, its unique name and its policy.
#[derive(Debug)]
pub struct Streak {
    pub id: i32,
    pub name: String,
    pub frequency: StreakFrequency,
}

impl Clone for Streak {
    fn clone(&self) -> (r: Streak)
        ensures
            r == *self,
    {
        Streak { id: self.id, name: self.name.clone(), frequency: self.frequency }
    }
}

/// Whether `streak` is not among the habits logged on the day.
pub open spec fn not_logged(logged_ids: Seq<i32>, streak: Streak) -> bool {
    !logged_ids.contains(streak.id)
}

fn contains_id(ids: &Vec<i32>, id: i32) -> (r: bool)
    ensures
        r == ids@.contains(id),
{
    let mut j: usize = 0;
    while j < ids.len()
        invariant
            j <= ids@.len(),
            !ids@.take(j as int).contains(id),
        decreases ids@.len() - j,
    {
        if ids[j] == id {
            return true;
        }
        assert(!ids@.take(j + 1).contains(id)) by {
            let next = ids@.take(j + 1);
            if next.contains(id) {
                let k = choose|k: int| 0 <= k < next.len() && next[k] == id;
                assert(ids@.take(j as int)[k] == id);
            }
        }
        j = j + 1;
    }
    assert(ids@.take(j as int) =~= ids@);
    false
}

/// The habits of `all_streaks`, in their order, whose id is not among
/// `logged_ids`: those still to do on the day.
pub fn streaks_to_remind(all_streaks: &Vec<Streak>, logged_ids: &Vec<i32>) -> (r: Vec<Streak>)
    ensures
        r@ == all_streaks@.filter(|s: Streak| not_logged(logged_ids@, s)),
{
    let ghost pred = |s: Streak| not_logged(logged_ids@, s);
    let mut r: Vec<Streak> = Vec::new();
    let mut i: usize = 0;
    while i < all_streaks.len()
        invariant
            i <= all_streaks@.len(),
            r@ == all_streaks@.take(i as int).filter(pred),
            pred == (|s: Streak| not_logged(logged_ids@, s)),
        decreases all_streaks@.len() - i,
    {
        let streak = &all_streaks[i];
        let logged = contains_id(logged_ids, streak.id);
        proof {
            let next = all_streaks@.take(i + 1);
            assert(next.drop_last() =~= all_streaks@.take(i as int));
            assert(next.last() == all_streaks@[i as int]);
            reveal(Seq::filter);
            assert(next.filter(pred) == if pred(*streak) {
                all_streaks@.take(i as int).filter(pred).push(*streak)
            } else {
                all_streaks@.take(i as int).filter(pred)
            });
        }
        if !logged {
            r.push(streak.clone());
        }
        i = i + 1;
    }
    assert(all_streaks@.take(i as int) =~= all_streaks@);
    r
}

/// The moments of the stored timestamps that parse, in their order.
pub open spec fn parsed_records(records: Seq<String>) -> Seq<Moment> {
    records.filter_map(|s: String| parsed_moment(s@))
}

/// The streak of a habit from what the store holds for it: its timestamps
/// as text, newest first (those that do not parse are left out), and its
/// frequency label. Fails with the label where that names no policy.
pub fn streak_count_from_records(records: &Vec<String>, frequency: &str, now: Moment) -> (r: Result<
    usize,
    InvalidFrequency,
>)
    ensures
        r is Err <==> (frequency@ != "alldays"@ && frequency@ != "weekdays"@),
        r matches Err(e) ==> e.label@ == frequency@,
        frequency@ == "alldays"@ ==> (r matches Ok(n) && n == streak_count(
            parsed_records(records@),
            now,
            StreakFrequency::alldays,
        )),
        frequency@ == "weekdays"@ ==> (r matches Ok(n) && n == streak_count(
            parsed_records(records@),
            now,
            StreakFrequency::weekdays,
        )),
{
    let policy = match StreakFrequency::from_str(frequency) {
        Ok(f) => f,
        Err(e) => {
            return Err(e);
        },
    };
    let ghost f = |s: String| parsed_moment(s@);
    let mut moments: Vec<Moment> = Vec::new();
    let mut i: usize = 0;
    while i < records.len()
        invariant
            i <= records@.len(),
            moments@ == records@.take(i as int).filter_map(f),
            f == (|s: String| parsed_moment(s@)),
        decreases records@.len() - i,
    {
        proof {
            records@.lemma_filter_map_take_succ(f, i as int);
        }
        match Moment::parse_rfc3339(records[i].as_str()) {
            Some(m) => {
                moments.push(m);
            },
            None => {},
        }
        assert(moments@ =~= records@.take(i + 1).filter_map(f));
        i = i + 1;
    }
    assert(records@.take(i as int) =~= records@);
    Ok(calculate_streak_count(moments, now, policy))
}

} // verus!
