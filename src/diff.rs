use vstd::prelude::*;
use crate::amount::{difference, mantissa_fits, Amount};
use crate::row::{views, Row};

verus! {

/// The items of `s`, in order, that do not occur in `other`.
pub open spec fn missing_from<V>(s: Seq<V>, other: Seq<V>) -> Seq<V>
    decreases s.len(),
{
    if s.len() == 0 {
        Seq::empty()
    } else {
        let rest = missing_from(s.drop_last(), other);
        if other.contains(s.last()) {
            rest
        } else {
            rest.push(s.last())
        }
    }
}

pub proof fn lemma_missing_from_members<V>(s: Seq<V>, other: Seq<V>, x: V)
    ensures
        missing_from(s, other).contains(x) <==> (s.contains(x) && !other.contains(x)),
    decreases s.len(),
{
    if s.len() > 0 {
        let init = s.drop_last();
        lemma_missing_from_members(init, other, x);
        assert(s == init.push(s.last()));
        assert(s.contains(x) <==> (init.contains(x) || x == s.last())) by {
            if s.contains(x) {
                let i = choose|i: int| 0 <= i < s.len() && s[i] == x;
                if i < s.len() - 1 {
                    assert(init[i] == x);
                }
            }
            if init.contains(x) {
                let i = choose|i: int| 0 <= i < init.len() && init[i] == x;
                assert(s[i] == x);
            }
            if x == s.last() {
                assert(s[s.len() - 1] == x);
            }
        };
        let rest = missing_from(init, other);
        if !other.contains(s.last()) {
            assert(rest.push(s.last()).contains(x) <==> (rest.contains(x) || x == s.last())) by {
                let pushed = rest.push(s.last());
                if pushed.contains(x) {
                    let i = choose|i: int| 0 <= i < pushed.len() && pushed[i] == x;
                    if i < rest.len() {
                        assert(rest[i] == x);
                    }
                }
                if rest.contains(x) {
                    let i = choose|i: int| 0 <= i < rest.len() && rest[i] == x;
                    assert(pushed[i] == x);
                }
                if x == s.last() {
                    assert(pushed[rest.len() as int] == x);
                }
            };
        }
    }
}

/// What changed between two snapshots of a set-style feed: the rows present
/// now but not before, and the rows present before but not now. On a cold
/// start (nothing before) nothing counts as changed.
pub open spec fn set_delta<V>(prev: Seq<V>, cur: Seq<V>) -> (Seq<V>, Seq<V>) {
    if prev.len() == 0 {
        (Seq::empty(), Seq::empty())
    } else {
        (missing_from(cur, prev), missing_from(prev, cur))
    }
}

/// The change between two snapshots of a set-style feed.
#[derive(Debug)]
pub struct SetDelta<R> {
    pub arrivals: Vec<R>,
    pub departures: Vec<R>,
}

impl<R: View> SetDelta<R> {
    pub open spec fn arrival_views(&self) -> Seq<R::V> {
        views(self.arrivals@)
    }

    pub open spec fn departure_views(&self) -> Seq<R::V> {
        views(self.departures@)
    }

    pub open spec fn is_empty_spec(&self) -> bool {
        self.arrivals@.len() == 0 && self.departures@.len() == 0
    }

    pub fn is_empty(&self) -> (r: bool)
        ensures
            r == self.is_empty_spec(),
    {
        self.arrivals.len() == 0 && self.departures.len() == 0
    }
}

/// Whether `rows` holds a row equal to `row`.
pub fn contains_row<R: Row>(rows: &Vec<R>, row: &R) -> (r: bool)
    ensures
        r == views(rows@).contains(row@),
{
    let mut i: usize = 0;
    while i < rows.len()
        invariant
            i <= rows.len(),
            forall|j: int| 0 <= j < i ==> rows@[j]@ != row@,
        decreases rows.len() - i,
    {
        if rows[i].same_row(row) {
            assert(views(rows@)[i as int] == row@);
            return true;
        }
        i = i + 1;
    }
    proof {
        if views(rows@).contains(row@) {
            let j = choose|j: int| 0 <= j < views(rows@).len() && views(rows@)[j] == row@;
            assert(rows@[j]@ == row@);
        }
    }
    false
}

/// The rows of `s`, in order, that `other` does not hold.
pub fn rows_missing_from<R: Row>(s: &Vec<R>, other: &Vec<R>) -> (r: Vec<R>)
    ensures
        views(r@) == missing_from(views(s@), views(other@)),
{
    let mut out: Vec<R> = Vec::new();
    let mut i: usize = 0;
    while i < s.len()
        invariant
            i <= s.len(),
            views(out@) == missing_from(views(s@).subrange(0, i as int), views(other@)),
        decreases s.len() - i,
    {
        let ghost before = views(s@).subrange(0, i as int);
        let ghost after = views(s@).subrange(0, i + 1);
        assert(after.drop_last() == before);
        assert(after.last() == s@[i as int]@);
        let ghost prior = out@;
        if !contains_row(other, &s[i]) {
            out.push(s[i].duplicate());
            assert(views(out@) == views(prior).push(s@[i as int]@));
        }
        i = i + 1;
    }
    assert(views(s@).subrange(0, s.len() as int) == views(s@));
    out
}

/// The change between the previous and the current snapshot of a set-style
/// feed; nothing on a cold start.
pub fn diff_rows<R: Row>(prev: &Vec<R>, cur: &Vec<R>) -> (r: SetDelta<R>)
    ensures
        (r.arrival_views(), r.departure_views()) == set_delta(views(prev@), views(cur@)),
{
    if prev.len() == 0 {
        let r = SetDelta { arrivals: Vec::new(), departures: Vec::new() };
        assert(r.arrival_views() == Seq::<R::V>::empty());
        assert(r.departure_views() == Seq::<R::V>::empty());
        r
    } else {
        SetDelta { arrivals: rows_missing_from(cur, prev), departures: rows_missing_from(prev, cur) }
    }
}

/// The change of the scalar feed: `None` on a cold start or when the value
/// did not move, else the signed difference `cur - prev`; `Err(())` when that
/// difference is beyond the range of an amount.
pub open spec fn stake_delta(prev: Option<Amount>, cur: Amount) -> Result<Option<(int, nat)>, ()> {
    match prev {
        None => Ok(None),
        Some(p) => {
            let d = difference(cur, p);
            if d == 0 {
                Ok(None)
            } else if mantissa_fits(d) {
                Ok(Some((d, crate::amount::common_scale(cur, p))))
            } else {
                Err(())
            }
        },
    }
}

/// The signed change of the scalar feed; see `stake_delta`.
pub fn diff_stake(prev: Option<Amount>, cur: Amount) -> (r: Result<Option<Amount>, ()>)
    requires
        prev matches Some(p) ==> p.wf(),
        cur.wf(),
    ensures
        match (r, stake_delta(prev, cur)) {
            (Ok(None), Ok(None)) => true,
            (Ok(Some(a)), Ok(Some((m, s)))) => a.wf() && a.mantissa == m && a.scale == s,
            (Err(()), Err(())) => true,
            _ => false,
        },
{
    match prev {
        None => Ok(None),
        Some(p) => match cur.checked_sub(&p) {
            Some(d) => {
                if d.is_zero() {
                    Ok(None)
                } else {
                    Ok(Some(d))
                }
            },
            None => Err(()),
        },
    }
}

/// A cold start reports no change, whatever the current snapshot holds.
pub proof fn law_cold_start_is_quiet<V>(cur: Seq<V>)
    ensures
        set_delta(Seq::<V>::empty(), cur).0.len() == 0,
        set_delta(Seq::<V>::empty(), cur).1.len() == 0,
{
}

/// A cold start of the scalar feed reports no change.
pub proof fn law_cold_start_is_quiet_scalar(cur: Amount)
    ensures
        stake_delta(None, cur) == Ok::<Option<(int, nat)>, ()>(None),
{
}

/// Comparing a snapshot with itself reports no change.
pub proof fn law_unchanged_is_quiet<V>(s: Seq<V>)
    ensures
        set_delta(s, s).0.len() == 0,
        set_delta(s, s).1.len() == 0,
{
    if s.len() > 0 {
        let m = missing_from(s, s);
        if m.len() > 0 {
            lemma_missing_from_members(s, s, m[0]);
            assert(m.contains(m[0]));
        }
    }
}

/// Comparing a scalar snapshot with itself reports no change.
pub proof fn law_unchanged_is_quiet_scalar(s: Amount)
    ensures
        stake_delta(Some(s), s) == Ok::<Option<(int, nat)>, ()>(None),
{
}

/// Arrivals and departures share no row, and the current snapshot is, as a
/// set, the previous one without the departures and with the arrivals.
/// On a cold start (empty previous snapshot) no change is reported at all,
/// so the second half holds only when something came before.
pub proof fn law_delta_round_trip<V>(prev: Seq<V>, cur: Seq<V>)
    ensures
        set_delta(prev, cur).0.to_set().disjoint(set_delta(prev, cur).1.to_set()),
        prev.len() > 0 ==> cur.to_set() == prev.to_set().difference(set_delta(prev, cur).1.to_set()).union(
            set_delta(prev, cur).0.to_set(),
        ),
{
    let arr = set_delta(prev, cur).0;
    let dep = set_delta(prev, cur).1;
    if prev.len() > 0 {
        assert forall|x: V| arr.contains(x) <==> (cur.contains(x) && !prev.contains(x)) by {
            lemma_missing_from_members(cur, prev, x);
        }
        assert forall|x: V| dep.contains(x) <==> (prev.contains(x) && !cur.contains(x)) by {
            lemma_missing_from_members(prev, cur, x);
        }
        assert(arr.to_set().disjoint(dep.to_set()));
        assert(cur.to_set() == prev.to_set().difference(dep.to_set()).union(arr.to_set()));
    } else {
        assert(arr.to_set() == Set::<V>::empty());
    }
}

} // verus!
