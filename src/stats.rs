use vstd::prelude::*;
use chrono::Datelike;

verus! {

/// Seconds of break and of work accumulated in one calendar month.
#[derive(Clone, Copy, Debug, PartialEq, Eq, Structural)]
pub struct MonthStat {
    pub month: u32,
    pub break_seconds: u32,
    pub work_seconds: u32,
}

/// The per-month ledger: at most one entry for each month, in any order.
#[derive(Clone, Debug)]
pub struct Stats {
    pub month_break_work: Vec<MonthStat>,
}

pub open spec fn valid_month(m: u32) -> bool {
    1 <= m <= 12
}

/// Months are valid and no month appears twice.
pub open spec fn ledger_wf(s: Seq<MonthStat>) -> bool {
    &&& forall|i: int| 0 <= i < s.len() ==> valid_month(#[trigger] s[i].month)
    &&& forall|i: int, j: int|
        0 <= i < s.len() && 0 <= j < s.len() && i != j ==> #[trigger] s[i].month != #[trigger] s[j].month
}

pub open spec fn has_month(s: Seq<MonthStat>, m: u32) -> bool {
    exists|i: int| 0 <= i < s.len() && #[trigger] s[i].month == m
}

/// An entry for month `m` with nothing recorded yet.
pub open spec fn empty_entry(m: u32) -> MonthStat {
    MonthStat { month: m, break_seconds: 0, work_seconds: 0 }
}

/// `e` with the deltas added; each counter stops at `u32::MAX`.
pub open spec fn bumped(e: MonthStat, break_delta: u32, work_delta: u32) -> MonthStat {
    MonthStat {
        month: e.month,
        break_seconds: e.break_seconds.saturating_add(break_delta),
        work_seconds: e.work_seconds.saturating_add(work_delta),
    }
}

/// The ledger after the deltas were added to month `m`: its entry is raised
/// in place, or a new entry is appended; every other entry stays.
pub open spec fn merged(s: Seq<MonthStat>, m: u32, break_delta: u32, work_delta: u32) -> Seq<MonthStat> {
    if has_month(s, m) {
        Seq::new(
            s.len(),
            |i: int| if s[i].month == m { bumped(s[i], break_delta, work_delta) } else { s[i] },
        )
    } else {
        s.push(bumped(empty_entry(m), break_delta, work_delta))
    }
}

impl Stats {
    pub open spec fn wf(&self) -> bool {
        ledger_wf(self.month_break_work@)
    }

    /// A ledger with no entries.
    pub fn new() -> (r: Stats)
        ensures
            r.month_break_work@ == Seq::<MonthStat>::empty(),
            r.wf(),
    {
        Stats { month_break_work: Vec::new() }
    }

    /// Whether every month is valid and none appears twice.
    pub fn is_valid(&self) -> (r: bool)
        ensures
            r == self.wf(),
    {
        let s = &self.month_break_work;
        let mut i: usize = 0;
        while i < s.len()
            invariant
                s@ == self.month_break_work@,
                i <= s@.len(),
                forall|k: int| 0 <= k < i ==> valid_month(#[trigger] s@[k].month),
                forall|k: int, j: int|
                    0 <= k < i && 0 <= j < s@.len() && k != j ==> #[trigger] s@[k].month
                        != #[trigger] s@[j].month,
            decreases s@.len() - i,
        {
            if s[i].month < 1 || s[i].month > 12 {
                assert(!valid_month(s@[i as int].month));
                return false;
            }
            let mut j: usize = 0;
            while j < s.len()
                invariant
                    s@ == self.month_break_work@,
                    i < s@.len(),
                    j <= s@.len(),
                    forall|l: int| 0 <= l < j && l != i ==> s@[i as int].month != #[trigger] s@[l].month,
                decreases s@.len() - j,
            {
                if j != i && s[j].month == s[i].month {
                    assert(s@[i as int].month == s@[j as int].month);
                    return false;
                }
                j = j + 1;
            }
            i = i + 1;
        }
        true
    }

    /// A ledger that holds one empty entry for month `m`.
    pub fn with_month(m: u32) -> (r: Stats)
        requires
            valid_month(m),
        ensures
            r.month_break_work@ == seq![empty_entry(m)],
            r.wf(),
    {
        let mut v: Vec<MonthStat> = Vec::new();
        v.push(MonthStat { month: m, break_seconds: 0, work_seconds: 0 });
        Stats { month_break_work: v }
    }
}

/// Index of the entry for month `m`, if there is one.
fn find_month(s: &Vec<MonthStat>, m: u32) -> (r: Option<usize>)
    ensures
        match r {
            Some(i) => i < s@.len() && s@[i as int].month == m,
            None => !has_month(s@, m),
        },
{
    let mut i: usize = 0;
    while i < s.len()
        invariant
            i <= s@.len(),
            forall|j: int| 0 <= j < i ==> s@[j].month != m,
        decreases s@.len() - i,
    {
        if s[i].month == m {
            return Some(i);
        }
        i = i + 1;
    }
    None
}

/// Adds the deltas to the entry of month `m`, creating it from zero if it is
/// absent; the entries of all other months are kept as they are.
pub fn update_statistics(stats: &mut Stats, m: u32, break_delta: u32, work_delta: u32)
    requires
        old(stats).wf(),
        valid_month(m),
    ensures
        final(stats).wf(),
        final(stats).month_break_work@ == merged(old(stats).month_break_work@, m, break_delta, work_delta),
{
    let ghost s0 = stats.month_break_work@;
    match find_month(&stats.month_break_work, m) {
        Some(i) => {
            let e = stats.month_break_work[i];
            let updated = MonthStat {
                month: e.month,
                break_seconds: e.break_seconds.saturating_add(break_delta),
                work_seconds: e.work_seconds.saturating_add(work_delta),
            };
            stats.month_break_work[i] = updated;
            proof {
                assert(has_month(s0, m));
                assert(stats.month_break_work@ =~= merged(s0, m, break_delta, work_delta));
            }
        },
        None => {
            stats.month_break_work.push(
                MonthStat { month: m, break_seconds: break_delta, work_seconds: work_delta },
            );
            proof {
                assert(stats.month_break_work@ =~= merged(s0, m, break_delta, work_delta));
            }
        },
    }
}

/// The entry of month `m`, or an empty one when the ledger has none.
pub fn current_stat(stats: &Stats, m: u32) -> (r: MonthStat)
    ensures
        has_month(stats.month_break_work@, m) ==> exists|i: int|
            0 <= i < stats.month_break_work@.len() && stats.month_break_work@[i] == r
                && #[trigger] stats.month_break_work@[i].month == m,
        !has_month(stats.month_break_work@, m) ==> r == empty_entry(m),
{
    match find_month(&stats.month_break_work, m) {
        Some(i) => stats.month_break_work[i],
        None => MonthStat { month: m, break_seconds: 0, work_seconds: 0 },
    }
}

/// Relies on chrono's `From<SystemTime> for DateTime<Utc>` and
/// `Datelike::month`: the month of the current UTC date, numbered from 1 to
/// 12. chrono maps every clock reading, one before 1970 too, to a date.
#[verifier::external_body]
fn current_month() -> (r: u32)
    ensures
        valid_month(r),
{
    chrono::DateTime::<chrono::Utc>::from(std::time::SystemTime::now()).month()
}

/// Adds the deltas to the entry of the current calendar month.
pub fn update_statistics_now(stats: &mut Stats, break_delta: u32, work_delta: u32)
    requires
        old(stats).wf(),
    ensures
        final(stats).wf(),
        exists|m: u32|
            valid_month(m) && final(stats).month_break_work@ == #[trigger] merged(
                old(stats).month_break_work@,
                m,
                break_delta,
                work_delta,
            ),
{
    let m = current_month();
    update_statistics(stats, m, break_delta, work_delta);
}

/// The entry of the current calendar month, or an empty one for it.
pub fn current_month_stat(stats: &Stats) -> (r: MonthStat)
    ensures
        valid_month(r.month),
        has_month(stats.month_break_work@, r.month) ==> exists|i: int|
            0 <= i < stats.month_break_work@.len() && #[trigger] stats.month_break_work@[i] == r,
        !has_month(stats.month_break_work@, r.month) ==> r == empty_entry(r.month),
{
    let m = current_month();
    current_stat(stats, m)
}

impl Default for Stats {
    /// A ledger with one empty entry for the current calendar month.
    fn default() -> (r: Stats)
        ensures
            r.wf(),
            exists|m: u32| valid_month(m) && r.month_break_work@ == seq![#[trigger] empty_entry(m)],
    {
        Stats::with_month(current_month())
    }
}

/// Adding to a month that has no entry appends exactly one entry, for that
/// month, and keeps every other entry as it was; the ledger stays valid.
pub proof fn lemma_new_month_keeps_others(s: Seq<MonthStat>, m: u32, break_delta: u32, work_delta: u32)
    requires
        ledger_wf(s),
        valid_month(m),
        !has_month(s, m),
    ensures
        merged(s, m, break_delta, work_delta).len() == s.len() + 1,
        merged(s, m, break_delta, work_delta)[s.len() as int] == (MonthStat {
            month: m,
            break_seconds: break_delta,
            work_seconds: work_delta,
        }),
        forall|i: int| 0 <= i < s.len() ==> #[trigger] merged(s, m, break_delta, work_delta)[i] == s[i],
        ledger_wf(merged(s, m, break_delta, work_delta)),
{
    let r = merged(s, m, break_delta, work_delta);
    assert forall|i: int, j: int|
        0 <= i < r.len() && 0 <= j < r.len() && i != j implies #[trigger] r[i].month != #[trigger] r[j].month by {
        if i < s.len() && j < s.len() {
        } else if i < s.len() {
            assert(s[i].month != m);
        } else {
            assert(s[j].month != m);
        }
    }
}

/// Adding to one month never changes the entry of another.
pub proof fn lemma_other_months_unchanged(s: Seq<MonthStat>, m: u32, break_delta: u32, work_delta: u32)
    requires
        ledger_wf(s),
    ensures
        forall|i: int|
            0 <= i < s.len() && s[i].month != m ==> #[trigger] merged(s, m, break_delta, work_delta)[i] == s[i],
{
}

} // verus!
