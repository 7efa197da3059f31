//! Capability engine: skill scores (0-100) aggregated from workflow signals and tasks,
//! and the narrative that explains them, with an offline template when no AI answers.
use vstd::prelude::*;

use crate::ai::task::StreamChunk;
use crate::calendar::{format_utc_millis, utc_format};
use crate::error::ProviderError;
use crate::memory::l1::{
    count_status, lemma_count_status_bound, lemma_count_status_is_filter, tasks_in_status,
    tasks_with_status, CapabilityScore, Task, WorkflowSignal,
};
use crate::text::{
    add_distinct, concat, decimal, i64_to_decimal, join, joined, lemma_distinct_len, owned,
    signed_decimal, trim, trimmed, usize_to_decimal, view_set, views,
};

verus! {

pub open spec fn day_ms() -> int {
    86400000
}

/// Length of the window for debugging, breadth and productivity: 30 days.
pub open spec fn thirty_days_ms() -> int {
    30 * day_ms()
}

/// Length of the window for consistency: 14 days.
pub open spec fn fourteen_days_ms() -> int {
    14 * day_ms()
}

pub open spec fn day_format() -> Seq<char> {
    "%Y-%m-%d"@
}

/// Signals at or after `since` whose type is `kind`.
pub open spec fn count_kind(s: Seq<WorkflowSignal>, since: int, kind: Seq<char>) -> nat
    decreases s.len(),
{
    if s.len() == 0 {
        0
    } else {
        count_kind(s.drop_last(), since, kind) + if s.last().created_at >= since
            && s.last().signal_type@ == kind {
            1nat
        } else {
            0nat
        }
    }
}

/// UTC calendar days (`YYYY-MM-DD`) on which a signal at or after `since` was captured.
pub open spec fn active_days(s: Seq<WorkflowSignal>, since: int) -> Set<Seq<char>>
    decreases s.len(),
{
    if s.len() == 0 {
        Set::empty()
    } else {
        let rest = active_days(s.drop_last(), since);
        let x = s.last();
        if x.created_at >= since && utc_format(x.created_at, day_format()) is Some {
            rest.insert(utc_format(x.created_at, day_format())->0)
        } else {
            rest
        }
    }
}

/// Non-empty languages of the signals at or after `since`.
pub open spec fn languages(s: Seq<WorkflowSignal>, since: int) -> Set<Seq<char>>
    decreases s.len(),
{
    if s.len() == 0 {
        Set::empty()
    } else {
        let rest = languages(s.drop_last(), since);
        let x = s.last();
        if x.created_at >= since && x.language is Some && (x.language->0)@.len() > 0 {
            rest.insert((x.language->0)@)
        } else {
            rest
        }
    }
}

pub open spec fn cap100(x: int) -> int {
    if x < 100 {
        x
    } else {
        100
    }
}

pub open spec fn debug_sessions(s: Seq<WorkflowSignal>, now: int) -> nat {
    count_kind(s, now - thirty_days_ms(), "debug_started"@)
}

pub open spec fn file_saves(s: Seq<WorkflowSignal>, now: int) -> nat {
    count_kind(s, now - thirty_days_ms(), "file_saved"@)
}

pub open spec fn days_14(s: Seq<WorkflowSignal>, now: int) -> nat {
    active_days(s, now - fourteen_days_ms()).len()
}

pub open spec fn days_30(s: Seq<WorkflowSignal>, now: int) -> nat {
    active_days(s, now - thirty_days_ms()).len()
}

pub open spec fn language_count(s: Seq<WorkflowSignal>, now: int) -> nat {
    languages(s, now - thirty_days_ms()).len()
}

/// File saves per active day over the last 30 days (integer division, at least one day).
pub open spec fn saves_per_day(s: Seq<WorkflowSignal>, now: int) -> nat {
    let d = days_30(s, now);
    file_saves(s, now) / (if d > 1 {
        d
    } else {
        1
    })
}

pub open spec fn execution_score(tasks: Seq<Task>) -> int {
    if tasks.len() > 0 {
        cap100((count_status(tasks, "done"@) * 100) as int / tasks.len() as int)
    } else {
        50
    }
}

/// The five raw scores: skill name, score, and the description of its basis.
pub open spec fn raw_scores(s: Seq<WorkflowSignal>, tasks: Seq<Task>, now: int) -> Seq<
    (Seq<char>, int, Seq<char>),
> {
    seq![
        ("debugging"@, cap100((debug_sessions(s, now) * 10) as int), decimal(debug_sessions(s, now))
            + " debug sessions (30d)"@),
        ("execution"@, execution_score(tasks), decimal(count_status(tasks, "done"@)) + "/"@
            + decimal(tasks.len()) + " tasks done"@),
        ("consistency"@, cap100((days_14(s, now) * 100) as int / 14), decimal(days_14(s, now))
            + "/14 active days"@),
        ("breadth"@, cap100((language_count(s, now) * 15) as int), decimal(language_count(s, now))
            + " languages"@),
        ("productivity"@, cap100((saves_per_day(s, now) * 10) as int), decimal(saves_per_day(s, now))
            + " saves/active day"@),
    ]
}

/// The execution score is the percentage of tasks that are done, rounded down: 0 when there
/// are tasks and none is done, 100 when all are; 50 only when there is no task.
pub proof fn lemma_execution_is_share_of_done(signals: Seq<WorkflowSignal>, tasks: Seq<Task>, now: int)
    ensures
        raw_scores(signals, tasks, now)[1].0 == "execution"@,
        tasks.len() > 0 ==> raw_scores(signals, tasks, now)[1].1 == (100 * (tasks_in_status(
            tasks,
            "done"@,
        ).len() as int)) / (tasks.len() as int),
        tasks.len() == 0 ==> raw_scores(signals, tasks, now)[1].1 == 50,
        tasks.len() > 0 && tasks_in_status(tasks, "done"@).len() == 0 ==> raw_scores(
            signals,
            tasks,
            now,
        )[1].1 == 0,
{
    lemma_count_status_is_filter(tasks, "done"@);
    lemma_count_status_bound(tasks, "done"@);
    if tasks.len() > 0 {
        let d = count_status(tasks, "done"@) as int;
        let n = tasks.len() as int;
        assert((d * 100) / n <= 100 && (d * 100) / n == (100 * d) / n) by (nonlinear_arith)
            requires
                0 <= d <= n,
                n > 0,
        ;
    }
}

/// Whether a signal of type `kind` was captured at or after `since`.
pub open spec fn recent_of_kind(since: int, kind: Seq<char>) -> spec_fn(WorkflowSignal) -> bool {
    |x: WorkflowSignal| x.created_at >= since && x.signal_type@ == kind
}

/// The signals of type `kind` captured at or after `since`, in order.
pub open spec fn recent_signals_of_kind(s: Seq<WorkflowSignal>, since: int, kind: Seq<char>) -> Seq<WorkflowSignal> {
    s.filter(recent_of_kind(since, kind))
}

proof fn lemma_count_kind_is_filter(s: Seq<WorkflowSignal>, since: int, kind: Seq<char>)
    ensures
        count_kind(s, since, kind) == recent_signals_of_kind(s, since, kind).len(),
    decreases s.len(),
{
    if s.len() > 0 {
        lemma_count_kind_is_filter(s.drop_last(), since, kind);
        reveal(Seq::filter);
        assert(recent_signals_of_kind(s.drop_last(), since, kind) == s.drop_last().filter(
            recent_of_kind(since, kind),
        ));
    }
}

/// UTC dates (`YYYY-MM-DD`) of the signals captured at or after `since`.
pub open spec fn dates_since(s: Seq<WorkflowSignal>, since: int) -> Set<Seq<char>> {
    Set::new(
        |d: Seq<char>|
            exists|i: int|
                0 <= i < s.len() && (#[trigger] s[i]).created_at >= since && utc_format(
                    s[i].created_at,
                    day_format(),
                ) == Some(d),
    )
}

/// Non-empty languages of the signals captured at or after `since`.
pub open spec fn languages_since(s: Seq<WorkflowSignal>, since: int) -> Set<Seq<char>> {
    Set::new(
        |l: Seq<char>|
            l.len() > 0 && exists|i: int|
                0 <= i < s.len() && (#[trigger] s[i]).created_at >= since && (s[i].language is Some
                    && (s[i].language->0)@ == l),
    )
}

proof fn lemma_active_days_are_dates(s: Seq<WorkflowSignal>, since: int)
    ensures
        active_days(s, since) == dates_since(s, since),
    decreases s.len(),
{
    if s.len() > 0 {
        let t = s.drop_last();
        lemma_active_days_are_dates(t, since);
        assert forall|d: Seq<char>| active_days(s, since).contains(d) == dates_since(s, since).contains(d) by {
            if dates_since(s, since).contains(d) {
                let i = choose|i: int|
                    0 <= i < s.len() && (#[trigger] s[i]).created_at >= since && utc_format(
                        s[i].created_at,
                        day_format(),
                    ) == Some(d);
                if i < t.len() {
                    assert(t[i] == s[i]);
                    assert(dates_since(t, since).contains(d));
                }
            }
            if dates_since(t, since).contains(d) {
                let i = choose|i: int|
                    0 <= i < t.len() && (#[trigger] t[i]).created_at >= since && utc_format(
                        t[i].created_at,
                        day_format(),
                    ) == Some(d);
                assert(t[i] == s[i]);
            }
        }
        assert(active_days(s, since) =~= dates_since(s, since));
    }
}

proof fn lemma_languages_are_languages_since(s: Seq<WorkflowSignal>, since: int)
    ensures
        languages(s, since) == languages_since(s, since),
    decreases s.len(),
{
    if s.len() > 0 {
        let t = s.drop_last();
        lemma_languages_are_languages_since(t, since);
        assert forall|l: Seq<char>| languages(s, since).contains(l) == languages_since(s, since).contains(l) by {
            if languages_since(s, since).contains(l) {
                let i = choose|i: int|
                    0 <= i < s.len() && (#[trigger] s[i]).created_at >= since && (s[i].language is Some
                        && (s[i].language->0)@ == l);
                if i < t.len() {
                    assert(t[i] == s[i]);
                    assert(languages_since(t, since).contains(l));
                }
            }
            if languages_since(t, since).contains(l) {
                let i = choose|i: int|
                    0 <= i < t.len() && (#[trigger] t[i]).created_at >= since && (t[i].language is Some
                        && (t[i].language->0)@ == l);
                assert(t[i] == s[i]);
            }
        }
        assert(languages(s, since) =~= languages_since(s, since));
    }
}

/// The five scores, said from the signals and tasks themselves: debugging is 10 points per
/// debug session of the last 30 days; consistency the share of the last 14 days (as UTC
/// dates) with a signal; breadth 15 points per distinct language of the last 30 days;
/// productivity 10 points per file save per active day of the last 30 days; each capped at 100.
pub proof fn lemma_scores_from_signals(signals: Seq<WorkflowSignal>, tasks: Seq<Task>, now: int)
    ensures
        ({
            let r = raw_scores(signals, tasks, now);
            let month = now - 30 * 86400000;
            let fortnight = now - 14 * 86400000;
            let debugs = recent_signals_of_kind(signals, month, "debug_started"@).len();
            let saves = recent_signals_of_kind(signals, month, "file_saved"@).len();
            let days30 = dates_since(signals, month).len();
            &&& r[0].0 == "debugging"@
            &&& r[0].1 == if debugs * 10 < 100 {
                (debugs * 10) as int
            } else {
                100
            }
            &&& r[2].0 == "consistency"@
            &&& r[2].1 == if dates_since(signals, fortnight).len() * 100 / 14 < 100 {
                (dates_since(signals, fortnight).len() * 100 / 14) as int
            } else {
                100
            }
            &&& r[3].0 == "breadth"@
            &&& r[3].1 == if languages_since(signals, month).len() * 15 < 100 {
                (languages_since(signals, month).len() * 15) as int
            } else {
                100
            }
            &&& r[4].0 == "productivity"@
            &&& r[4].1 == if (saves / (if days30 > 1 {
                days30
            } else {
                1
            })) * 10 < 100 {
                ((saves / (if days30 > 1 {
                    days30
                } else {
                    1
                })) * 10) as int
            } else {
                100
            }
        }),
{
    let month = now - 30 * 86400000;
    let fortnight = now - 14 * 86400000;
    lemma_count_kind_is_filter(signals, month, "debug_started"@);
    lemma_count_kind_is_filter(signals, month, "file_saved"@);
    lemma_active_days_are_dates(signals, month);
    lemma_active_days_are_dates(signals, fortnight);
    lemma_languages_are_languages_since(signals, month);
}

/// What the exec triple `t` stands for.
pub open spec fn triple_view(t: (String, i64, String)) -> (Seq<char>, int, Seq<char>) {
    (t.0@, t.1 as int, t.2@)
}

/// A key gathered while scanning: what a signal adds to a set of distinct strings.
fn day_key(ms: i64) -> (r: Option<String>)
    ensures
        match r {
            Some(k) => utc_format(ms, day_format()) == Some(k@),
            None => utc_format(ms, day_format()) is None,
        },
{
    format_utc_millis(ms, "%Y-%m-%d")
}

proof fn lemma_count_kind_bound(s: Seq<WorkflowSignal>, since: int, kind: Seq<char>)
    ensures
        count_kind(s, since, kind) <= s.len(),
    decreases s.len(),
{
    if s.len() > 0 {
        lemma_count_kind_bound(s.drop_last(), since, kind);
    }
}

/// The scores of the five skills, from the signals and tasks, at time `now_ms` (Unix ms).
/// Debugging counts debug sessions of the last 30 days (10 points each); execution is the
/// share of done tasks (50 with no task); consistency the active days of the last 14;
/// breadth the languages of the last 30 days (15 points each); productivity the file saves
/// per active day of the last 30 days (10 points each). Every score is capped at 100.
pub fn compute_raw_scores(signals: &Vec<WorkflowSignal>, tasks: &Vec<Task>, now_ms: i64) -> (r:
    Vec<(String, i64, String)>)
    requires
        now_ms >= i64::MIN + 2592000000,
    ensures
        r@.len() == 5,
        forall|i: int|
            0 <= i < 5 ==> #[trigger] triple_view(r@[i]) == raw_scores(
                signals@,
                tasks@,
                now_ms as int,
            )[i],
        forall|i: int| 0 <= i < 5 ==> 0 <= #[trigger] r@[i].1 <= 100,
{
    let thirty_days_ago: i64 = now_ms - 2592000000;
    let fourteen_days_ago: i64 = now_ms - 1209600000;
    let ghost s = signals@;

    let mut debug_count: usize = 0;
    let mut saves: usize = 0;
    let mut days14: Vec<String> = Vec::new();
    let mut days30: Vec<String> = Vec::new();
    let mut langs: Vec<String> = Vec::new();
    let mut i: usize = 0;
    while i < signals.len()
        invariant
            i <= s.len(),
            s == signals@,
            thirty_days_ago == now_ms - thirty_days_ms(),
            fourteen_days_ago == now_ms - fourteen_days_ms(),
            debug_count == count_kind(s.take(i as int), thirty_days_ago as int, "debug_started"@),
            saves == count_kind(s.take(i as int), thirty_days_ago as int, "file_saved"@),
            debug_count <= i,
            saves <= i,
            views(days14@).no_duplicates(),
            views(days30@).no_duplicates(),
            views(langs@).no_duplicates(),
            view_set(days14@) == active_days(s.take(i as int), fourteen_days_ago as int),
            view_set(days30@) == active_days(s.take(i as int), thirty_days_ago as int),
            view_set(langs@) == languages(s.take(i as int), thirty_days_ago as int),
        decreases s.len() - i,
    {
        assert(s.take(i + 1).drop_last() =~= s.take(i as int));
        assert(s.take(i + 1).last() == s[i as int]);
        let sig = &signals[i];
        let at = sig.created_at;
        if at >= thirty_days_ago {
            let debug_started = owned("debug_started");
            let file_saved = owned("file_saved");
            if sig.signal_type == debug_started {
                debug_count = debug_count + 1;
            }
            if sig.signal_type == file_saved {
                saves = saves + 1;
            }
            match &sig.language {
                Some(l) => {
                    if l.as_str().unicode_len() > 0 {
                        add_distinct(&mut langs, l.clone());
                    }
                },
                None => {},
            }
        }
        if at >= fourteen_days_ago || at >= thirty_days_ago {
            match day_key(at) {
                Some(k) => {
                    if at >= fourteen_days_ago {
                        add_distinct(&mut days14, k.clone());
                    }
                    if at >= thirty_days_ago {
                        add_distinct(&mut days30, k);
                    }
                },
                None => {},
            }
        }
        i = i + 1;
    }
    assert(s.take(s.len() as int) =~= s);
    proof {
        lemma_distinct_len(days14@);
        lemma_distinct_len(days30@);
        lemma_distinct_len(langs@);
    }

    let total_tasks = tasks.len();
    let done_tasks = tasks_with_status(tasks, "done");
    proof {
        lemma_count_status_bound(tasks@, "done"@);
    }

    let debugging: i64 = if debug_count >= 10 {
        100
    } else {
        debug_count as i64 * 10
    };
    let execution: i64 = if total_tasks > 0 {
        let q: u128 = (done_tasks as u128) * 100 / (total_tasks as u128);
        assert(q <= 100) by (nonlinear_arith)
            requires
                q as int == (done_tasks as int) * 100 / (total_tasks as int),
                done_tasks <= total_tasks,
                total_tasks > 0,
        ;
        q as i64
    } else {
        50
    };
    let n14 = days14.len();
    let consistency: i64 = if n14 >= 14 {
        assert(n14 * 100 / 14 >= 100) by (nonlinear_arith)
            requires
                n14 >= 14,
        ;
        100
    } else {
        (n14 as i64 * 100) / 14
    };
    let nl = langs.len();
    let breadth: i64 = if nl >= 7 {
        100
    } else {
        nl as i64 * 15
    };
    let n30 = days30.len();
    let days_count: usize = if n30 > 1 {
        n30
    } else {
        1
    };
    let spd: usize = saves / days_count;
    let productivity: i64 = if spd >= 10 {
        100
    } else {
        spd as i64 * 10
    };

    let mut r: Vec<(String, i64, String)> = Vec::new();
    r.push((owned("debugging"), debugging, concat(usize_to_decimal(debug_count).as_str(), " debug sessions (30d)")));
    let mut ex = usize_to_decimal(done_tasks);
    ex.append("/");
    ex.append(usize_to_decimal(total_tasks).as_str());
    ex.append(" tasks done");
    r.push((owned("execution"), execution, ex));
    r.push((owned("consistency"), consistency, concat(usize_to_decimal(n14).as_str(), "/14 active days")));
    r.push((owned("breadth"), breadth, concat(usize_to_decimal(nl).as_str(), " languages")));
    r.push((owned("productivity"), productivity, concat(usize_to_decimal(spd).as_str(), " saves/active day")));
    proof {
        let spec = raw_scores(signals@, tasks@, now_ms as int);
        assert(triple_view(r@[0]) == spec[0]);
        assert(triple_view(r@[1]) == spec[1]);
        assert(triple_view(r@[2]) == spec[2]);
        assert(triple_view(r@[3]) == spec[3]);
        assert(triple_view(r@[4]) == spec[4]);
    }
    r
}

/// Index of the highest score; the last one among equals (as `Iterator::max_by_key`).
pub open spec fn last_max_index(s: Seq<CapabilityScore>) -> int
    decreases s.len(),
{
    if s.len() <= 1 {
        0
    } else {
        let p = last_max_index(s.drop_last());
        if s.last().score >= s[p].score {
            s.len() - 1
        } else {
            p
        }
    }
}

/// Index of the lowest score; the first one among equals (as `Iterator::min_by_key`).
pub open spec fn first_min_index(s: Seq<CapabilityScore>) -> int
    decreases s.len(),
{
    if s.len() <= 1 {
        0
    } else {
        let p = first_min_index(s.drop_last());
        if s.last().score < s[p].score {
            s.len() - 1
        } else {
            p
        }
    }
}

pub open spec fn skill_and_score(c: CapabilityScore) -> Seq<char> {
    c.skill@ + " ("@ + signed_decimal(c.score as int) + "/100)"@
}

/// The template narrative used when no AI provider answers.
pub open spec fn offline_narrative_text(s: Seq<CapabilityScore>) -> Seq<char> {
    if s.len() == 0 {
        "No capability data available yet."@
    } else {
        let b = s[last_max_index(s)];
        let w = s[first_min_index(s)];
        if b.skill@ != w.skill@ {
            "Your strongest area is "@ + skill_and_score(b) + ". Consider investing more time in "@
                + skill_and_score(w) + " to grow more evenly. Keep shipping!"@
        } else {
            "Your strongest area is "@ + skill_and_score(b) + ". Keep building!"@
        }
    }
}

/// The strongest skill has the highest score and the weakest the lowest.
pub proof fn lemma_best_and_weakest(s: Seq<CapabilityScore>)
    requires
        s.len() > 0,
    ensures
        0 <= last_max_index(s) < s.len(),
        0 <= first_min_index(s) < s.len(),
        forall|i: int| 0 <= i < s.len() ==> (#[trigger] s[i]).score <= s[last_max_index(s)].score,
        forall|i: int| 0 <= i < s.len() ==> s[first_min_index(s)].score <= (#[trigger] s[i]).score,
    decreases s.len(),
{
    if s.len() > 1 {
        lemma_best_and_weakest(s.drop_last());
        assert forall|i: int| 0 <= i < s.len() - 1 implies s[i] == s.drop_last()[i] by {}
    }
}

/// The strongest index holds the highest score and no later score equals it; the weakest
/// index holds the lowest score and no earlier score equals it.
pub proof fn lemma_extreme_positions(s: Seq<CapabilityScore>)
    requires
        s.len() > 0,
    ensures
        is_last_max(s, last_max_index(s)),
        is_first_min(s, first_min_index(s)),
        forall|k: int| last_max_index(s) < k < s.len() ==> (#[trigger] s[k]).score < s[last_max_index(s)].score,
        forall|k: int| 0 <= k < first_min_index(s) ==> (#[trigger] s[k]).score > s[first_min_index(s)].score,
    decreases s.len(),
{
    lemma_best_and_weakest(s);
    if s.len() > 1 {
        let t = s.drop_last();
        lemma_extreme_positions(t);
        lemma_best_and_weakest(t);
        assert forall|i: int| 0 <= i < s.len() - 1 implies s[i] == t[i] by {}
    }
}

/// `b` holds the highest score of the list and no later score equals it.
pub open spec fn is_last_max(s: Seq<CapabilityScore>, b: int) -> bool {
    &&& 0 <= b < s.len()
    &&& forall|k: int| 0 <= k < s.len() ==> (#[trigger] s[k]).score <= s[b].score
    &&& forall|k: int| b < k < s.len() ==> (#[trigger] s[k]).score < s[b].score
}

/// `w` holds the lowest score of the list and no earlier score equals it.
pub open spec fn is_first_min(s: Seq<CapabilityScore>, w: int) -> bool {
    &&& 0 <= w < s.len()
    &&& forall|k: int| 0 <= k < s.len() ==> s[w].score <= (#[trigger] s[k]).score
    &&& forall|k: int| 0 <= k < w ==> (#[trigger] s[k]).score > s[w].score
}

/// The offline narrative names as strongest the skill with the highest score of the whole
/// list (the last one among equals) and, when it is another skill, as the one to invest in
/// the skill with the lowest score of the whole list (the first one among equals).
pub proof fn lemma_offline_narrative_names_extremes(s: Seq<CapabilityScore>, b: int, w: int)
    requires
        is_last_max(s, b),
        is_first_min(s, w),
    ensures
        offline_narrative_text(s) == (if s[b].skill@ != s[w].skill@ {
            "Your strongest area is "@ + skill_and_score(s[b]) + ". Consider investing more time in "@
                + skill_and_score(s[w]) + " to grow more evenly. Keep shipping!"@
        } else {
            "Your strongest area is "@ + skill_and_score(s[b]) + ". Keep building!"@
        }),
{
    lemma_best_and_weakest(s);
    lemma_extreme_positions(s);
    let b0 = last_max_index(s);
    let w0 = first_min_index(s);
    if b != b0 {
        assert(s[b].score == s[b0].score);
        if b < b0 {
            assert(s[b0].score < s[b].score);
        } else {
            assert(s[b].score < s[b0].score);
        }
    }
    if w != w0 {
        assert(s[w].score == s[w0].score);
        if w < w0 {
            assert(s[w].score > s[w0].score);
        } else {
            assert(s[w0].score > s[w].score);
        }
    }
}

fn skill_and_score_text(c: &CapabilityScore) -> (r: String)
    ensures
        r@ == skill_and_score(*c),
{
    let mut r = concat(c.skill.as_str(), " (");
    r.append(i64_to_decimal(c.score).as_str());
    r.append("/100)");
    r
}

/// The narrative of the scores when no AI provider is reachable.
pub fn offline_narrative(scores: &Vec<CapabilityScore>) -> (r: String)
    ensures
        r@ == offline_narrative_text(scores@),
{
    if scores.len() == 0 {
        return owned("No capability data available yet.");
    }
    let ghost s = scores@;
    let mut best: usize = 0;
    let mut weakest: usize = 0;
    let mut i: usize = 1;
    while i < scores.len()
        invariant
            1 <= i <= s.len(),
            s == scores@,
            best == last_max_index(s.take(i as int)),
            weakest == first_min_index(s.take(i as int)),
            best < i,
            weakest < i,
        decreases s.len() - i,
    {
        assert(s.take(i + 1).drop_last() =~= s.take(i as int));
        if scores[i].score >= scores[best].score {
            best = i;
        }
        if scores[i].score < scores[weakest].score {
            weakest = i;
        }
        i = i + 1;
    }
    assert(s.take(s.len() as int) =~= s);
    let b = &scores[best];
    let w = &scores[weakest];
    if b.skill != w.skill {
        let mut r = concat("Your strongest area is ", skill_and_score_text(b).as_str());
        r.append(". Consider investing more time in ");
        r.append(skill_and_score_text(w).as_str());
        r.append(" to grow more evenly. Keep shipping!");
        r
    } else {
        let mut r = concat("Your strongest area is ", skill_and_score_text(b).as_str());
        r.append(". Keep building!");
        r
    }
}

/// The answer when no score has been computed yet.
pub open spec fn no_scores_text() -> Seq<char> {
    "No capability data yet. Write some code, run debug sessions, and complete tasks to build your capability profile."@
}

pub fn no_scores_message() -> (r: String)
    ensures
        r@ == no_scores_text(),
{
    owned(
        "No capability data yet. Write some code, run debug sessions, and \
         complete tasks to build your capability profile.",
    )
}

pub open spec fn score_line(c: CapabilityScore) -> Seq<char> {
    "- "@ + c.skill@ + ": "@ + signed_decimal(c.score as int) + "/100"@
}

pub open spec fn narrative_prompt_text(s: Seq<CapabilityScore>) -> Seq<char> {
    "You are an AI mentor analyzing a developer's recent activity. Based on these skill scores (0-100), write 2-3 short sentences: highlight the top strength, note one growth area, give one specific tip. Be encouraging and personal. Max 80 words.\n\nScores:\n"@
        + joined(s.map_values(|c: CapabilityScore| score_line(c)), "\n"@)
}

/// The prompt that asks the AI for a narrative of the scores.
pub fn narrative_prompt(scores: &Vec<CapabilityScore>) -> (r: String)
    ensures
        r@ == narrative_prompt_text(scores@),
{
    let mut lines: Vec<String> = Vec::new();
    let mut i: usize = 0;
    while i < scores.len()
        invariant
            i <= scores@.len(),
            views(lines@) == scores@.take(i as int).map_values(|c: CapabilityScore| score_line(c)),
        decreases scores.len() - i,
    {
        let c = &scores[i];
        let mut line = concat("- ", c.skill.as_str());
        line.append(": ");
        line.append(i64_to_decimal(c.score).as_str());
        line.append("/100");
        let ghost before = lines@;
        lines.push(line);
        assert(views(lines@) =~= views(before).push(line@));
        assert(scores@.take(i + 1).map_values(|c: CapabilityScore| score_line(c)) =~= scores@.take(
            i as int,
        ).map_values(|c: CapabilityScore| score_line(c)).push(score_line(scores@[i as int])));
        i = i + 1;
    }
    assert(scores@.take(scores@.len() as int) =~= scores@);
    let joined_lines = join(&lines, "\n");
    concat(
        "You are an AI mentor analyzing a developer's recent activity. \
         Based on these skill scores (0-100), write 2-3 short sentences: \
         highlight the top strength, note one growth area, give one specific tip. \
         Be encouraging and personal. Max 80 words.\n\nScores:\n",
        joined_lines.as_str(),
    )
}

/// Adds one streamed item to the text gathered so far; returns whether to stop reading.
/// A chunk adds its content and stops on the final chunk; an error stops with nothing added.
pub fn collect_chunk(acc: &mut String, item: &Result<StreamChunk, ProviderError>) -> (stop: bool)
    ensures
        match item {
            Ok(c) => final(acc)@ == old(acc)@ + c.content@ && stop == c.done,
            Err(_) => final(acc)@ == old(acc)@ && stop,
        },
{
    match item {
        Ok(c) => {
            acc.append(c.content.as_str());
            c.done
        },
        Err(_) => true,
    }
}

/// The narrative to return: the trimmed AI text when the AI answered with some text
/// (`answer` is what the stream gave, `None` when the AI could not be reached),
/// the offline template otherwise.
pub open spec fn narrative_choice(answer: Option<Seq<char>>, s: Seq<CapabilityScore>) -> Seq<char> {
    match answer {
        Some(a) => if trimmed(a).len() == 0 {
            offline_narrative_text(s)
        } else {
            trimmed(a)
        },
        None => offline_narrative_text(s),
    }
}

pub fn choose_narrative(answer: Option<&str>, scores: &Vec<CapabilityScore>) -> (r: String)
    ensures
        r@ == narrative_choice(
            match answer {
                Some(a) => Some(a@),
                None => None,
            },
            scores@,
        ),
        r@.len() > 0,
{
    proof {
        lemma_offline_narrative_nonempty(scores@);
    }
    match answer {
        Some(a) => {
            let t = trim(a);
            if t.as_str().unicode_len() == 0 {
                offline_narrative(scores)
            } else {
                t
            }
        },
        None => offline_narrative(scores),
    }
}

proof fn lemma_offline_narrative_nonempty(s: Seq<CapabilityScore>)
    ensures
        offline_narrative_text(s).len() > 0,
{
    reveal_strlit("No capability data available yet.");
    reveal_strlit("Your strongest area is ");
}

} // verus!
