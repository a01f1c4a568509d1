use vstd::prelude::*;

verus! {

/// Background tasks that are still active.
pub struct TasksSegment;

/// How many of `statuses` are exactly `which`.
pub open spec fn count_status(statuses: Seq<Option<String>>, which: Seq<char>) -> nat
    decreases statuses.len(),
{
    if statuses.len() == 0 {
        0
    } else {
        count_status(statuses.drop_last(), which) + match statuses.last() {
            Some(s) => if s@ == which {
                1nat
            } else {
                0nat
            },
            None => 0nat,
        }
    }
}

proof fn lemma_status_names_distinct()
    ensures
        "pending"@ != "in_progress"@,
        "pending"@ != "completed"@,
        "in_progress"@ != "completed"@,
{
    reveal_strlit("pending");
    reveal_strlit("in_progress");
    reveal_strlit("completed");
    assert("pending"@.len() != "in_progress"@.len());
    assert("pending"@.len() != "completed"@.len());
    assert("in_progress"@.len() != "completed"@.len());
}

proof fn lemma_counts_bounded(statuses: Seq<Option<String>>)
    ensures
        count_status(statuses, "pending"@) + count_status(statuses, "in_progress"@) + count_status(
            statuses,
            "completed"@,
        ) <= statuses.len(),
    decreases statuses.len(),
{
    lemma_status_names_distinct();
    if statuses.len() > 0 {
        lemma_counts_bounded(statuses.drop_last());
    }
}

/// Counts the task files by status: `(pending, in_progress, completed)`.
/// Each entry is the `status` of one task file; other statuses count nowhere.
pub fn count_tasks(statuses: &Vec<Option<String>>) -> (r: (usize, usize, usize))
    ensures
        r.0 == count_status(statuses@, "pending"@),
        r.1 == count_status(statuses@, "in_progress"@),
        r.2 == count_status(statuses@, "completed"@),
        r.0 + r.1 + r.2 <= statuses@.len() <= usize::MAX,
{
    let pending_name = String::from_str("pending");
    let in_progress_name = String::from_str("in_progress");
    let completed_name = String::from_str("completed");
    let mut pending: usize = 0;
    let mut in_progress: usize = 0;
    let mut completed: usize = 0;
    let n = statuses.len();
    for i in 0..n
        invariant
            n == statuses@.len(),
            pending_name@ == "pending"@,
            in_progress_name@ == "in_progress"@,
            completed_name@ == "completed"@,
            pending == count_status(statuses@.take(i as int), "pending"@),
            in_progress == count_status(statuses@.take(i as int), "in_progress"@),
            completed == count_status(statuses@.take(i as int), "completed"@),
    {
        proof {
            lemma_counts_bounded(statuses@.take(i as int));
            assert(statuses@.take(i + 1).drop_last() =~= statuses@.take(i as int));
            assert(statuses@.take(i + 1).last() == statuses@[i as int]);
            lemma_status_names_distinct();
        }
        if let Some(s) = &statuses[i] {
            if *s == pending_name {
                pending = pending + 1;
            } else if *s == in_progress_name {
                in_progress = in_progress + 1;
            } else if *s == completed_name {
                completed = completed + 1;
            }
        }
    }
    assert(statuses@.take(n as int) =~= statuses@);
    proof {
        lemma_counts_bounded(statuses@);
    }
    (pending, in_progress, completed)
}

/// Number of nanoseconds in an hour.
pub const HOUR_NANOS: u128 = 3_600_000_000_000;

/// Whether a task directory last changed at `modified` (nanoseconds since the
/// epoch; `None` when unknown) counts at `now`: unknown times count, known
/// ones only when no more than an hour old.
pub open spec fn is_recent(modified: Option<u128>, now: u128) -> bool {
    match modified {
        Some(t) => t + HOUR_NANOS >= now,
        None => true,
    }
}

/// Whether a task directory is recent enough to count: see `is_recent`.
pub fn task_dir_is_recent(modified: Option<u128>, now: u128) -> (r: bool)
    ensures
        r == is_recent(modified, now),
{
    match modified {
        Some(t) => now <= HOUR_NANOS || t >= now - HOUR_NANOS,
        None => true,
    }
}

impl TasksSegment {
    /// The number of active (pending and in-progress) tasks among the task
    /// files of the recent task directories; `None` when there is no home
    /// directory to look in.
    pub fn active_count(&self, statuses: &Option<Vec<Option<String>>>) -> (r: Option<usize>)
        ensures
            match *statuses {
                Some(v) => r == Some((count_status(v@, "pending"@) + count_status(v@, "in_progress"@)) as usize),
                None => r is None,
            },
    {
        match statuses {
            Some(v) => {
                let (pending, in_progress, _) = count_tasks(v);
                Some(pending + in_progress)
            },
            None => None,
        }
    }
}

/// Completed tasks are never active: recording one more completed task
/// changes neither the pending nor the in-progress count.
pub proof fn law_completed_not_active(statuses: Seq<Option<String>>, done: String)
    requires
        done@ == "completed"@,
    ensures
        count_status(statuses.push(Some(done)), "pending"@) == count_status(statuses, "pending"@),
        count_status(statuses.push(Some(done)), "in_progress"@) == count_status(statuses, "in_progress"@),
        count_status(statuses.push(Some(done)), "completed"@) == count_status(statuses, "completed"@) + 1,
{
    lemma_status_names_distinct();
    assert(statuses.push(Some(done)).drop_last() =~= statuses);
}

} // verus!
