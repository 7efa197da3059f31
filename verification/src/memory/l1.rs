//! L1 entities: the normalized records that the engines read and write.
use vstd::prelude::*;

verus! {

#[derive(Debug, Clone)]
pub struct Conversation {
    pub id: String,
    pub project_id: Option<String>,
    pub title: Option<String>,
    pub created_at: i64,
    pub updated_at: i64,
}

#[derive(Debug, Clone)]
pub struct Message {
    pub id: String,
    pub conversation_id: String,
    pub role: String,
    pub content: String,
    pub model: Option<String>,
    pub provider: Option<String>,
    pub correlation_id: Option<String>,
    pub created_at: i64,
}

#[derive(Debug, Clone)]
pub struct Project {
    pub id: String,
    pub name: String,
    pub description: Option<String>,
    pub status: String,
    pub created_at: i64,
    pub updated_at: i64,
}

#[derive(Debug, Clone)]
pub struct Task {
    pub id: String,
    pub project_id: String,
    pub title: String,
    pub description: Option<String>,
    pub status: String,
    pub priority: i32,
    pub due_at: Option<i64>,
    pub created_at: i64,
    pub updated_at: i64,
}

/// A workflow signal from the editor. `payload` holds the JSON text of the payload.
#[derive(Debug, Clone)]
pub struct WorkflowSignal {
    pub id: String,
    pub project_id: Option<String>,
    pub signal_type: String,
    pub file_path: Option<String>,
    pub language: Option<String>,
    pub payload: String,
    pub source: String,
    pub created_at: i64,
}

/// A computed skill score (0-100). `basis` holds the JSON text of its basis.
#[derive(Debug, Clone)]
pub struct CapabilityScore {
    pub id: String,
    pub skill: String,
    pub score: i64,
    pub basis: String,
    pub project_id: Option<String>,
    pub computed_at: i64,
}

#[derive(Debug, Clone)]
pub struct Artifact {
    pub id: String,
    pub project_id: Option<String>,
    pub artifact_type: String,
    pub title: String,
    pub content: String,
    pub format: String,
    pub created_at: i64,
    pub updated_at: i64,
}

/// Number of tasks whose status is `status`.
pub open spec fn count_status(tasks: Seq<Task>, status: Seq<char>) -> nat
    decreases tasks.len(),
{
    if tasks.len() == 0 {
        0
    } else {
        count_status(tasks.drop_last(), status) + if tasks.last().status@ == status {
            1nat
        } else {
            0nat
        }
    }
}

pub proof fn lemma_count_status_bound(tasks: Seq<Task>, status: Seq<char>)
    ensures
        count_status(tasks, status) <= tasks.len(),
    decreases tasks.len(),
{
    if tasks.len() > 0 {
        lemma_count_status_bound(tasks.drop_last(), status);
    }
}

/// The tasks whose status is `status`, in order.
pub open spec fn tasks_in_status(tasks: Seq<Task>, status: Seq<char>) -> Seq<Task> {
    tasks.filter(status_is(status))
}

/// Whether a task has the status.
pub open spec fn status_is(status: Seq<char>) -> spec_fn(Task) -> bool {
    |t: Task| t.status@ == status
}

/// The count of tasks with a status is the number of those tasks.
pub proof fn lemma_count_status_is_filter(tasks: Seq<Task>, status: Seq<char>)
    ensures
        count_status(tasks, status) == tasks_in_status(tasks, status).len(),
    decreases tasks.len(),
{
    if tasks.len() > 0 {
        lemma_count_status_is_filter(tasks.drop_last(), status);
        reveal(Seq::filter);
        let pred = status_is(status);
        let sub = tasks.drop_last().filter(pred);
        assert(tasks.filter(pred) == (if pred(tasks.last()) {
            sub.push(tasks.last())
        } else {
            sub
        }));
        assert(tasks_in_status(tasks.drop_last(), status) == sub);
    }
}

/// Counts the tasks whose status is `status`.
pub fn tasks_with_status(tasks: &Vec<Task>, status: &str) -> (n: usize)
    ensures
        n == count_status(tasks@, status@),
{
    let target = String::from_str(status);
    let mut n: usize = 0;
    let mut i: usize = 0;
    while i < tasks.len()
        invariant
            i <= tasks@.len(),
            target@ == status@,
            n == count_status(tasks@.take(i as int), status@),
            n <= i,
        decreases tasks.len() - i,
    {
        assert(tasks@.take(i + 1).drop_last() =~= tasks@.take(i as int));
        if tasks[i].status == target {
            n = n + 1;
        }
        i = i + 1;
    }
    assert(tasks@.take(tasks@.len() as int) =~= tasks@);
    n
}

} // verus!
