use vstd::prelude::*;

verus! {

/// The workflow state of a task.
#[derive(Debug, Clone, Copy, PartialEq, Eq, Structural)]
pub enum TaskStatus {
    Pending,
    Active,
    Waiting,
    Done,
    Deleted,
}

/// The text under which a status is stored in the task table.
pub open spec fn status_text_spec(status: TaskStatus) -> Seq<char> {
    match status {
        TaskStatus::Pending => "pending"@,
        TaskStatus::Active => "active"@,
        TaskStatus::Waiting => "waiting"@,
        TaskStatus::Done => "done"@,
        TaskStatus::Deleted => "deleted"@,
    }
}

/// The status that a stored text stands for: each of the five stored texts
/// gives its own status, and any other text is read as `Pending`.
pub open spec fn parse_status_spec(text: Seq<char>) -> TaskStatus {
    if text == "active"@ {
        TaskStatus::Active
    } else if text == "waiting"@ {
        TaskStatus::Waiting
    } else if text == "done"@ {
        TaskStatus::Done
    } else if text == "deleted"@ {
        TaskStatus::Deleted
    } else {
        TaskStatus::Pending
    }
}

/// Whether two strings hold the same characters.
pub fn same_text(a: &str, b: &str) -> (same: bool)
    ensures
        same == (a@ == b@),
{
    a.to_owned() == b.to_owned()
}

/// The text under which `status` is stored in the task table.
pub fn task_status_text(status: TaskStatus) -> (text: &'static str)
    ensures
        text@ == status_text_spec(status),
{
    match status {
        TaskStatus::Pending => "pending",
        TaskStatus::Active => "active",
        TaskStatus::Waiting => "waiting",
        TaskStatus::Done => "done",
        TaskStatus::Deleted => "deleted",
    }
}

/// Reads a stored status text; text that names no status is read as `Pending`.
pub fn parse_task_status(value: &str) -> (status: TaskStatus)
    ensures
        status == parse_status_spec(value@),
{
    proof {
        lemma_status_text_roundtrip(TaskStatus::Pending);
    }
    if same_text(value, "pending") {
        TaskStatus::Pending
    } else if same_text(value, "active") {
        TaskStatus::Active
    } else if same_text(value, "waiting") {
        TaskStatus::Waiting
    } else if same_text(value, "done") {
        TaskStatus::Done
    } else if same_text(value, "deleted") {
        TaskStatus::Deleted
    } else {
        TaskStatus::Pending
    }
}

/// Reading back the stored text of a status gives that status.
pub proof fn lemma_status_text_roundtrip(status: TaskStatus)
    ensures
        parse_status_spec(status_text_spec(status)) == status,
{
    reveal_strlit("pending");
    reveal_strlit("active");
    reveal_strlit("waiting");
    reveal_strlit("done");
    reveal_strlit("deleted");
    assert("pending"@[0] != "active"@[0]);
    assert("pending"@[0] != "waiting"@[0]);
    assert("pending"@[0] != "done"@[0]);
    assert("pending"@[0] != "deleted"@[0]);
    assert("active"@[0] != "waiting"@[0]);
    assert("active"@[0] != "done"@[0]);
    assert("active"@[0] != "deleted"@[0]);
    assert("waiting"@[0] != "done"@[0]);
    assert("waiting"@[0] != "deleted"@[0]);
    assert("done"@[1] != "deleted"@[1]);
}

/// Two statuses are stored under the same text only if they are the same.
pub proof fn lemma_status_text_injective(a: TaskStatus, b: TaskStatus)
    requires
        status_text_spec(a) == status_text_spec(b),
    ensures
        a == b,
{
    lemma_status_text_roundtrip(a);
    lemma_status_text_roundtrip(b);
}

} // verus!
