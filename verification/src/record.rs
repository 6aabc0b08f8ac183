//! Lossless structured serialization of tasks: a task becomes a sequence
//! of field names paired with plain values, the user nested under dotted
//! names and the status carried as its variant name, and comes back from
//! such a record equal in every field.

use vstd::prelude::*;
use crate::task::{Task, TaskStatus};
use crate::user::User;

verus! {

/// A plain value in a serialized record.
#[derive(Debug)]
pub enum Value {
    /// A string field.
    Str(String),
    /// A timestamp in whole seconds.
    Num(i64),
    /// A 128-bit identifier.
    Id(u128),
}

/// The name under which each status variant is serialized: the variant's
/// own name, preserved exactly.
pub open spec fn status_name_spec(s: TaskStatus) -> Seq<char> {
    match s {
        TaskStatus::Done => "Done"@,
        TaskStatus::InProgress => "InProgress"@,
        TaskStatus::NotNeeded => "NotNeeded"@,
        TaskStatus::ReadyToStart => "ReadyToStart"@,
    }
}

/// Which status a serialized name denotes, if any.
pub open spec fn status_of_name_spec(n: Seq<char>) -> Option<TaskStatus> {
    if n == "Done"@ {
        Some(TaskStatus::Done)
    } else if n == "InProgress"@ {
        Some(TaskStatus::InProgress)
    } else if n == "NotNeeded"@ {
        Some(TaskStatus::NotNeeded)
    } else if n == "ReadyToStart"@ {
        Some(TaskStatus::ReadyToStart)
    } else {
        None
    }
}

/// True of two string slices with the same characters.
fn str_eq(a: &str, b: &str) -> (r: bool)
    ensures
        r == (a@ == b@),
{
    a.to_owned().eq(&b.to_owned())
}

impl TaskStatus {
    /// The variant's name.
    pub fn name(&self) -> (r: String)
        ensures
            r@ == status_name_spec(*self),
    {
        let s: &str = match self {
            TaskStatus::Done => "Done",
            TaskStatus::InProgress => "InProgress",
            TaskStatus::NotNeeded => "NotNeeded",
            TaskStatus::ReadyToStart => "ReadyToStart",
        };
        String::from_str(s)
    }

    /// Parses a variant name back into a status.
    pub fn from_name(n: &str) -> (r: Option<TaskStatus>)
        ensures
            r == status_of_name_spec(n@),
    {
        if str_eq(n, "Done") {
            Some(TaskStatus::Done)
        } else if str_eq(n, "InProgress") {
            Some(TaskStatus::InProgress)
        } else if str_eq(n, "NotNeeded") {
            Some(TaskStatus::NotNeeded)
        } else if str_eq(n, "ReadyToStart") {
            Some(TaskStatus::ReadyToStart)
        } else {
            None
        }
    }
}

/// The four variant names are pairwise distinct, so serializing a status
/// and parsing the name back always returns the very status.
pub proof fn lemma_status_name_round_trip(s: TaskStatus)
    ensures
        status_of_name_spec(status_name_spec(s)) == Some(s),
{
    reveal_strlit("Done");
    reveal_strlit("InProgress");
    reveal_strlit("NotNeeded");
    reveal_strlit("ReadyToStart");
    assert("Done"@.len() == 4);
    assert("InProgress"@.len() == 10);
    assert("NotNeeded"@.len() == 9);
    assert("ReadyToStart"@.len() == 12);
}

impl Task {
    /// The shape of the task's serialized record: ten fields, in order,
    /// each under its exact name, the user's fields under dotted names,
    /// the status under its variant name.
    pub open spec fn record_matches(self, r: Seq<(String, Value)>) -> bool {
        &&& r.len() == 10
        &&& r[0].0@ == "id"@ && r[0].1 == Value::Id(self.id)
        &&& r[1].0@ == "name"@ && r[1].1 == Value::Str(self.name)
        &&& r[2].0@ == "status"@ && (match r[2].1 {
            Value::Str(n) => n@ == status_name_spec(self.status),
            _ => false,
        })
        &&& r[3].0@ == "user.id"@ && r[3].1 == Value::Id(self.user.id)
        &&& r[4].0@ == "user.first_name"@ && r[4].1 == Value::Str(self.user.first_name)
        &&& r[5].0@ == "user.last_name"@ && r[5].1 == Value::Str(self.user.last_name)
        &&& r[6].0@ == "started_at"@ && r[6].1 == Value::Num(self.started_at)
        &&& r[7].0@ == "updated_at"@ && r[7].1 == Value::Num(self.updated_at)
        &&& r[8].0@ == "finished_at"@ && r[8].1 == Value::Num(self.finished_at)
        &&& r[9].0@ == "color"@ && r[9].1 == Value::Str(self.color)
    }

    /// Serializes the task into a structured record, exactly as
    /// `record_matches` describes it.
    pub fn to_record(&self) -> (r: Vec<(String, Value)>)
        ensures
            self.record_matches(r@),
    {
        let mut r: Vec<(String, Value)> = Vec::new();
        r.push((String::from_str("id"), Value::Id(self.id)));
        r.push((String::from_str("name"), Value::Str(self.name.clone())));
        r.push((String::from_str("status"), Value::Str(self.status.name())));
        r.push((String::from_str("user.id"), Value::Id(self.user.id)));
        r.push((String::from_str("user.first_name"), Value::Str(self.user.first_name.clone())));
        r.push((String::from_str("user.last_name"), Value::Str(self.user.last_name.clone())));
        r.push((String::from_str("started_at"), Value::Num(self.started_at)));
        r.push((String::from_str("updated_at"), Value::Num(self.updated_at)));
        r.push((String::from_str("finished_at"), Value::Num(self.finished_at)));
        r.push((String::from_str("color"), Value::Str(self.color.clone())));
        r
    }
}

/// A record that deserializes: the exact shape that `record_matches`
/// produces, with a status name that parses.
pub open spec fn record_wf(r: Seq<(String, Value)>) -> bool {
    &&& r.len() == 10
    &&& r[0].0@ == "id"@ && r[0].1 is Id
    &&& r[1].0@ == "name"@ && r[1].1 is Str
    &&& r[2].0@ == "status"@ && (match r[2].1 {
        Value::Str(n) => status_of_name_spec(n@) is Some,
        _ => false,
    })
    &&& r[3].0@ == "user.id"@ && r[3].1 is Id
    &&& r[4].0@ == "user.first_name"@ && r[4].1 is Str
    &&& r[5].0@ == "user.last_name"@ && r[5].1 is Str
    &&& r[6].0@ == "started_at"@ && r[6].1 is Num
    &&& r[7].0@ == "updated_at"@ && r[7].1 is Num
    &&& r[8].0@ == "finished_at"@ && r[8].1 is Num
    &&& r[9].0@ == "color"@ && r[9].1 is Str
}

/// The task a well-formed record denotes.
pub open spec fn task_of_record(r: Seq<(String, Value)>) -> Task {
    Task {
        id: r[0].1->Id_0,
        name: r[1].1->Str_0,
        status: status_of_name_spec(r[2].1->Str_0@)->Some_0,
        user: User {
            id: r[3].1->Id_0,
            first_name: r[4].1->Str_0,
            last_name: r[5].1->Str_0,
        },
        started_at: r[6].1->Num_0,
        updated_at: r[7].1->Num_0,
        finished_at: r[8].1->Num_0,
        color: r[9].1->Str_0,
    }
}

/// Deserializes a structured record back into a task: `Some` exactly on
/// well-formed records, and then the record's own task.
pub fn from_record(r: &Vec<(String, Value)>) -> (t: Option<Task>)
    ensures
        match t {
            Some(t) => record_wf(r@) && t == task_of_record(r@),
            None => !record_wf(r@),
        },
{
    if r.len() != 10 {
        return None;
    }
    if !str_eq(r[0].0.as_str(), "id") || !str_eq(r[1].0.as_str(), "name") || !str_eq(
        r[2].0.as_str(),
        "status",
    ) || !str_eq(r[3].0.as_str(), "user.id") || !str_eq(r[4].0.as_str(), "user.first_name")
        || !str_eq(r[5].0.as_str(), "user.last_name") || !str_eq(r[6].0.as_str(), "started_at")
        || !str_eq(r[7].0.as_str(), "updated_at") || !str_eq(r[8].0.as_str(), "finished_at")
        || !str_eq(r[9].0.as_str(), "color") {
        return None;
    }
    let id = match &r[0].1 {
        Value::Id(v) => *v,
        _ => { return None },
    };
    let name = match &r[1].1 {
        Value::Str(v) => v.clone(),
        _ => { return None },
    };
    let status = match &r[2].1 {
        Value::Str(n) => match TaskStatus::from_name(n.as_str()) {
            Some(s) => s,
            None => { return None },
        },
        _ => { return None },
    };
    let user_id = match &r[3].1 {
        Value::Id(v) => *v,
        _ => { return None },
    };
    let first_name = match &r[4].1 {
        Value::Str(v) => v.clone(),
        _ => { return None },
    };
    let last_name = match &r[5].1 {
        Value::Str(v) => v.clone(),
        _ => { return None },
    };
    let started_at = match &r[6].1 {
        Value::Num(v) => *v,
        _ => { return None },
    };
    let updated_at = match &r[7].1 {
        Value::Num(v) => *v,
        _ => { return None },
    };
    let finished_at = match &r[8].1 {
        Value::Num(v) => *v,
        _ => { return None },
    };
    let color = match &r[9].1 {
        Value::Str(v) => v.clone(),
        _ => { return None },
    };
    Some(
        Task {
            id,
            name,
            status,
            user: User { id: user_id, first_name, last_name },
            started_at,
            updated_at,
            finished_at,
            color,
        },
    )
}

/// Serialization is lossless: any record that reads as the serialization
/// of a task is well formed and denotes that very task, equal in all
/// fields.
pub proof fn lemma_record_round_trip(t: Task, r: Seq<(String, Value)>)
    requires
        t.record_matches(r),
    ensures
        record_wf(r),
        task_of_record(r) == t,
{
    lemma_status_name_round_trip(t.status);
}

} // verus!
