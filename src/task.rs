use vstd::prelude::*;

use crate::text::str_eq;

verus! {

/// What `str::to_lowercase` makes of a string.
pub uninterp spec fn lower_of(s: Seq<char>) -> Seq<char>;

/// What the `Debug` formatting of a string slice makes of it: the string quoted and escaped.
pub uninterp spec fn debug_of(s: Seq<char>) -> Seq<char>;

/// Relies on `str::to_lowercase`: the result depends on the characters alone.
#[verifier::external_body]
fn lowercase(s: &str) -> (r: String)
    ensures
        r@ == lower_of(s@),
{
    s.to_lowercase()
}

/// Relies on the `Debug` impl of `str` (through `format!`): the quoted, escaped form of `s`.
#[verifier::external_body]
fn debug_str(s: &str) -> (r: String)
    ensures
        r@ == debug_of(s@),
{
    format!("{:?}", s)
}

/// The operations the command line can ask for.
#[derive(Debug, Clone, Copy, PartialEq, Eq, Structural)]
pub enum Task {
    GetAllPipelines,
    GetLatestArtifacts,
    GetMe,
    ListAll,
    Trigger,
}

/// The lower-case keyword that names each task.
pub open spec fn task_keyword(t: Task) -> Seq<char> {
    match t {
        Task::GetAllPipelines => "get_all_pipelines"@,
        Task::GetLatestArtifacts => "get_latest_artifacts"@,
        Task::GetMe => "get_me"@,
        Task::ListAll => "list_all"@,
        Task::Trigger => "trigger"@,
    }
}

/// The task that a lower-case keyword names, if any.
pub open spec fn task_of_keyword(k: Seq<char>) -> Option<Task> {
    if k == "get_all_pipelines"@ {
        Some(Task::GetAllPipelines)
    } else if k == "get_latest_artifacts"@ {
        Some(Task::GetLatestArtifacts)
    } else if k == "get_me"@ {
        Some(Task::GetMe)
    } else if k == "trigger"@ {
        Some(Task::Trigger)
    } else if k == "list_all"@ {
        Some(Task::ListAll)
    } else {
        None
    }
}

/// The message of the error for an unrecognised task name `s`.
pub open spec fn unknown_task_message(s: Seq<char>) -> Seq<char> {
    "Unknown Task "@ + debug_of(s)
}

/// The error of a task name that names no task.
pub struct TaskParseStringError {
    pub message: String,
}

impl TaskParseStringError {
    /// The message, as text.
    pub fn to_string(&self) -> (r: String)
        ensures
            r@ == self.message@,
    {
        self.message.clone()
    }
}

impl Task {
    /// Picks the task named by `lowered`, the lower-cased form of `original`;
    /// the error quotes `original`.
    pub fn from_keyword(lowered: &str, original: &str) -> (r: Result<Task, TaskParseStringError>)
        ensures
            match r {
                Ok(t) => task_of_keyword(lowered@) == Some(t),
                Err(e) => task_of_keyword(lowered@) is None && e.message@
                    == unknown_task_message(original@),
            },
    {
        if str_eq(lowered, "get_all_pipelines") {
            Ok(Task::GetAllPipelines)
        } else if str_eq(lowered, "get_latest_artifacts") {
            Ok(Task::GetLatestArtifacts)
        } else if str_eq(lowered, "get_me") {
            Ok(Task::GetMe)
        } else if str_eq(lowered, "trigger") {
            Ok(Task::Trigger)
        } else if str_eq(lowered, "list_all") {
            Ok(Task::ListAll)
        } else {
            let quoted = debug_str(original);
            let message = String::from_str("Unknown Task ").concat(quoted.as_str());
            Err(TaskParseStringError { message })
        }
    }

    /// Parses a task name, ignoring case.
    pub fn from_str(s: &str) -> (r: Result<Task, TaskParseStringError>)
        ensures
            match r {
                Ok(t) => task_of_keyword(lower_of(s@)) == Some(t),
                Err(e) => task_of_keyword(lower_of(s@)) is None && e.message@
                    == unknown_task_message(s@),
            },
    {
        let lowered = lowercase(s);
        Task::from_keyword(lowered.as_str(), s)
    }
}

/// Each of the five tasks is recognised by its keyword, and a keyword names
/// no other task.
pub proof fn lemma_keywords_total(t: Task, k: Seq<char>)
    ensures
        task_of_keyword(task_keyword(t)) == Some(t),
        task_of_keyword(k) == Some(t) <==> k == task_keyword(t),
{
    reveal_strlit("get_all_pipelines");
    reveal_strlit("get_latest_artifacts");
    reveal_strlit("get_me");
    reveal_strlit("trigger");
    reveal_strlit("list_all");
    assert("get_all_pipelines"@.len() == 17);
    assert("get_latest_artifacts"@.len() == 20);
    assert("get_me"@.len() == 6);
    assert("trigger"@.len() == 7);
    assert("list_all"@.len() == 8);
}

/// Parsing ignores case: two names with the same lower-case form parse to
/// the same task, or both fail.
pub proof fn lemma_parse_ignores_case(a: Seq<char>, b: Seq<char>)
    requires
        lower_of(a) == lower_of(b),
    ensures
        task_of_keyword(lower_of(a)) == task_of_keyword(lower_of(b)),
{
}

} // verus!
