//! Tasks, and the capability gates in front of them.
//!
//! A task belongs to an entity; reading or writing an entity's task list
//! requires the corresponding capability, checked against the caller's
//! granted patterns before any store is touched.

use vstd::prelude::*;
use vstd::string::StringExecFns;

use crate::api_response::ApiError;
use crate::capability;
use crate::iam::AuthenticatableEntity;
use crate::session::mint_token;

verus! {

/// The body of a task-creation request.
pub struct CreateTaskRB {
    pub description: String,
}

/// A task: owned by an entity, described, completed or not, under a
/// unique id.
#[derive(Clone)]
pub struct Task {
    pub owner: String,
    pub id: String,
    pub description: String,
    pub completed: bool,
}

/// The mathematical value of a task.
pub struct TaskView {
    pub owner: Seq<char>,
    pub id: Seq<char>,
    pub description: Seq<char>,
    pub completed: bool,
}

impl View for Task {
    type V = TaskView;

    open spec fn view(&self) -> TaskView {
        TaskView {
            owner: self.owner@,
            id: self.id@,
            description: self.description@,
            completed: self.completed,
        }
    }
}

/// A list of tasks, as a query returns it.
pub struct TaskList {
    pub tasks: Vec<Task>,
}

/// The capability required to write the task list of `entity`.
pub open spec fn task_write_capability_spec(entity: Seq<char>) -> Seq<char> {
    "nys:tasker:"@ + entity + ":TaskList:Write"@
}

/// The capability required to read the task list of `entity`.
pub open spec fn task_read_capability_spec(entity: Seq<char>) -> Seq<char> {
    "nys:tasker:"@ + entity + ":TaskList:Read"@
}

/// Builds the write capability text for `entity`.
pub fn task_write_capability(entity: &str) -> (r: String)
    ensures
        r@ == task_write_capability_spec(entity@),
{
    let mut s = String::from_str("nys:tasker:");
    s.append(entity);
    s.append(":TaskList:Write");
    s
}

/// Builds the read capability text for `entity`.
pub fn task_read_capability(entity: &str) -> (r: String)
    ensures
        r@ == task_read_capability_spec(entity@),
{
    let mut s = String::from_str("nys:tasker:");
    s.append(entity);
    s.append(":TaskList:Read");
    s
}

/// The authorization check in front of task creation: the caller must
/// hold the write capability on `entity`'s task list.
pub fn authorize_task_write(ae: &AuthenticatableEntity, entity: &str) -> (r: Result<(), ApiError>)
    ensures
        ({
            let rsegs = capability::split_term(task_write_capability_spec(entity@));
            &&& rsegs.len() != 5 ==> (r matches Err(e) && e == ApiError::MalformedCapability)
            &&& rsegs.len() == 5 && capability::authorize_spec(rsegs, ae@.permissions) ==> r is Ok
            &&& rsegs.len() == 5 && !capability::authorize_spec(rsegs, ae@.permissions) ==> (
            r matches Err(e) && e == ApiError::NoMatchingPrivilege)
        }),
{
    ae.assert_privilege(task_write_capability(entity))
}

/// The authorization check in front of task-list reads: the caller must
/// hold the read capability on `entity`'s task list.
pub fn authorize_task_read(ae: &AuthenticatableEntity, entity: &str) -> (r: Result<(), ApiError>)
    ensures
        ({
            let rsegs = capability::split_term(task_read_capability_spec(entity@));
            &&& rsegs.len() != 5 ==> (r matches Err(e) && e == ApiError::MalformedCapability)
            &&& rsegs.len() == 5 && capability::authorize_spec(rsegs, ae@.permissions) ==> r is Ok
            &&& rsegs.len() == 5 && !capability::authorize_spec(rsegs, ae@.permissions) ==> (
            r matches Err(e) && e == ApiError::NoMatchingPrivilege)
        }),
{
    ae.assert_privilege(task_read_capability(entity))
}

/// A freshly created task: owned by `owner`, described by `description`,
/// not yet completed, under a newly minted unique id in the 36-character
/// token form.
pub fn new_task(owner: String, description: String) -> (t: Task)
    ensures
        t@.owner == owner@,
        t@.description == description@,
        t@.completed == false,
        t@.id.len() == 36,
{
    let id = mint_token();
    Task { owner, id, description, completed: false }
}

} // verus!
