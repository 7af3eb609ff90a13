//! Task services: payload conversion at the acceptance boundary.

use vstd::prelude::*;
use crate::dto::task_dto::{task_dto_parses, TaskDTO};
use crate::errors::Error;
use crate::factories::task_factory::sample_task_for_dto;
use crate::task::Task;

verus! {

/// Convert a wire payload into a task; the payload is accepted exactly
/// when every identifier and date in it parses.
pub fn create_task(payload: TaskDTO) -> (r: Result<Task, Error>)
    ensures
        r is Ok <==> task_dto_parses(payload),
{
    payload.to_task()
}

/// Placeholder listing: sample payloads, until a repository is wired in.
pub fn get_all_tasks() -> (r: Vec<TaskDTO>)
    ensures
        r@.len() == 6,
{
    let mut r: Vec<TaskDTO> = Vec::new();
    let mut j: usize = 0;
    while j < 6
        invariant
            j <= 6,
            r@.len() == j,
        decreases 6 - j,
    {
        let t = sample_task_for_dto();
        r.push(TaskDTO::from_task(&t));
        j += 1;
    }
    r
}

} // verus!
