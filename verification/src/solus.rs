//! System operations: resource allocation and task monitoring.
//!
//! The manager here is a stand-in for a real scheduler: it acknowledges
//! every request with a report naming the task, so callers and their
//! pipelines can be exercised end to end.

use vstd::prelude::*;
use vstd::string::StringExecFns;

verus! {

/// The report produced for a resource allocation.
pub open spec fn spec_allocation_report(task_id: Seq<char>, requirements: Seq<char>) -> Seq<char> {
    "Mock resources allocated for task "@ + task_id + " with requirements: "@ + requirements
}

/// The report produced for a status query.
pub open spec fn spec_status_report(task_id: Seq<char>) -> Seq<char> {
    "Mock status for task "@ + task_id + ": Running"@
}

/// Management of system resources and tasks.
pub trait SystemOperations {
    /// Reserves resources for `task_id` according to `requirements` and
    /// reports what was allocated.
    fn allocate_resources(&self, task_id: &str, requirements: &str) -> (r: Result<String, String>)
        ensures
            r matches Ok(s) && s@ == spec_allocation_report(task_id@, requirements@),
    ;

    /// Reports the current status of `task_id`.
    fn monitor_task_status(&self, task_id: &str) -> (r: Result<String, String>)
        ensures
            r matches Ok(s) && s@ == spec_status_report(task_id@),
    ;
}

/// The production operations manager.
pub struct SolusManager;

impl SystemOperations for SolusManager {
    fn allocate_resources(&self, task_id: &str, requirements: &str) -> (r: Result<String, String>) {
        let mut s = "Mock resources allocated for task ".to_owned();
        s.append(task_id);
        s.append(" with requirements: ");
        s.append(requirements);
        Ok(s)
    }

    fn monitor_task_status(&self, task_id: &str) -> (r: Result<String, String>) {
        let mut s = "Mock status for task ".to_owned();
        s.append(task_id);
        s.append(": Running");
        Ok(s)
    }
}

} // verus!
