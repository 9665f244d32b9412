//! Request and response shapes of the Scheduler endpoints.
use vstd::prelude::*;

verus! {

#[derive(Debug)]
pub struct SchedulerStatsResponse {
    /// Total job definitions
    pub total_jobs: i64,
    /// Active jobs
    pub active_jobs: i64,
    /// Total executions
    pub total_executions: i64,
    /// Successful executions
    pub successful_executions: i64,
    /// Failed executions
    pub failed_executions: i64,
}

#[derive(Debug)]
pub struct ExecutionsQuery {
    /// Filter by job ID
    pub job_id: Option<i64>,
}

} // verus!
