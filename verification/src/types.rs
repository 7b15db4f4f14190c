//! The vocabulary shared by every pipeline: statuses, job records and the
//! update events that observers receive.

use vstd::prelude::*;

verus! {

/// Where a job stands in its pipeline.
///
/// The variants are listed in pipeline order. `Booting` and `Generating`
/// belong to provisioning; the others are reached by every kind of job.
#[derive(Clone, Copy, Debug, PartialEq, Eq, Structural)]
pub enum JobStatus {
    Booting,
    Generating,
    UploadingContext,
    Planning,
    WaitingApproval,
    Working,
    PrReady,
    Merged,
}

impl JobStatus {
    /// True for the two statuses after which nothing more is polled.
    pub open spec fn is_final(self) -> bool {
        self == JobStatus::PrReady || self == JobStatus::Merged
    }

    /// Position of the status in pipeline order, starting at 0.
    pub open spec fn spec_rank(self) -> nat {
        match self {
            JobStatus::Booting => 0,
            JobStatus::Generating => 1,
            JobStatus::UploadingContext => 2,
            JobStatus::Planning => 3,
            JobStatus::WaitingApproval => 4,
            JobStatus::Working => 5,
            JobStatus::PrReady => 6,
            JobStatus::Merged => 7,
        }
    }

    /// Tells whether the job has produced its result: a pull request is
    /// ready, or the work is merged.
    pub fn is_terminal(&self) -> (r: bool)
        ensures
            r == self.is_final(),
    {
        match self {
            JobStatus::PrReady => true,
            JobStatus::Merged => true,
            _ => false,
        }
    }

    /// Position of the status in pipeline order, starting at 0.
    pub fn rank(&self) -> (r: u8)
        ensures
            r == self.spec_rank(),
            r < 8,
    {
        match self {
            JobStatus::Booting => 0,
            JobStatus::Generating => 1,
            JobStatus::UploadingContext => 2,
            JobStatus::Planning => 3,
            JobStatus::WaitingApproval => 4,
            JobStatus::Working => 5,
            JobStatus::PrReady => 6,
            JobStatus::Merged => 7,
        }
    }
}

/// Whether the agent may go ahead by itself or must wait for a human to
/// approve its plan.
#[derive(Clone, Copy, Debug, PartialEq, Eq, Structural)]
pub enum AgentMode {
    Auto,
    Interactive,
}

impl AgentMode {
    /// True exactly for `Interactive`.
    pub fn requires_approval(&self) -> (r: bool)
        ensures
            r == (*self == AgentMode::Interactive),
    {
        match self {
            AgentMode::Interactive => true,
            AgentMode::Auto => false,
        }
    }
}

/// A pull request that a job produced.
#[derive(Clone, Debug)]
pub struct PrDetails {
    pub number: u64,
    pub url: String,
    pub title: String,
}

/// Mathematical content of a [`PrDetails`].
pub struct PrDetailsView {
    pub number: u64,
    pub url: Seq<char>,
    pub title: Seq<char>,
}

impl View for PrDetails {
    type V = PrDetailsView;

    open spec fn view(&self) -> PrDetailsView {
        PrDetailsView { number: self.number, url: self.url@, title: self.title@ }
    }
}

impl PrDetails {
    /// A copy with the same content.
    pub fn duplicate(&self) -> (r: PrDetails)
        ensures
            r@ == self@,
    {
        PrDetails { number: self.number, url: self.url.clone(), title: self.title.clone() }
    }
}

/// The content of an optional pull request.
pub open spec fn pr_view(pr: Option<PrDetails>) -> Option<PrDetailsView> {
    match pr {
        Some(p) => Some(p@),
        None => None,
    }
}

/// The registry's record of one job.
#[derive(Clone, Debug)]
pub struct JobState {
    pub id: String,
    /// `owner/name` of the repository the job works on.
    pub github_repo: String,
    /// Unset until the agent session has started.
    pub jules_session_id: Option<String>,
    pub status: JobStatus,
    /// Time of the last poll, in seconds, once there was one.
    pub last_poll: Option<u64>,
}

/// Mathematical content of a [`JobState`].
pub struct JobStateView {
    pub id: Seq<char>,
    pub github_repo: Seq<char>,
    pub jules_session_id: Option<Seq<char>>,
    pub status: JobStatus,
    pub last_poll: Option<u64>,
}

impl View for JobState {
    type V = JobStateView;

    open spec fn view(&self) -> JobStateView {
        JobStateView {
            id: self.id@,
            github_repo: self.github_repo@,
            jules_session_id: self.jules_session_id.deep_view(),
            status: self.status,
            last_poll: self.last_poll,
        }
    }
}

impl JobState {
    /// The record of a job that was just accepted: no session yet, never
    /// polled.
    pub fn new(id: String, github_repo: String, status: JobStatus) -> (r: JobState)
        ensures
            r@ == (JobStateView {
                id: id@,
                github_repo: github_repo@,
                jules_session_id: None,
                status,
                last_poll: None,
            }),
    {
        JobState { id, github_repo, jules_session_id: None, status, last_poll: None }
    }

    /// A copy with the same content.
    pub fn duplicate(&self) -> (r: JobState)
        ensures
            r@ == self@,
    {
        let session = match &self.jules_session_id {
            Some(s) => Some(s.clone()),
            None => None,
        };
        JobState {
            id: self.id.clone(),
            github_repo: self.github_repo.clone(),
            jules_session_id: session,
            status: self.status,
            last_poll: self.last_poll,
        }
    }
}

/// What observers are told after a stage: the job, its status, the lines
/// that the stage logged, and the pull request or the plan where there is
/// one.
#[derive(Clone, Debug)]
pub struct JobUpdateEvent {
    pub id: String,
    pub status: JobStatus,
    pub logs: Vec<String>,
    pub pr_details: Option<PrDetails>,
    pub plan: Option<String>,
}

/// Mathematical content of a [`JobUpdateEvent`].
pub struct JobUpdateEventView {
    pub id: Seq<char>,
    pub status: JobStatus,
    pub logs: Seq<Seq<char>>,
    pub pr_details: Option<PrDetailsView>,
    pub plan: Option<Seq<char>>,
}

impl View for JobUpdateEvent {
    type V = JobUpdateEventView;

    open spec fn view(&self) -> JobUpdateEventView {
        JobUpdateEventView {
            id: self.id@,
            status: self.status,
            logs: self.logs.deep_view(),
            pr_details: pr_view(self.pr_details),
            plan: self.plan.deep_view(),
        }
    }
}

/// The content of a list of events, in order.
pub open spec fn events_view(events: Seq<JobUpdateEvent>) -> Seq<JobUpdateEventView> {
    Seq::new(events.len(), |i: int| events[i]@)
}

/// An event that carries one log line and neither pull request nor plan.
pub open spec fn stage_event(id: Seq<char>, status: JobStatus, line: Seq<char>)
    -> JobUpdateEventView {
    JobUpdateEventView { id, status, logs: seq![line], pr_details: None, plan: None }
}

/// The line that closes the log of a job that failed.
pub open spec fn failure_sentinel() -> Seq<char> {
    "Job Failed."@
}

/// The event that reports a failure: the status the job had reached, the
/// description of the error, then the closing line.
pub open spec fn failure_event(id: Seq<char>, status: JobStatus, description: Seq<char>)
    -> JobUpdateEventView {
    JobUpdateEventView {
        id,
        status,
        logs: seq![description, failure_sentinel()],
        pr_details: None,
        plan: None,
    }
}

impl JobUpdateEvent {
    /// An event with one log line.
    pub fn stage(id: &str, status: JobStatus, line: &str) -> (r: JobUpdateEvent)
        ensures
            r@ == stage_event(id@, status, line@),
    {
        let mut logs: Vec<String> = Vec::new();
        logs.push(line.to_owned());
        let r = JobUpdateEvent { id: id.to_owned(), status, logs, pr_details: None, plan: None };
        assert(r@.logs =~= seq![line@]);
        r
    }

    /// The event that reports a failure at the given status.
    pub fn failure(id: &str, status: JobStatus, description: &str) -> (r: JobUpdateEvent)
        ensures
            r@ == failure_event(id@, status, description@),
    {
        let mut logs: Vec<String> = Vec::new();
        logs.push(description.to_owned());
        logs.push("Job Failed.".to_owned());
        let r = JobUpdateEvent { id: id.to_owned(), status, logs, pr_details: None, plan: None };
        assert(r@.logs =~= seq![description@, failure_sentinel()]);
        r
    }
}

/// Which of the two outside services a credential is at hand for.
#[derive(Clone, Copy, Debug, PartialEq, Eq, Structural)]
pub struct AuthState {
    pub github_authenticated: bool,
    pub google_authenticated: bool,
}

} // verus!
