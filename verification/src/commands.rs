//! What a user can ask for: a new job of each kind, and the three ways to
//! steer a job that runs.

use crate::error::{ApiError, ApiErrorView, ErrorKind, JobError, JobErrorView};
use crate::github::{merge_request, plain_result, GithubClient};
use crate::http::{HttpRequest, HttpRequestView};
use crate::jules::{resume_session_request, send_activity_request, JulesClient};
use crate::registry::JobRegistry;
use crate::remote_engine::{RemoteJob, RemoteJobView, RemoteStageView};
use crate::engine::result_view;
use crate::scaffold_engine::{ScaffoldJob, ScaffoldStageView};
use crate::ssh_utils::random_token;
use crate::types::{AgentMode, JobState, JobStateView, JobStatus};
use crate::uplink_engine::{
    parse_repo_url, repo_of_url, UplinkJob, UplinkJobView, UplinkStageView,
};
use vstd::prelude::*;
use vstd::string::StringExecFns;

verus! {

/// How often a random id is drawn for a new job before an id is made up
/// from the registry itself.
pub const MAX_ID_DRAWS: u32 = 4;

/// Why a job was not accepted.
#[derive(Clone, Copy, Debug, PartialEq, Eq, Structural)]
pub enum SubmitError {
    /// No credential for the source-control host is at hand.
    GithubNotAuthenticated,
    /// No credential for the agent service is at hand.
    GoogleNotAuthenticated,
    /// The registry holds a job under the id already.
    JobIdTaken,
}

impl SubmitError {
    /// A missing credential is an authentication failure; an id that is
    /// taken is a configuration failure.
    pub open spec fn spec_kind(self) -> ErrorKind {
        match self {
            SubmitError::JobIdTaken => ErrorKind::ConfigurationError,
            _ => ErrorKind::AuthenticationError,
        }
    }

    /// The line that describes the refusal.
    pub open spec fn description(self) -> Seq<char> {
        match self {
            SubmitError::GithubNotAuthenticated => "GitHub not authenticated"@,
            SubmitError::GoogleNotAuthenticated => "Google not authenticated"@,
            SubmitError::JobIdTaken => "Job id already in use"@,
        }
    }

    /// The kind of the refusal.
    pub fn kind(&self) -> (r: ErrorKind)
        ensures
            r == self.spec_kind(),
    {
        match self {
            SubmitError::JobIdTaken => ErrorKind::ConfigurationError,
            _ => ErrorKind::AuthenticationError,
        }
    }

    /// The line that describes the refusal.
    pub fn describe(&self) -> (r: String)
        ensures
            r@ == self.description(),
    {
        match self {
            SubmitError::GithubNotAuthenticated => "GitHub not authenticated".to_owned(),
            SubmitError::GoogleNotAuthenticated => "Google not authenticated".to_owned(),
            SubmitError::JobIdTaken => "Job id already in use".to_owned(),
        }
    }
}

/// Why a job is refused, where it is: a credential is missing, the one for
/// the source-control host first, or else the id is taken.
pub open spec fn refusal(gh_token: Option<String>, google_token: Option<String>, id_taken: bool)
    -> Option<SubmitError> {
    if gh_token is None {
        Some(SubmitError::GithubNotAuthenticated)
    } else if google_token is None {
        Some(SubmitError::GoogleNotAuthenticated)
    } else if id_taken {
        Some(SubmitError::JobIdTaken)
    } else {
        None
    }
}

/// An id for a new job that is free in the registry. Random ids are drawn,
/// at most [`MAX_ID_DRAWS`] times, and the first that is free is taken;
/// should none be, the id is the one that [`JobRegistry::free_id`] makes
/// up. Which id comes back rests on chance; that it is free does not.
pub fn fresh_job_id(registry: &JobRegistry) -> (r: String)
    ensures
        !registry@.contains_key(r@),
{
    let mut draws: u32 = 0;
    while draws < MAX_ID_DRAWS
        invariant
            draws <= MAX_ID_DRAWS,
        decreases MAX_ID_DRAWS - draws,
    {
        let id = random_token();
        if !registry.contains(id.as_str()) {
            return id;
        }
        draws += 1;
    }
    registry.free_id()
}

fn credentials(gh_token: Option<String>, google_token: Option<String>, id_taken: bool) -> (r:
    Result<(String, String), SubmitError>)
    ensures
        match r {
            Ok((gh, google)) => refusal(gh_token, google_token, id_taken) is None && gh_token
                == Some(gh) && google_token == Some(google),
            Err(e) => refusal(gh_token, google_token, id_taken) == Some(e),
        },
{
    let gh = match gh_token {
        Some(token) => token,
        None => {
            return Err(SubmitError::GithubNotAuthenticated);
        },
    };
    let google = match google_token {
        Some(token) => token,
        None => {
            return Err(SubmitError::GoogleNotAuthenticated);
        },
    };
    if id_taken {
        return Err(SubmitError::JobIdTaken);
    }
    Ok((gh, google))
}

/// The record with which a job enters the registry.
pub open spec fn first_record(id: Seq<char>, github_repo: Seq<char>, status: JobStatus)
    -> JobStateView {
    JobStateView { id, github_repo, jules_session_id: None, status, last_poll: None }
}

/// Accepts a scaffold job under the id `job_id`. Both credentials must be at
/// hand and the id must be free. The job is entered in the registry at
/// status `Booting`, with the repository it is expected to create, and
/// returned ready to begin. A job that is refused leaves the registry as it
/// is.
pub fn submit_scaffold_job(
    registry: &mut JobRegistry,
    job_id: String,
    name: String,
    recipe_id: String,
    context: String,
    mode: AgentMode,
    gh_token: Option<String>,
    google_token: Option<String>,
    environment_host: String,
) -> (r: Result<ScaffoldJob, SubmitError>)
    ensures
        match r {
            Ok(job) => refusal(gh_token, google_token, old(registry)@.contains_key(job_id@))
                is None && final(registry)@ == old(registry)@.insert(
                job_id@,
                first_record(job_id@, "user/"@ + name@, JobStatus::Booting),
            ) && job@.stage == ScaffoldStageView::Submitted && job@.wf() && job@.data.job_id
                == job_id@ && job@.data.name == name@ && job@.data.recipe_id == recipe_id@
                && job@.data.context == context@ && job@.data.mode == mode && job@.data.gh_token
                == gh_token->0@ && job@.data.google_token == google_token->0@
                && job@.data.environment_host == environment_host@,
            Err(e) => refusal(gh_token, google_token, old(registry)@.contains_key(job_id@))
                == Some(e) && final(registry)@ == old(registry)@,
        },
{
    let taken = registry.contains(job_id.as_str());
    let (gh, google) = match credentials(gh_token, google_token, taken) {
        Ok(pair) => pair,
        Err(e) => {
            return Err(e);
        },
    };
    let mut repo = "user/".to_owned();
    repo.append(name.as_str());
    registry.insert(JobState::new(job_id.clone(), repo, JobStatus::Booting));
    Ok(ScaffoldJob::new(job_id, name, recipe_id, context, mode, gh, google, environment_host))
}

/// Accepts a scaffold job under a fresh id: see [`submit_scaffold_job`] and
/// [`fresh_job_id`]. Returns the id with the job. The job is accepted
/// exactly where both credentials are at hand. The id is one that the
/// registry did not hold, so no job that was accepted before loses its
/// record.
pub fn start_scaffold_job(
    registry: &mut JobRegistry,
    name: String,
    recipe_id: String,
    context: String,
    mode: AgentMode,
    gh_token: Option<String>,
    google_token: Option<String>,
    environment_host: String,
) -> (r: Result<(String, ScaffoldJob), SubmitError>)
    ensures
        match r {
            Ok((job_id, job)) => refusal(gh_token, google_token, false) is None
                && !old(registry)@.contains_key(job_id@) && final(registry)@
                == old(registry)@.insert(
                job_id@,
                first_record(job_id@, "user/"@ + name@, JobStatus::Booting),
            ) && job@.stage == ScaffoldStageView::Submitted && job@.wf() && job@.data.job_id
                == job_id@ && job@.data.name == name@ && job@.data.recipe_id == recipe_id@
                && job@.data.context == context@ && job@.data.mode == mode && job@.data.gh_token
                == gh_token->0@ && job@.data.google_token == google_token->0@
                && job@.data.environment_host == environment_host@,
            Err(e) => refusal(gh_token, google_token, false) == Some(e) && final(registry)@
                == old(registry)@,
        },
        refusal(gh_token, google_token, false) is None ==> r is Ok,
{
    let job_id = fresh_job_id(registry);
    match submit_scaffold_job(
        registry,
        job_id.clone(),
        name,
        recipe_id,
        context,
        mode,
        gh_token,
        google_token,
        environment_host,
    ) {
        Ok(job) => Ok((job_id, job)),
        Err(e) => Err(e),
    }
}

/// Accepts an uplink job under the id `job_id`. Both credentials must be at
/// hand and the id must be free. The job is entered in the registry at
/// status `Booting`, with the address of its repository, and returned ready
/// to begin. A job that is refused leaves the registry as it is.
pub fn submit_uplink_job(
    registry: &mut JobRegistry,
    job_id: String,
    repo_url: String,
    context: String,
    mode: AgentMode,
    gh_token: Option<String>,
    google_token: Option<String>,
) -> (r: Result<UplinkJob, SubmitError>)
    ensures
        match r {
            Ok(job) => refusal(gh_token, google_token, old(registry)@.contains_key(job_id@))
                is None && final(registry)@ == old(registry)@.insert(
                job_id@,
                first_record(job_id@, repo_url@, JobStatus::Booting),
            ) && job@ == (UplinkJobView {
                job_id: job_id@,
                repo_url: repo_url@,
                context: context@,
                mode,
                gh_token: gh_token->0@,
                google_token: google_token->0@,
                owner: Seq::empty(),
                repo: Seq::empty(),
                stage: UplinkStageView::Submitted,
            }),
            Err(e) => refusal(gh_token, google_token, old(registry)@.contains_key(job_id@))
                == Some(e) && final(registry)@ == old(registry)@,
        },
{
    let taken = registry.contains(job_id.as_str());
    let (gh, google) = match credentials(gh_token, google_token, taken) {
        Ok(pair) => pair,
        Err(e) => {
            return Err(e);
        },
    };
    registry.insert(JobState::new(job_id.clone(), repo_url.clone(), JobStatus::Booting));
    Ok(UplinkJob::new(job_id, repo_url, context, mode, gh, google))
}

/// Accepts an uplink job under a fresh id: see [`submit_uplink_job`] and
/// [`fresh_job_id`]. Returns the id with the job. The job is accepted
/// exactly where both credentials are at hand. The id is one that the
/// registry did not hold, so no job that was accepted before loses its
/// record.
pub fn start_uplink_job(
    registry: &mut JobRegistry,
    repo_url: String,
    context: String,
    mode: AgentMode,
    gh_token: Option<String>,
    google_token: Option<String>,
) -> (r: Result<(String, UplinkJob), SubmitError>)
    ensures
        match r {
            Ok((job_id, job)) => refusal(gh_token, google_token, false) is None
                && !old(registry)@.contains_key(job_id@) && final(registry)@
                == old(registry)@.insert(
                job_id@,
                first_record(job_id@, repo_url@, JobStatus::Booting),
            ) && job@ == (UplinkJobView {
                job_id: job_id@,
                repo_url: repo_url@,
                context: context@,
                mode,
                gh_token: gh_token->0@,
                google_token: google_token->0@,
                owner: Seq::empty(),
                repo: Seq::empty(),
                stage: UplinkStageView::Submitted,
            }),
            Err(e) => refusal(gh_token, google_token, false) == Some(e) && final(registry)@
                == old(registry)@,
        },
        refusal(gh_token, google_token, false) is None ==> r is Ok,
{
    let job_id = fresh_job_id(registry);
    match submit_uplink_job(
        registry,
        job_id.clone(),
        repo_url,
        context,
        mode,
        gh_token,
        google_token,
    ) {
        Ok(job) => Ok((job_id, job)),
        Err(e) => Err(e),
    }
}

/// Accepts a remote job under the id `job_id`. The credential for the agent
/// service must be at hand and the id must be free. The job is entered in
/// the registry at status `Booting`, with the address of its repository,
/// and returned ready to begin. A job that is refused leaves the registry
/// as it is.
pub fn submit_remote_job(
    registry: &mut JobRegistry,
    job_id: String,
    repo_url: String,
    host: String,
    port: u16,
    username: String,
    private_key: String,
    context: String,
    mode: AgentMode,
    google_token: Option<String>,
) -> (r: Result<RemoteJob, SubmitError>)
    ensures
        match r {
            Ok(job) => google_token is Some && !old(registry)@.contains_key(job_id@)
                && final(registry)@ == old(registry)@.insert(
                job_id@,
                first_record(job_id@, repo_url@, JobStatus::Booting),
            ) && job@ == (RemoteJobView {
                job_id: job_id@,
                repo_url: repo_url@,
                host: host@,
                port,
                username: username@,
                private_key: private_key@,
                public_key: Seq::empty(),
                context: context@,
                mode,
                google_token: google_token->0@,
                stage: RemoteStageView::Submitted,
            }),
            Err(e) => final(registry)@ == old(registry)@ && (if google_token is None {
                e == SubmitError::GoogleNotAuthenticated
            } else {
                old(registry)@.contains_key(job_id@) && e == SubmitError::JobIdTaken
            }),
        },
{
    let google = match google_token {
        Some(token) => token,
        None => {
            return Err(SubmitError::GoogleNotAuthenticated);
        },
    };
    if registry.contains(job_id.as_str()) {
        return Err(SubmitError::JobIdTaken);
    }
    registry.insert(JobState::new(job_id.clone(), repo_url.clone(), JobStatus::Booting));
    Ok(
        RemoteJob::new(
            job_id,
            repo_url,
            host,
            port,
            username,
            private_key,
            context,
            mode,
            google,
        ),
    )
}

/// Accepts a remote job under a fresh id: see [`submit_remote_job`] and
/// [`fresh_job_id`]. Returns the id with the job. The job is accepted
/// exactly where the credential for the agent service is at hand. The id is
/// one that the registry did not hold.
pub fn start_remote_job(
    registry: &mut JobRegistry,
    repo_url: String,
    host: String,
    port: u16,
    username: String,
    private_key: String,
    context: String,
    mode: AgentMode,
    google_token: Option<String>,
) -> (r: Result<(String, RemoteJob), SubmitError>)
    ensures
        match r {
            Ok((job_id, job)) => google_token is Some && !old(registry)@.contains_key(job_id@)
                && final(registry)@ == old(registry)@.insert(
                job_id@,
                first_record(job_id@, repo_url@, JobStatus::Booting),
            ) && job@ == (RemoteJobView {
                job_id: job_id@,
                repo_url: repo_url@,
                host: host@,
                port,
                username: username@,
                private_key: private_key@,
                public_key: Seq::empty(),
                context: context@,
                mode,
                google_token: google_token->0@,
                stage: RemoteStageView::Submitted,
            }),
            Err(e) => google_token is None && e == SubmitError::GoogleNotAuthenticated
                && final(registry)@ == old(registry)@,
        },
        google_token is Some ==> r is Ok,
{
    let job_id = fresh_job_id(registry);
    match submit_remote_job(
        registry,
        job_id.clone(),
        repo_url,
        host,
        port,
        username,
        private_key,
        context,
        mode,
        google_token,
    ) {
        Ok(job) => Ok((job_id, job)),
        Err(e) => Err(e),
    }
}

/// Why a running job could not be steered.
#[derive(Clone, Copy, Debug, PartialEq, Eq, Structural)]
pub enum ControlError {
    /// The registry holds no job under the id.
    UnknownJob,
    /// The job has no agent session yet.
    NoSession,
    /// The record of the job names no repository.
    NoRepository,
}

/// The request that steers the session of a job, where the job is known
/// and has a session.
pub open spec fn session_of(jobs: Map<Seq<char>, JobStateView>, job_id: Seq<char>) -> Result<
    Seq<char>,
    ControlError,
> {
    if !jobs.contains_key(job_id) {
        Err(ControlError::UnknownJob)
    } else {
        match jobs[job_id].jules_session_id {
            None => Err(ControlError::NoSession),
            Some(session_id) => Ok(session_id),
        }
    }
}

/// The content of a request that may have been refused.
pub open spec fn request_result(r: Result<HttpRequest, ControlError>) -> Result<
    HttpRequestView,
    ControlError,
> {
    match r {
        Ok(request) => Ok(request@),
        Err(e) => Err(e),
    }
}

fn session_id_of(registry: &JobRegistry, job_id: &str) -> (r: Result<String, ControlError>)
    ensures
        match r {
            Ok(id) => session_of(registry@, job_id@) == Ok::<Seq<char>, ControlError>(id@),
            Err(e) => session_of(registry@, job_id@) == Err::<Seq<char>, ControlError>(e),
        },
{
    match registry.get(job_id) {
        None => Err(ControlError::UnknownJob),
        Some(state) => match &state.jules_session_id {
            None => Err(ControlError::NoSession),
            Some(session_id) => Ok(session_id.clone()),
        },
    }
}

/// Builds the request that approves the plan of a job: the approval goes
/// to the agent session that the registry holds for the job.
pub fn approve_agent_plan(registry: &JobRegistry, jules: &JulesClient, job_id: &str) -> (r: Result<
    HttpRequest,
    ControlError,
>)
    ensures
        request_result(r) == match session_of(registry@, job_id@) {
            Ok(session_id) => Ok(resume_session_request(jules@, session_id)),
            Err(e) => Err(e),
        },
{
    match session_id_of(registry, job_id) {
        Ok(session_id) => Ok(jules.resume_session_request(session_id.as_str())),
        Err(e) => Err(e),
    }
}

/// Builds the request that sends feedback on the plan of a job to its
/// agent session.
pub fn refine_agent_plan(
    registry: &JobRegistry,
    jules: &JulesClient,
    job_id: &str,
    feedback: &str,
) -> (r: Result<HttpRequest, ControlError>)
    ensures
        request_result(r) == match session_of(registry@, job_id@) {
            Ok(session_id) => Ok(send_activity_request(jules@, session_id, feedback@)),
            Err(e) => Err(e),
        },
{
    match session_id_of(registry, job_id) {
        Ok(session_id) => Ok(jules.send_activity_request(session_id.as_str(), feedback)),
        Err(e) => Err(e),
    }
}

/// The repository of a job, where the job is known and its record names
/// one: as `owner/name`, or as an address whose path ends in owner and
/// name.
pub open spec fn repository_of(jobs: Map<Seq<char>, JobStateView>, job_id: Seq<char>) -> Result<
    (Seq<char>, Seq<char>),
    ControlError,
> {
    if !jobs.contains_key(job_id) {
        Err(ControlError::UnknownJob)
    } else {
        match repo_of_url(jobs[job_id].github_repo) {
            None => Err(ControlError::NoRepository),
            Some(pair) => Ok(pair),
        }
    }
}

/// Builds the request that merges a pull request of a job, in the
/// repository that the registry holds for the job.
pub fn merge_pull_request(
    registry: &JobRegistry,
    gh: &GithubClient,
    job_id: &str,
    pull_number: u64,
) -> (r: Result<HttpRequest, ControlError>)
    ensures
        request_result(r) == match repository_of(registry@, job_id@) {
            Ok((owner, repo)) => Ok(merge_request(gh@, owner, repo, pull_number)),
            Err(e) => Err(e),
        },
{
    match registry.get(job_id) {
        None => Err(ControlError::UnknownJob),
        Some(state) => match parse_repo_url(state.github_repo.as_str()) {
            Err(_) => Err(ControlError::NoRepository),
            Ok((owner, repo)) => Ok(
                gh.merge_pull_request_request(owner.as_str(), repo.as_str(), pull_number),
            ),
        },
    }
}

/// What steering a session came to: a request that did not succeed is a
/// `SessionControlError`.
pub open spec fn steered(r: Result<(), ApiErrorView>) -> Result<(), JobErrorView> {
    match r {
        Ok(_) => Ok(()),
        Err(e) => Err(JobErrorView::SessionControlError(e)),
    }
}

/// Reads from the reply whether an approval or a feedback was accepted.
pub fn session_control_result(r: Result<(), ApiError>) -> (out: Result<(), JobError>)
    ensures
        result_view(out) == steered(plain_result(r)),
{
    match r {
        Ok(_) => Ok(()),
        Err(e) => Err(JobError::SessionControlError(e)),
    }
}

} // verus!
