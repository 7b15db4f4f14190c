//! The pipeline that attaches an agent to an existing repository.

use crate::engine::{
    announcing, failing, optional_result_view, silent, watch_begin, watch_step, Command,
    CommandView, Outcome, OutcomeView, SessionWatch, SessionWatchView, Step, StepView,
};
use crate::error::{ApiErrorView, ApiOperation, ErrorKind, JobError, JobErrorView};
use crate::github::{
    check_access_request, file_revision, read_file_request, repo_accessible, write_file_request,
    GithubClient,
};
use crate::http::{is_success, reply_accepted, HttpOutcomeView};
use crate::jules::JulesClient;
use crate::text::{lemma_pieces_hold_no_separator, pieces, split, text_of, texts_view};
use crate::types::{
    failure_event, stage_event, AgentMode, JobStatus, JobUpdateEvent, JobUpdateEventView,
};
use vstd::prelude::*;
use vstd::string::StringExecFns;

verus! {

/// The pieces that are not empty, in order.
pub open spec fn nonempty(ps: Seq<Seq<char>>) -> Seq<Seq<char>>
    decreases ps.len(),
{
    if ps.len() == 0 {
        Seq::empty()
    } else if ps.last().len() > 0 {
        nonempty(ps.drop_last()).push(ps.last())
    } else {
        nonempty(ps.drop_last())
    }
}

/// The pieces of an address begin with a scheme and a host: a piece that
/// ends in `:`, an empty piece, and the host.
pub open spec fn has_scheme(ps: Seq<Seq<char>>) -> bool {
    ps.len() >= 3 && ps[0].len() > 0 && ps[0].last() == ':' && ps[1].len() == 0
}

/// The segments of the path of an address: the pieces between slashes that
/// are not empty, without scheme and host where the address has them.
pub open spec fn path_segments(url: Seq<char>) -> Seq<Seq<char>> {
    let ps = pieces(url, '/');
    if has_scheme(ps) {
        nonempty(ps.skip(3))
    } else {
        nonempty(ps)
    }
}

/// Owner and name of the repository that an address points to: the last
/// two segments of its path, where it has two.
pub open spec fn repo_of_url(url: Seq<char>) -> Option<(Seq<char>, Seq<char>)> {
    let segments = path_segments(url);
    if segments.len() >= 2 {
        Some((segments[segments.len() - 2], segments[segments.len() - 1]))
    } else {
        None
    }
}

/// What [`nonempty`] keeps is a piece of the list, and not an empty one.
pub proof fn lemma_nonempty_keeps_pieces(ps: Seq<Seq<char>>, i: int)
    requires
        0 <= i < nonempty(ps).len(),
    ensures
        nonempty(ps)[i].len() > 0,
        exists|k: int| 0 <= k < ps.len() && #[trigger] ps[k] == nonempty(ps)[i],
    decreases ps.len(),
{
    if ps.len() > 0 {
        let kept = nonempty(ps.drop_last());
        if ps.last().len() > 0 && i == kept.len() {
            assert(ps[ps.len() - 1] == nonempty(ps)[i]);
        } else {
            lemma_nonempty_keeps_pieces(ps.drop_last(), i);
            let k = choose|k: int|
                0 <= k < ps.drop_last().len() && #[trigger] ps.drop_last()[k] == kept[i];
            assert(ps[k] == nonempty(ps)[i]);
        }
    }
}

/// Owner and name, where an address has them, are segments of its path:
/// neither is empty and neither holds a slash.
pub proof fn lemma_repo_of_url_gives_segments(url: Seq<char>)
    requires
        repo_of_url(url) is Some,
    ensures
        ({
            let (owner, repo) = repo_of_url(url)->0;
            &&& owner.len() > 0
            &&& repo.len() > 0
            &&& forall|j: int| 0 <= j < owner.len() ==> owner[j] != '/'
            &&& forall|j: int| 0 <= j < repo.len() ==> repo[j] != '/'
        }),
{
    let ps = pieces(url, '/');
    let tail = if has_scheme(ps) {
        ps.skip(3)
    } else {
        ps
    };
    let segments = nonempty(tail);
    let (owner, repo) = repo_of_url(url)->0;
    lemma_nonempty_keeps_pieces(tail, segments.len() - 2);
    lemma_nonempty_keeps_pieces(tail, segments.len() - 1);
    let a = choose|k: int| 0 <= k < tail.len() && #[trigger] tail[k] == owner;
    let b = choose|k: int| 0 <= k < tail.len() && #[trigger] tail[k] == repo;
    let shift: int = if has_scheme(ps) {
        3
    } else {
        0
    };
    assert(ps[a + shift] == owner);
    assert(ps[b + shift] == repo);
    assert forall|j: int| 0 <= j < owner.len() implies owner[j] != '/' by {
        lemma_pieces_hold_no_separator(url, '/', a + shift, j);
    }
    assert forall|j: int| 0 <= j < repo.len() implies repo[j] != '/' by {
        lemma_pieces_hold_no_separator(url, '/', b + shift, j);
    }
}

/// Reads owner and name of a repository from its address. An address with
/// fewer than two path segments is refused with `InvalidRepoUrl`. Owner and
/// name are never empty and never hold a slash.
pub fn parse_repo_url(repo_url: &str) -> (r: Result<(String, String), JobError>)
    ensures
        match r {
            Ok((owner, repo)) => repo_of_url(repo_url@) == Some((owner@, repo@)) && owner@.len()
                > 0 && repo@.len() > 0 && !owner@.contains('/') && !repo@.contains('/'),
            Err(e) => repo_of_url(repo_url@) is None && e@ == JobErrorView::InvalidRepoUrl,
        },
{
    proof {
        if repo_of_url(repo_url@) is Some {
            lemma_repo_of_url_gives_segments(repo_url@);
        }
    }
    let parts = split(repo_url, '/');
    let ghost ps = texts_view(parts@);
    assert(ps.len() == parts@.len());
    let mut start: usize = 0;
    if parts.len() >= 3 {
        let first = &parts[0];
        assert(ps[0] == first@);
        assert(ps[1] == parts@[1]@);
        if first.len() > 0 && first[first.len() - 1] == ':' && parts[1].len() == 0 {
            start = 3;
        }
    }
    let ghost tail = ps.skip(start as int);
    proof {
        assert(ps == pieces(repo_url@, '/'));
        assert(ps.skip(0) =~= ps);
        assert(has_scheme(ps) <==> start == 3);
    }
    assert(path_segments(repo_url@) == nonempty(tail));
    let mut owner: Vec<char> = Vec::new();
    let mut repo: Vec<char> = Vec::new();
    let mut found: usize = 0;
    let mut i: usize = start;
    while i < parts.len()
        invariant
            start <= i <= parts.len(),
            ps == texts_view(parts@),
            ps.len() == parts@.len(),
            tail == ps.skip(start as int),
            found == nonempty(tail.take(i - start)).len(),
            found <= i - start,
            found >= 1 ==> repo@ == nonempty(tail.take(i - start)).last(),
            found >= 2 ==> owner@ == nonempty(tail.take(i - start))[found - 2],
        decreases parts.len() - i,
    {
        let ghost before = nonempty(tail.take(i - start));
        proof {
            let shorter = tail.take(i - start);
            let longer = tail.take(i - start + 1);
            assert(longer.drop_last() =~= shorter);
            assert(longer.last() == ps[i as int]);
            assert(ps[i as int] == parts@[i as int]@);
        }
        if parts[i].len() > 0 {
            owner = repo;
            repo = parts[i].clone();
            found = found + 1;
        }
        i += 1;
    }
    proof {
        assert(tail.take(i - start) =~= tail);
    }
    if found >= 2 {
        Ok((text_of(&owner), text_of(&repo)))
    } else {
        Err(JobError::InvalidRepoUrl)
    }
}

/// The file that holds the context of a job.
pub open spec fn context_file() -> Seq<char> {
    "AGENTS.md"@
}

/// How far an uplink job has come.
pub enum UplinkStage {
    Submitted,
    CheckingAccess,
    ReadingContext,
    WritingContext,
    Watching(SessionWatch),
    Failed(JobError),
}

/// Mathematical content of an [`UplinkStage`].
pub enum UplinkStageView {
    Submitted,
    CheckingAccess,
    ReadingContext,
    WritingContext,
    Watching(SessionWatchView),
    Failed(JobErrorView),
}

impl View for UplinkStage {
    type V = UplinkStageView;

    open spec fn view(&self) -> UplinkStageView {
        match self {
            UplinkStage::Submitted => UplinkStageView::Submitted,
            UplinkStage::CheckingAccess => UplinkStageView::CheckingAccess,
            UplinkStage::ReadingContext => UplinkStageView::ReadingContext,
            UplinkStage::WritingContext => UplinkStageView::WritingContext,
            UplinkStage::Watching(watch) => UplinkStageView::Watching(watch@),
            UplinkStage::Failed(e) => UplinkStageView::Failed(e@),
        }
    }
}

/// A job that attaches an agent to an existing repository.
pub struct UplinkJob {
    job_id: String,
    repo_url: String,
    context: String,
    mode: AgentMode,
    gh: GithubClient,
    google_token: String,
    owner: String,
    repo: String,
    stage: UplinkStage,
}

/// Mathematical content of an [`UplinkJob`].
pub struct UplinkJobView {
    pub job_id: Seq<char>,
    pub repo_url: Seq<char>,
    pub context: Seq<char>,
    pub mode: AgentMode,
    pub gh_token: Seq<char>,
    pub google_token: Seq<char>,
    pub owner: Seq<char>,
    pub repo: Seq<char>,
    pub stage: UplinkStageView,
}

impl View for UplinkJob {
    type V = UplinkJobView;

    closed spec fn view(&self) -> UplinkJobView {
        UplinkJobView {
            job_id: self.job_id@,
            repo_url: self.repo_url@,
            context: self.context@,
            mode: self.mode,
            gh_token: self.gh@,
            google_token: self.google_token@,
            owner: self.owner@,
            repo: self.repo@,
            stage: self.stage@,
        }
    }
}

impl UplinkJobView {
    /// The job at another stage.
    pub open spec fn at(self, stage: UplinkStageView) -> UplinkJobView {
        UplinkJobView { stage, ..self }
    }

    /// The result of the job, once it has ended.
    pub open spec fn result(self) -> Option<Result<(), JobErrorView>> {
        match self.stage {
            UplinkStageView::Failed(e) => Some(Err(e)),
            UplinkStageView::Watching(watch) => watch.result(),
            _ => None,
        }
    }

    /// The job stops with a failure that is reported at `status`.
    pub open spec fn fail(self, status: JobStatus, error: JobErrorView) -> (
        UplinkJobView,
        StepView,
    ) {
        (self.at(UplinkStageView::Failed(error)), failing(self.job_id, status, error))
    }

    /// The watch of the job, where it has one, is the watch of this job.
    pub open spec fn wf(self) -> bool {
        self.stage matches UplinkStageView::Watching(watch) ==> watch.job_id == self.job_id
    }

    /// The source that the agent session works on.
    pub open spec fn source(self) -> Seq<char> {
        "github.com/"@ + self.owner + "/"@ + self.repo
    }
}

/// The instruction that the agent gets in an uplink job.
pub open spec fn uplink_prompt() -> Seq<char> {
    "Read AGENTS.md and execute instructions."@
}

/// The message of the commit that writes the context.
pub open spec fn context_commit_message() -> Seq<char> {
    "Update AGENTS.md via Command Center"@
}

/// One step of an uplink job.
///
/// The job reads owner and name from the address, and ends at once, with
/// no event, where it has none. It then checks that the repository can be
/// reached, reads the revision of the context file, writes the file over
/// that revision, and hands over to the watch of the agent session. Each of
/// these stages ends the job where it fails, with one event that reports
/// the failure at the status reached. An outcome that answers no command
/// changes nothing.
pub open spec fn uplink_step(job: UplinkJobView, outcome: OutcomeView) -> (
    UplinkJobView,
    StepView,
) {
    match job.stage {
        UplinkStageView::Submitted => match outcome {
            OutcomeView::Begin => match repo_of_url(job.repo_url) {
                None => (
                    job.at(UplinkStageView::Failed(JobErrorView::InvalidRepoUrl)),
                    silent(CommandView::Finish),
                ),
                Some((owner, repo)) => (
                    UplinkJobView { owner, repo, stage: UplinkStageView::CheckingAccess, ..job },
                    announcing(
                        stage_event(
                            job.job_id,
                            JobStatus::Booting,
                            "Verifying repository access..."@,
                        ),
                        CommandView::Http(check_access_request(job.gh_token, owner, repo)),
                    ),
                ),
            },
            _ => (job, silent(CommandView::Pending)),
        },
        UplinkStageView::CheckingAccess => match outcome {
            OutcomeView::Http(reply) => match repo_accessible(reply) {
                Err(e) => job.fail(JobStatus::Booting, JobErrorView::Api(e)),
                Ok(false) => job.fail(JobStatus::Booting, JobErrorView::AccessDenied),
                Ok(true) => (
                    job.at(UplinkStageView::ReadingContext),
                    announcing(
                        stage_event(
                            job.job_id,
                            JobStatus::UploadingContext,
                            "Syncing AGENTS.md..."@,
                        ),
                        CommandView::Http(
                            read_file_request(job.gh_token, job.owner, job.repo, context_file()),
                        ),
                    ),
                ),
            },
            _ => (job, silent(CommandView::Pending)),
        },
        UplinkStageView::ReadingContext => match outcome {
            OutcomeView::Http(reply) => match file_revision(reply) {
                Err(e) => job.fail(JobStatus::UploadingContext, JobErrorView::Api(e)),
                Ok(sha) => (
                    job.at(UplinkStageView::WritingContext),
                    silent(
                        CommandView::Http(
                            write_file_request(
                                job.gh_token,
                                job.owner,
                                job.repo,
                                context_file(),
                                job.context,
                                context_commit_message(),
                                sha,
                            ),
                        ),
                    ),
                ),
            },
            _ => (job, silent(CommandView::Pending)),
        },
        UplinkStageView::WritingContext => match outcome {
            OutcomeView::Http(reply) => match reply_accepted(ApiOperation::WriteFile, reply) {
                Err(e) => job.fail(JobStatus::UploadingContext, JobErrorView::Api(e)),
                Ok(_) => {
                    let (watch, step) = watch_begin(
                        job.job_id,
                        job.google_token,
                        job.source(),
                        uplink_prompt(),
                        job.mode == AgentMode::Interactive,
                    );
                    (job.at(UplinkStageView::Watching(watch)), step)
                },
            },
            _ => (job, silent(CommandView::Pending)),
        },
        UplinkStageView::Watching(watch) => {
            let (next, step) = watch_step(watch, outcome);
            (job.at(UplinkStageView::Watching(next)), step)
        },
        UplinkStageView::Failed(_) => (job, silent(CommandView::Finish)),
    }
}

impl UplinkJob {
    /// A job that was accepted and has not begun.
    pub fn new(
        job_id: String,
        repo_url: String,
        context: String,
        mode: AgentMode,
        gh_token: String,
        google_token: String,
    ) -> (r: UplinkJob)
        ensures
            r@ == (UplinkJobView {
                job_id: job_id@,
                repo_url: repo_url@,
                context: context@,
                mode,
                gh_token: gh_token@,
                google_token: google_token@,
                owner: Seq::empty(),
                repo: Seq::empty(),
                stage: UplinkStageView::Submitted,
            }),
            r@.wf(),
    {
        UplinkJob {
            job_id,
            repo_url,
            context,
            mode,
            gh: GithubClient::new(gh_token),
            google_token,
            owner: String::new(),
            repo: String::new(),
            stage: UplinkStage::Submitted,
        }
    }

    /// The result of the job, once it has ended.
    pub fn result(&self) -> (r: Option<Result<(), JobError>>)
        ensures
            optional_result_view(r) == self@.result(),
    {
        match &self.stage {
            UplinkStage::Failed(e) => Some(Err(e.duplicate())),
            UplinkStage::Watching(watch) => watch.result(),
            _ => None,
        }
    }

    /// Tells whether a poll of the agent session is under way: what the job
    /// broadcasts next is then what that poll told.
    pub fn awaits_poll(&self) -> (r: bool)
        ensures
            r == (self@.stage matches UplinkStageView::Watching(watch) && watch.stage is Polling),
    {
        match &self.stage {
            UplinkStage::Watching(watch) => watch.is_polling(),
            _ => false,
        }
    }

    /// The id of the agent session; empty until the session has started.
    pub fn session_id(&self) -> (r: Option<&str>)
        ensures
            match r {
                Some(id) => self@.stage matches UplinkStageView::Watching(watch) && id@
                    == watch.session_id,
                None => !(self@.stage is Watching),
            },
    {
        match &self.stage {
            UplinkStage::Watching(watch) => Some(watch.session_id()),
            _ => None,
        }
    }

    fn fail(self, status: JobStatus, error: JobError) -> (r: (UplinkJob, Step))
        ensures
            (r.0@, r.1@) == self@.fail(status, error@),
    {
        let step = Step::failing(self.job_id.as_str(), status, &error);
        (
            UplinkJob {
                job_id: self.job_id,
                repo_url: self.repo_url,
                context: self.context,
                mode: self.mode,
                gh: self.gh,
                google_token: self.google_token,
                owner: self.owner,
                repo: self.repo,
                stage: UplinkStage::Failed(error),
            },
            step,
        )
    }

    fn pending(self) -> (r: (UplinkJob, Step))
        ensures
            (r.0@, r.1@) == (self@, silent(CommandView::Pending)),
    {
        (self, Step::silent(Command::Pending))
    }
}

/// Takes an uplink job one step further: see [`uplink_step`].
pub fn run_uplink_job(job: UplinkJob, outcome: Outcome) -> (r: (UplinkJob, Step))
    ensures
        (r.0@, r.1@) == uplink_step(job@, outcome@),
        job@.wf() ==> r.0@.wf(),
{
    let UplinkJob { job_id, repo_url, context, mode, gh, google_token, owner, repo, stage } = job;
    match stage {
        UplinkStage::Submitted => match outcome {
            Outcome::Begin => match parse_repo_url(repo_url.as_str()) {
                Err(e) => (
                    UplinkJob {
                        job_id,
                        repo_url,
                        context,
                        mode,
                        gh,
                        google_token,
                        owner,
                        repo,
                        stage: UplinkStage::Failed(e),
                    },
                    Step::silent(Command::Finish),
                ),
                Ok((parsed_owner, parsed_repo)) => {
                    let request = gh.check_repo_access_request(
                        parsed_owner.as_str(),
                        parsed_repo.as_str(),
                    );
                    let step = Step::announcing(
                        JobUpdateEvent::stage(
                            job_id.as_str(),
                            JobStatus::Booting,
                            "Verifying repository access...",
                        ),
                        Command::Http(request),
                    );
                    (
                        UplinkJob {
                            job_id,
                            repo_url,
                            context,
                            mode,
                            gh,
                            google_token,
                            owner: parsed_owner,
                            repo: parsed_repo,
                            stage: UplinkStage::CheckingAccess,
                        },
                        step,
                    )
                },
            },
            _ => UplinkJob {
                job_id,
                repo_url,
                context,
                mode,
                gh,
                google_token,
                owner,
                repo,
                stage: UplinkStage::Submitted,
            }.pending(),
        },
        UplinkStage::CheckingAccess => {
            let job = UplinkJob {
                job_id,
                repo_url,
                context,
                mode,
                gh,
                google_token,
                owner,
                repo,
                stage: UplinkStage::CheckingAccess,
            };
            match outcome {
                Outcome::Http(reply) => match job.gh.check_repo_access(&reply) {
                    Err(e) => job.fail(JobStatus::Booting, JobError::Api(e)),
                    Ok(false) => job.fail(JobStatus::Booting, JobError::AccessDenied),
                    Ok(true) => {
                        let request = job.gh.read_file_request(
                            job.owner.as_str(),
                            job.repo.as_str(),
                            "AGENTS.md",
                        );
                        let step = Step::announcing(
                            JobUpdateEvent::stage(
                                job.job_id.as_str(),
                                JobStatus::UploadingContext,
                                "Syncing AGENTS.md...",
                            ),
                            Command::Http(request),
                        );
                        (
                            UplinkJob {
                                job_id: job.job_id,
                                repo_url: job.repo_url,
                                context: job.context,
                                mode: job.mode,
                                gh: job.gh,
                                google_token: job.google_token,
                                owner: job.owner,
                                repo: job.repo,
                                stage: UplinkStage::ReadingContext,
                            },
                            step,
                        )
                    },
                },
                _ => job.pending(),
            }
        },
        UplinkStage::ReadingContext => {
            let job = UplinkJob {
                job_id,
                repo_url,
                context,
                mode,
                gh,
                google_token,
                owner,
                repo,
                stage: UplinkStage::ReadingContext,
            };
            match outcome {
                Outcome::Http(reply) => match job.gh.read_file_revision(&reply) {
                    Err(e) => job.fail(JobStatus::UploadingContext, JobError::Api(e)),
                    Ok(sha) => {
                        let request = job.gh.update_file_request(
                            job.owner.as_str(),
                            job.repo.as_str(),
                            "AGENTS.md",
                            job.context.as_str(),
                            "Update AGENTS.md via Command Center",
                            &sha,
                        );
                        (
                            UplinkJob {
                                job_id: job.job_id,
                                repo_url: job.repo_url,
                                context: job.context,
                                mode: job.mode,
                                gh: job.gh,
                                google_token: job.google_token,
                                owner: job.owner,
                                repo: job.repo,
                                stage: UplinkStage::WritingContext,
                            },
                            Step::silent(Command::Http(request)),
                        )
                    },
                },
                _ => job.pending(),
            }
        },
        UplinkStage::WritingContext => {
            let job = UplinkJob {
                job_id,
                repo_url,
                context,
                mode,
                gh,
                google_token,
                owner,
                repo,
                stage: UplinkStage::WritingContext,
            };
            match outcome {
                Outcome::Http(reply) => match job.gh.update_file(&reply) {
                    Err(e) => job.fail(JobStatus::UploadingContext, JobError::Api(e)),
                    Ok(_) => {
                        let mut source = "github.com/".to_owned();
                        source.append(job.owner.as_str());
                        source.append("/");
                        source.append(job.repo.as_str());
                        let (watch, step) = SessionWatch::begin(
                            job.job_id.as_str(),
                            JulesClient::new(job.google_token.clone()),
                            source.as_str(),
                            "Read AGENTS.md and execute instructions.",
                            job.mode.requires_approval(),
                        );
                        (
                            UplinkJob {
                                job_id: job.job_id,
                                repo_url: job.repo_url,
                                context: job.context,
                                mode: job.mode,
                                gh: job.gh,
                                google_token: job.google_token,
                                owner: job.owner,
                                repo: job.repo,
                                stage: UplinkStage::Watching(watch),
                            },
                            step,
                        )
                    },
                },
                _ => job.pending(),
            }
        },
        UplinkStage::Watching(watch) => {
            let (next, step) = watch.advance(outcome);
            (
                UplinkJob {
                    job_id,
                    repo_url,
                    context,
                    mode,
                    gh,
                    google_token,
                    owner,
                    repo,
                    stage: UplinkStage::Watching(next),
                },
                step,
            )
        },
        UplinkStage::Failed(e) => (
            UplinkJob {
                job_id,
                repo_url,
                context,
                mode,
                gh,
                google_token,
                owner,
                repo,
                stage: UplinkStage::Failed(e),
            },
            Step::silent(Command::Finish),
        ),
    }
}

/// What a run of a job comes to: the job after the last outcome, and the
/// events that were broadcast, in order.
pub struct UplinkRun {
    pub job: UplinkJobView,
    pub events: Seq<JobUpdateEventView>,
}

/// The run of a job over a sequence of outcomes.
pub open spec fn uplink_run(job: UplinkJobView, outcomes: Seq<OutcomeView>) -> UplinkRun
    decreases outcomes.len(),
{
    if outcomes.len() == 0 {
        UplinkRun { job, events: Seq::empty() }
    } else {
        let before = uplink_run(job, outcomes.drop_last());
        let (after, step) = uplink_step(before.job, outcomes.last());
        UplinkRun { job: after, events: before.events + step.events }
    }
}

/// The status that a job has reached at a stage.
pub open spec fn uplink_status(stage: UplinkStageView) -> JobStatus {
    match stage {
        UplinkStageView::Submitted => JobStatus::Booting,
        UplinkStageView::CheckingAccess => JobStatus::Booting,
        UplinkStageView::ReadingContext => JobStatus::UploadingContext,
        UplinkStageView::WritingContext => JobStatus::UploadingContext,
        UplinkStageView::Watching(_) => JobStatus::Planning,
        UplinkStageView::Failed(_) => JobStatus::Booting,
    }
}

/// The request whose reply a stage waits for, where it waits for one that
/// can end the job.
pub open spec fn uplink_operation(stage: UplinkStageView) -> Option<ApiOperation> {
    match stage {
        UplinkStageView::CheckingAccess => Some(ApiOperation::CheckRepoAccess),
        UplinkStageView::ReadingContext => Some(ApiOperation::ReadFile),
        UplinkStageView::WritingContext => Some(ApiOperation::WriteFile),
        UplinkStageView::Watching(watch) => if watch.stage is Starting {
            Some(ApiOperation::StartSession)
        } else {
            None
        },
        _ => None,
    }
}

/// Every step leaves a job well formed.
pub proof fn lemma_uplink_step_keeps_wf(job: UplinkJobView, outcome: OutcomeView)
    requires
        job.wf(),
    ensures
        uplink_step(job, outcome).0.wf(),
{
}

/// A job that has ended stays as it is and broadcasts nothing more,
/// whatever outcomes still arrive.
pub proof fn lemma_ended_uplink_job_is_silent(job: UplinkJobView, outcomes: Seq<OutcomeView>)
    requires
        job.result() is Some,
    ensures
        uplink_run(job, outcomes).job == job,
        uplink_run(job, outcomes).events == Seq::<JobUpdateEventView>::empty(),
    decreases outcomes.len(),
{
    if outcomes.len() > 0 {
        lemma_ended_uplink_job_is_silent(job, outcomes.drop_last());
    }
}

/// When a stage fails, the job ends there. The error is the one of the
/// stage: a bad address at submission, else the error of the request that
/// the stage waited for, or `AccessDenied` where the repository is out of
/// reach. A failure at submission is reported in no event, every later one
/// in exactly one event, at the status the job had reached. After that the
/// job broadcasts nothing more.
pub proof fn lemma_uplink_failure_is_final(
    job: UplinkJobView,
    outcome: OutcomeView,
    later: Seq<OutcomeView>,
)
    requires
        job.wf(),
        job.result() is None,
        uplink_step(job, outcome).0.result() is Some,
        uplink_step(job, outcome).0.result()->0 is Err,
    ensures
        ({
            let (failed, step) = uplink_step(job, outcome);
            let error = failed.result()->0->Err_0;
            &&& uplink_run(failed, later).events == Seq::<JobUpdateEventView>::empty()
            &&& uplink_run(failed, later).job == failed
            &&& step.command == CommandView::Finish
            &&& job.stage is Submitted ==> error == JobErrorView::InvalidRepoUrl && error.kind()
                == ErrorKind::ConfigurationError && step.events.len() == 0
            &&& !(job.stage is Submitted) ==> step.events == seq![
                failure_event(job.job_id, uplink_status(job.stage), error.description()),
            ]
            &&& job.stage is CheckingAccess ==> error == JobErrorView::AccessDenied || (error
                matches JobErrorView::Api(e) && e.operation() == ApiOperation::CheckRepoAccess)
            &&& job.stage is ReadingContext || job.stage is WritingContext ==> (error
                matches JobErrorView::Api(e) && Some(e.operation()) == uplink_operation(job.stage))
            &&& job.stage is Watching ==> (error matches JobErrorView::SessionStartError(e)
                && e.operation() == ApiOperation::StartSession && uplink_operation(job.stage)
                == Some(ApiOperation::StartSession))
        }),
{
    let (failed, step) = uplink_step(job, outcome);
    lemma_ended_uplink_job_is_silent(failed, later);
}

/// The write of the context never overwrites an edit made in between. The
/// write carries the revision that was read just before, so the host can
/// tell; and where the host refuses the write, whatever the status, the job
/// ends with that refusal as its error and goes no further.
pub proof fn lemma_upsert_keeps_concurrent_edits(
    job: UplinkJobView,
    read: HttpOutcomeView,
    status: u16,
    body: Option<Seq<char>>,
)
    requires
        job.stage is ReadingContext,
        file_revision(read) is Ok,
        !is_success(status),
    ensures
        ({
            let (writing, step) = uplink_step(job, OutcomeView::Http(read));
            let (after, last) = uplink_step(
                writing,
                OutcomeView::Http(HttpOutcomeView::Reply { status, body }),
            );
            &&& writing.stage is WritingContext
            &&& step.command == CommandView::Http(
                write_file_request(
                    job.gh_token,
                    job.owner,
                    job.repo,
                    context_file(),
                    job.context,
                    context_commit_message(),
                    file_revision(read)->Ok_0,
                ),
            )
            &&& after.result() == Some(
                Err::<(), JobErrorView>(
                    JobErrorView::Api(
                        ApiErrorView::RemoteApiError {
                            operation: ApiOperation::WriteFile,
                            status_code: status,
                        },
                    ),
                ),
            )
            &&& last.command == CommandView::Finish
        }),
{
}

/// Up to the watch of the agent session the status of a job never goes
/// back: a step that does not fail leaves the job at a status that is no
/// earlier in the order of the pipeline, and what it broadcasts bears the
/// status before the step or the one after it.
pub proof fn lemma_uplink_status_never_regresses(job: UplinkJobView, outcome: OutcomeView)
    requires
        !(job.stage is Watching),
        !(job.stage is Failed),
        !(uplink_step(job, outcome).0.stage is Failed),
    ensures
        ({
            let (next, step) = uplink_step(job, outcome);
            let before = uplink_status(job.stage);
            let after = uplink_status(next.stage);
            &&& before.spec_rank() <= after.spec_rank()
            &&& forall|i: int|
                0 <= i < step.events.len() ==> (#[trigger] step.events[i]).status == before
                    || step.events[i].status == after
        }),
{
}

/// What a job broadcasts bears its id; and a job ends with success only in
/// a step that broadcasts one event, whose status is `PrReady` or `Merged`.
pub proof fn lemma_uplink_job_reports_itself(job: UplinkJobView, outcome: OutcomeView)
    requires
        job.wf(),
    ensures
        ({
            let (next, step) = uplink_step(job, outcome);
            &&& forall|i: int|
                0 <= i < step.events.len() ==> (#[trigger] step.events[i]).id == job.job_id
            &&& job.result() is None && next.result() == Some(Ok::<(), JobErrorView>(()))
                ==> step.events.len() == 1 && step.events[0].status.is_final() && step.command
                == CommandView::Finish
        }),
{
}

} // verus!
