//! The pipeline that attaches an agent to a host that the user names.

use crate::engine::{
    announcing, failing, optional_result_view, silent, step_then, watch_begin, watch_step,
    Command, CommandView, Outcome, OutcomeView, SessionWatch, SessionWatchView, Step, StepView,
};
use crate::error::{ErrorKind, JobError, JobErrorView, SshErrorView, SshFailure};
use crate::jules::JulesClient;
use crate::ssh_utils::{derive_public_key, public_half, RemoteCall, RemoteCallView};
use crate::text::{decimal, decimal_text, escape_single_quotes, quote_escaped};
use crate::types::{stage_event, AgentMode, JobStatus, JobUpdateEvent, JobUpdateEventView};
use vstd::prelude::*;
use vstd::string::StringExecFns;

verus! {

/// How far a remote job has come.
pub enum RemoteStage {
    Submitted,
    DerivingKey,
    Probing,
    Uploading,
    Watching(SessionWatch),
    Failed(JobError),
}

/// Mathematical content of a [`RemoteStage`].
pub enum RemoteStageView {
    Submitted,
    DerivingKey,
    Probing,
    Uploading,
    Watching(SessionWatchView),
    Failed(JobErrorView),
}

impl View for RemoteStage {
    type V = RemoteStageView;

    open spec fn view(&self) -> RemoteStageView {
        match self {
            RemoteStage::Submitted => RemoteStageView::Submitted,
            RemoteStage::DerivingKey => RemoteStageView::DerivingKey,
            RemoteStage::Probing => RemoteStageView::Probing,
            RemoteStage::Uploading => RemoteStageView::Uploading,
            RemoteStage::Watching(watch) => RemoteStageView::Watching(watch@),
            RemoteStage::Failed(e) => RemoteStageView::Failed(e@),
        }
    }
}

/// A job that attaches an agent to a host that the user names.
pub struct RemoteJob {
    job_id: String,
    repo_url: String,
    host: String,
    port: u16,
    username: String,
    private_key: String,
    public_key: String,
    context: String,
    mode: AgentMode,
    google_token: String,
    stage: RemoteStage,
}

/// Mathematical content of a [`RemoteJob`].
pub struct RemoteJobView {
    pub job_id: Seq<char>,
    pub repo_url: Seq<char>,
    pub host: Seq<char>,
    pub port: u16,
    pub username: Seq<char>,
    pub private_key: Seq<char>,
    pub public_key: Seq<char>,
    pub context: Seq<char>,
    pub mode: AgentMode,
    pub google_token: Seq<char>,
    pub stage: RemoteStageView,
}

impl View for RemoteJob {
    type V = RemoteJobView;

    closed spec fn view(&self) -> RemoteJobView {
        RemoteJobView {
            job_id: self.job_id@,
            repo_url: self.repo_url@,
            host: self.host@,
            port: self.port,
            username: self.username@,
            private_key: self.private_key@,
            public_key: self.public_key@,
            context: self.context@,
            mode: self.mode,
            google_token: self.google_token@,
            stage: self.stage@,
        }
    }
}

/// The command that probes the connection.
pub open spec fn probe_command() -> Seq<char> {
    "echo 'Connection Established'"@
}

/// The command that writes the context into its file on the host. The
/// context stands in single quotes; a quote inside it is escaped.
pub open spec fn upload_command(context: Seq<char>) -> Seq<char> {
    "echo '"@ + quote_escaped(context) + "' > AGENTS.md"@
}

/// The instruction that the agent gets in a remote job.
pub open spec fn remote_prompt() -> Seq<char> {
    "Connect to the provided environment and execute the plan based on AGENTS.md"@
}

/// The line that announces the connection.
pub open spec fn connecting_line(host: Seq<char>, port: u16) -> Seq<char> {
    "Connecting to "@ + host + ":"@ + decimal(port as nat) + "..."@
}

impl RemoteJobView {
    /// The job at another stage.
    pub open spec fn at(self, stage: RemoteStageView) -> RemoteJobView {
        RemoteJobView { stage, ..self }
    }

    /// The watch of the job, where it has one, is the watch of this job.
    pub open spec fn wf(self) -> bool {
        self.stage matches RemoteStageView::Watching(watch) ==> watch.job_id == self.job_id
    }

    /// The result of the job, once it has ended.
    pub open spec fn result(self) -> Option<Result<(), JobErrorView>> {
        match self.stage {
            RemoteStageView::Failed(e) => Some(Err(e)),
            RemoteStageView::Watching(watch) => watch.result(),
            _ => None,
        }
    }

    /// The job stops with a failure that is reported at `status`.
    pub open spec fn fail(self, status: JobStatus, error: JobErrorView) -> (
        RemoteJobView,
        StepView,
    ) {
        (self.at(RemoteStageView::Failed(error)), failing(self.job_id, status, error))
    }

    /// A command to run on the host of the job.
    pub open spec fn call(self, command: Seq<char>) -> RemoteCallView {
        RemoteCallView {
            host: self.host,
            port: self.port,
            username: self.username,
            private_key: self.private_key,
            public_key: self.public_key,
            command,
        }
    }
}

/// One step of a remote job.
///
/// The job announces the connection and asks for the public key of the
/// private key it was given. With the key it probes the host, then writes
/// the context there, and hands over to the watch of the agent session. A
/// command on the host succeeds where it ends with exit code 0.
/// Each of these stages ends the job where it fails, with one event that
/// reports the failure at the status reached; a private key that cannot be
/// read ends it before anything is sent anywhere. An outcome that answers
/// no command changes nothing.
pub open spec fn remote_step(job: RemoteJobView, outcome: OutcomeView) -> (
    RemoteJobView,
    StepView,
) {
    match job.stage {
        RemoteStageView::Submitted => match outcome {
            OutcomeView::Begin => (
                job.at(RemoteStageView::DerivingKey),
                announcing(
                    stage_event(
                        job.job_id,
                        JobStatus::Booting,
                        connecting_line(job.host, job.port),
                    ),
                    CommandView::DerivePublicKey,
                ),
            ),
            _ => (job, silent(CommandView::Pending)),
        },
        RemoteStageView::DerivingKey => match outcome {
            OutcomeView::PublicKey(Ok(public_key)) => {
                let next = RemoteJobView { public_key, stage: RemoteStageView::Probing, ..job };
                (next, silent(CommandView::Remote(next.call(probe_command()))))
            },
            OutcomeView::PublicKey(Err(e)) => job.fail(JobStatus::Booting, e),
            _ => (job, silent(CommandView::Pending)),
        },
        RemoteStageView::Probing => match outcome {
            OutcomeView::Remote(Ok((exit_code, output))) => if exit_code == 0 {
                (
                    job.at(RemoteStageView::Uploading),
                    StepView {
                        events: seq![
                            stage_event(job.job_id, JobStatus::Booting, "Connection successful."@),
                            stage_event(
                                job.job_id,
                                JobStatus::UploadingContext,
                                "Uploading AGENTS.md..."@,
                            ),
                        ],
                        command: CommandView::Remote(job.call(upload_command(job.context))),
                    },
                )
            } else {
                job.fail(JobStatus::Booting, JobErrorView::CommandFailed { exit_code, output })
            },
            OutcomeView::Remote(Err(e)) => job.fail(
                JobStatus::Booting,
                JobErrorView::ConnectionError(e),
            ),
            _ => (job, silent(CommandView::Pending)),
        },
        RemoteStageView::Uploading => match outcome {
            OutcomeView::Remote(Ok((exit_code, output))) => if exit_code == 0 {
                let (watch, step) = watch_begin(
                    job.job_id,
                    job.google_token,
                    job.repo_url,
                    remote_prompt(),
                    job.mode == AgentMode::Interactive,
                );
                (job.at(RemoteStageView::Watching(watch)), step)
            } else {
                job.fail(
                    JobStatus::UploadingContext,
                    JobErrorView::CommandFailed { exit_code, output },
                )
            },
            OutcomeView::Remote(Err(e)) => job.fail(
                JobStatus::UploadingContext,
                JobErrorView::ContextUploadError(e),
            ),
            _ => (job, silent(CommandView::Pending)),
        },
        RemoteStageView::Watching(watch) => {
            let (next, step) = watch_step(watch, outcome);
            (job.at(RemoteStageView::Watching(next)), step)
        },
        RemoteStageView::Failed(_) => (job, silent(CommandView::Finish)),
    }
}

/// What deriving the public key of `private_key` may hand in: the public
/// half where the text holds a private key, else a `KeyDerivationError`.
pub open spec fn derivation_of(private_key: Seq<char>, derived: Result<Seq<char>, JobErrorView>)
    -> bool {
    match derived {
        Ok(public_key) => public_half(private_key) == Some(public_key),
        Err(e) => public_half(private_key) is None && e is KeyDerivationError,
    }
}

impl RemoteJob {
    /// A job that was accepted and has not begun.
    pub fn new(
        job_id: String,
        repo_url: String,
        host: String,
        port: u16,
        username: String,
        private_key: String,
        context: String,
        mode: AgentMode,
        google_token: String,
    ) -> (r: RemoteJob)
        ensures
            r@ == (RemoteJobView {
                job_id: job_id@,
                repo_url: repo_url@,
                host: host@,
                port,
                username: username@,
                private_key: private_key@,
                public_key: Seq::empty(),
                context: context@,
                mode,
                google_token: google_token@,
                stage: RemoteStageView::Submitted,
            }),
            r@.wf(),
    {
        RemoteJob {
            job_id,
            repo_url,
            host,
            port,
            username,
            private_key,
            public_key: String::new(),
            context,
            mode,
            google_token,
            stage: RemoteStage::Submitted,
        }
    }

    /// The result of the job, once it has ended.
    pub fn result(&self) -> (r: Option<Result<(), JobError>>)
        ensures
            optional_result_view(r) == self@.result(),
    {
        match &self.stage {
            RemoteStage::Failed(e) => Some(Err(e.duplicate())),
            RemoteStage::Watching(watch) => watch.result(),
            _ => None,
        }
    }

    /// Tells whether a poll of the agent session is under way: what the job
    /// broadcasts next is then what that poll told.
    pub fn awaits_poll(&self) -> (r: bool)
        ensures
            r == (self@.stage matches RemoteStageView::Watching(watch) && watch.stage is Polling),
    {
        match &self.stage {
            RemoteStage::Watching(watch) => watch.is_polling(),
            _ => false,
        }
    }

    /// The id of the agent session, once the job watches one; empty until
    /// the session has started.
    pub fn session_id(&self) -> (r: Option<&str>)
        ensures
            match r {
                Some(id) => self@.stage matches RemoteStageView::Watching(watch) && id@
                    == watch.session_id,
                None => !(self@.stage is Watching),
            },
    {
        match &self.stage {
            RemoteStage::Watching(watch) => Some(watch.session_id()),
            _ => None,
        }
    }

    fn at(self, stage: RemoteStage) -> (r: RemoteJob)
        ensures
            r@ == self@.at(stage@),
    {
        RemoteJob {
            job_id: self.job_id,
            repo_url: self.repo_url,
            host: self.host,
            port: self.port,
            username: self.username,
            private_key: self.private_key,
            public_key: self.public_key,
            context: self.context,
            mode: self.mode,
            google_token: self.google_token,
            stage,
        }
    }

    fn fail(self, status: JobStatus, error: JobError) -> (r: (RemoteJob, Step))
        ensures
            (r.0@, r.1@) == self@.fail(status, error@),
    {
        let step = Step::failing(self.job_id.as_str(), status, &error);
        (self.at(RemoteStage::Failed(error)), step)
    }

    fn pending(self) -> (r: (RemoteJob, Step))
        ensures
            (r.0@, r.1@) == (self@, silent(CommandView::Pending)),
    {
        (self, Step::silent(Command::Pending))
    }

    fn call(&self, command: String) -> (r: RemoteCall)
        ensures
            r@ == self@.call(command@),
    {
        RemoteCall {
            host: self.host.clone(),
            port: self.port,
            username: self.username.clone(),
            private_key: self.private_key.clone(),
            public_key: self.public_key.clone(),
            command,
        }
    }

    /// Takes the job one step further: see [`remote_step`].
    pub fn advance(self, outcome: Outcome) -> (r: (RemoteJob, Step))
        ensures
            (r.0@, r.1@) == remote_step(self@, outcome@),
            self@.wf() ==> r.0@.wf(),
    {
        let RemoteJob {
            job_id,
            repo_url,
            host,
            port,
            username,
            private_key,
            public_key,
            context,
            mode,
            google_token,
            stage,
        } = self;
        match stage {
            RemoteStage::Submitted => {
                let job = RemoteJob {
                    job_id,
                    repo_url,
                    host,
                    port,
                    username,
                    private_key,
                    public_key,
                    context,
                    mode,
                    google_token,
                    stage: RemoteStage::Submitted,
                };
                match outcome {
                    Outcome::Begin => {
                        let mut line = "Connecting to ".to_owned();
                        line.append(job.host.as_str());
                        line.append(":");
                        let port_text = decimal_text(job.port as u64);
                        line.append(port_text.as_str());
                        line.append("...");
                        let step = Step::announcing(
                            JobUpdateEvent::stage(
                                job.job_id.as_str(),
                                JobStatus::Booting,
                                line.as_str(),
                            ),
                            Command::DerivePublicKey,
                        );
                        (job.at(RemoteStage::DerivingKey), step)
                    },
                    _ => job.pending(),
                }
            },
            RemoteStage::DerivingKey => {
                match outcome {
                    Outcome::PublicKey(Ok(derived)) => {
                        let next = RemoteJob {
                            job_id,
                            repo_url,
                            host,
                            port,
                            username,
                            private_key,
                            public_key: derived,
                            context,
                            mode,
                            google_token,
                            stage: RemoteStage::Probing,
                        };
                        let call = next.call("echo 'Connection Established'".to_owned());
                        (next, Step::silent(Command::Remote(call)))
                    },
                    Outcome::PublicKey(Err(e)) => RemoteJob {
                        job_id,
                        repo_url,
                        host,
                        port,
                        username,
                        private_key,
                        public_key,
                        context,
                        mode,
                        google_token,
                        stage: RemoteStage::DerivingKey,
                    }.fail(JobStatus::Booting, e),
                    _ => RemoteJob {
                        job_id,
                        repo_url,
                        host,
                        port,
                        username,
                        private_key,
                        public_key,
                        context,
                        mode,
                        google_token,
                        stage: RemoteStage::DerivingKey,
                    }.pending(),
                }
            },
            RemoteStage::Probing => {
                let job = RemoteJob {
                    job_id,
                    repo_url,
                    host,
                    port,
                    username,
                    private_key,
                    public_key,
                    context,
                    mode,
                    google_token,
                    stage: RemoteStage::Probing,
                };
                match outcome {
                    Outcome::Remote(Ok((exit_code, output))) => if exit_code != 0 {
                        job.fail(JobStatus::Booting, JobError::CommandFailed { exit_code, output })
                    } else {
                        let mut command = "echo '".to_owned();
                        let escaped = escape_single_quotes(job.context.as_str());
                        command.append(escaped.as_str());
                        command.append("' > AGENTS.md");
                        let call = job.call(command);
                        let step = Step::announcing_both(
                            JobUpdateEvent::stage(
                                job.job_id.as_str(),
                                JobStatus::Booting,
                                "Connection successful.",
                            ),
                            JobUpdateEvent::stage(
                                job.job_id.as_str(),
                                JobStatus::UploadingContext,
                                "Uploading AGENTS.md...",
                            ),
                            Command::Remote(call),
                        );
                        (job.at(RemoteStage::Uploading), step)
                    },
                    Outcome::Remote(Err(e)) => job.fail(
                        JobStatus::Booting,
                        JobError::ConnectionError(e),
                    ),
                    _ => job.pending(),
                }
            },
            RemoteStage::Uploading => {
                let job = RemoteJob {
                    job_id,
                    repo_url,
                    host,
                    port,
                    username,
                    private_key,
                    public_key,
                    context,
                    mode,
                    google_token,
                    stage: RemoteStage::Uploading,
                };
                match outcome {
                    Outcome::Remote(Ok((exit_code, output))) => if exit_code != 0 {
                        job.fail(
                            JobStatus::UploadingContext,
                            JobError::CommandFailed { exit_code, output },
                        )
                    } else {
                        let (watch, step) = SessionWatch::begin(
                            job.job_id.as_str(),
                            JulesClient::new(job.google_token.clone()),
                            job.repo_url.as_str(),
                            "Connect to the provided environment and execute the plan based on AGENTS.md",
                            job.mode.requires_approval(),
                        );
                        (job.at(RemoteStage::Watching(watch)), step)
                    },
                    Outcome::Remote(Err(e)) => job.fail(
                        JobStatus::UploadingContext,
                        JobError::ContextUploadError(e),
                    ),
                    _ => job.pending(),
                }
            },
            RemoteStage::Watching(watch) => {
                let (next, step) = watch.advance(outcome);
                (
                    RemoteJob {
                        job_id,
                        repo_url,
                        host,
                        port,
                        username,
                        private_key,
                        public_key,
                        context,
                        mode,
                        google_token,
                        stage: RemoteStage::Watching(next),
                    },
                    step,
                )
            },
            RemoteStage::Failed(e) => (
                RemoteJob {
                    job_id,
                    repo_url,
                    host,
                    port,
                    username,
                    private_key,
                    public_key,
                    context,
                    mode,
                    google_token,
                    stage: RemoteStage::Failed(e),
                },
                Step::silent(Command::Finish),
            ),
        }
    }
}

/// Takes a remote job one step further, and derives the public key itself
/// where the step asks for it.
///
/// Where the step of [`remote_step`] asks for anything but the public key,
/// this is that step. Where it asks for the public key, the key is derived
/// from the private key of the job and handed in at once: what is returned
/// is that step and the next taken as one. A private key that cannot be
/// read then ends the job with a `KeyDerivationError`, and no command for
/// the host or a service was given.
pub fn run_remote_job(job: RemoteJob, outcome: Outcome) -> (r: (RemoteJob, Step))
    ensures
        ({
            let (asked, first) = remote_step(job@, outcome@);
            if first.command is DerivePublicKey {
                exists|derived: Result<Seq<char>, JobErrorView>|
                    #![auto]
                    derivation_of(job@.private_key, derived) && r.0@ == remote_step(
                        asked,
                        OutcomeView::PublicKey(derived),
                    ).0 && r.1@ == step_then(
                        first,
                        remote_step(asked, OutcomeView::PublicKey(derived)).1,
                    )
            } else {
                (r.0@, r.1@) == (asked, first)
            }
        }),
        job@.wf() ==> r.0@.wf(),
        !(r.1@.command is DerivePublicKey),
{
    let (asked, first) = job.advance(outcome);
    match first.command {
        Command::DerivePublicKey => {
            let derived = derive_public_key(asked.private_key.as_str());
            let handing = Outcome::PublicKey(derived);
            let ghost handed = handing@->PublicKey_0;
            let ghost before = asked@;
            let (next, second) = asked.advance(handing);
            let joined = first.followed_by(second);
            proof {
                assert(derivation_of(job@.private_key, handed));
                assert(next@ == remote_step(before, OutcomeView::PublicKey(handed)).0);
            }
            (next, joined)
        },
        _ => (asked, first),
    }
}

/// What a run of a job comes to: the job after the last outcome, and the
/// events that were broadcast, in order.
pub struct RemoteRun {
    pub job: RemoteJobView,
    pub events: Seq<JobUpdateEventView>,
}

/// The run of a job over a sequence of outcomes.
pub open spec fn remote_run(job: RemoteJobView, outcomes: Seq<OutcomeView>) -> RemoteRun
    decreases outcomes.len(),
{
    if outcomes.len() == 0 {
        RemoteRun { job, events: Seq::empty() }
    } else {
        let before = remote_run(job, outcomes.drop_last());
        let (after, step) = remote_step(before.job, outcomes.last());
        RemoteRun { job: after, events: before.events + step.events }
    }
}

/// The status that a job has reached at a stage.
pub open spec fn remote_status(stage: RemoteStageView) -> JobStatus {
    match stage {
        RemoteStageView::Submitted => JobStatus::Booting,
        RemoteStageView::DerivingKey => JobStatus::Booting,
        RemoteStageView::Probing => JobStatus::Booting,
        RemoteStageView::Uploading => JobStatus::UploadingContext,
        RemoteStageView::Watching(_) => JobStatus::Planning,
        RemoteStageView::Failed(_) => JobStatus::Booting,
    }
}

/// Every step leaves a job well formed.
pub proof fn lemma_remote_step_keeps_wf(job: RemoteJobView, outcome: OutcomeView)
    requires
        job.wf(),
    ensures
        remote_step(job, outcome).0.wf(),
{
}

/// A job that has ended stays as it is and broadcasts nothing more,
/// whatever outcomes still arrive.
pub proof fn lemma_ended_remote_job_is_silent(job: RemoteJobView, outcomes: Seq<OutcomeView>)
    requires
        job.result() is Some,
    ensures
        remote_run(job, outcomes).job == job,
        remote_run(job, outcomes).events == Seq::<JobUpdateEventView>::empty(),
    decreases outcomes.len(),
{
    if outcomes.len() > 0 {
        lemma_ended_remote_job_is_silent(job, outcomes.drop_last());
    }
}

/// When a stage fails, the job ends there. The error is the one of the
/// stage: the error that the derivation of the key handed in, a
/// `ConnectionError` for a probe that could not be run (of kind
/// authentication where the host refused the key, else connectivity), a
/// `ContextUploadError` for an upload that could not be run, `CommandFailed`
/// for either where it ended with an exit code other than 0, a
/// `SessionStartError` for the start of the session. The failure is
/// reported in exactly one event, at the status the job had reached. After
/// that the job broadcasts nothing more.
pub proof fn lemma_remote_failure_is_final(
    job: RemoteJobView,
    outcome: OutcomeView,
    later: Seq<OutcomeView>,
)
    requires
        job.wf(),
        job.result() is None,
        remote_step(job, outcome).0.result() is Some,
        remote_step(job, outcome).0.result()->0 is Err,
    ensures
        ({
            let (failed, step) = remote_step(job, outcome);
            let error = failed.result()->0->Err_0;
            &&& remote_run(failed, later).events == Seq::<JobUpdateEventView>::empty()
            &&& remote_run(failed, later).job == failed
            &&& step == failing(job.job_id, remote_status(job.stage), error)
            &&& job.stage is DerivingKey ==> outcome == OutcomeView::PublicKey(
                Err::<Seq<char>, JobErrorView>(error),
            )
            &&& job.stage is Probing ==> (error matches JobErrorView::ConnectionError(e)
                && outcome == OutcomeView::Remote(Err::<(i32, Seq<char>), SshErrorView>(e))
                && error.kind() == (if e.failure == SshFailure::AuthError {
                ErrorKind::AuthenticationError
            } else {
                ErrorKind::ConnectivityError
            })) || (error is CommandFailed && error.kind() == ErrorKind::ExecutionError)
            &&& job.stage is Uploading ==> error is ContextUploadError || error is CommandFailed
            &&& job.stage is Watching ==> error is SessionStartError
            &&& !(job.stage is Submitted)
        }),
{
    let (failed, step) = remote_step(job, outcome);
    lemma_ended_remote_job_is_silent(failed, later);
}

/// A private key that cannot be read ends the job as soon as it begins:
/// with a configuration error, and before any command for the host or for
/// a service was given.
pub proof fn lemma_unreadable_key_ends_remote_job(
    job: RemoteJobView,
    derived: Result<Seq<char>, JobErrorView>,
)
    requires
        job.stage is Submitted,
        public_half(job.private_key) is None,
        derivation_of(job.private_key, derived),
    ensures
        ({
            let (asked, first) = remote_step(job, OutcomeView::Begin);
            let (ended, second) = remote_step(asked, OutcomeView::PublicKey(derived));
            &&& first.command == CommandView::DerivePublicKey
            &&& second.command == CommandView::Finish
            &&& ended.result() matches Some(Err(e)) && e is KeyDerivationError && e.kind()
                == ErrorKind::ConfigurationError
        }),
{
}

/// Up to the watch of the agent session the status of a job never goes
/// back: a step that does not fail leaves the job at a status that is no
/// earlier in the order of the pipeline, and what it broadcasts bears the
/// status before the step or the one after it.
pub proof fn lemma_remote_status_never_regresses(job: RemoteJobView, outcome: OutcomeView)
    requires
        !(job.stage is Watching),
        !(job.stage is Failed),
        !(remote_step(job, outcome).0.stage is Failed),
    ensures
        ({
            let (next, step) = remote_step(job, outcome);
            let before = remote_status(job.stage);
            let after = remote_status(next.stage);
            &&& before.spec_rank() <= after.spec_rank()
            &&& forall|i: int|
                0 <= i < step.events.len() ==> (#[trigger] step.events[i]).status == before
                    || step.events[i].status == after
        }),
{
}

/// What a job broadcasts bears its id; and a job ends with success only in
/// a step that broadcasts one event, whose status is `PrReady` or `Merged`.
pub proof fn lemma_remote_job_reports_itself(job: RemoteJobView, outcome: OutcomeView)
    requires
        job.wf(),
    ensures
        ({
            let (next, step) = remote_step(job, outcome);
            &&& forall|i: int|
                0 <= i < step.events.len() ==> (#[trigger] step.events[i]).id == job.job_id
            &&& job.result() is None && next.result() == Some(Ok::<(), JobErrorView>(()))
                ==> step.events.len() == 1 && step.events[0].status.is_final() && step.command
                == CommandView::Finish
        }),
{
}

} // verus!
