//! The pipeline that scaffolds a new project: a repository, a remote
//! environment in which the generator of a recipe runs, and an agent that
//! reviews what was generated.

use crate::engine::{
    announcing, failing, optional_result_view, silent, step_then, watch_begin, watch_step,
    Command, CommandView, Outcome, OutcomeView, SessionWatch, SessionWatchView, Step, StepView,
};
use crate::error::{ApiError, ApiErrorView, ApiOperation, ErrorKind, JobError, JobErrorView};
use crate::github::{
    add_deploy_key_request, added_deploy_key, codespace_ready, codespace_status_request,
    create_codespace_request,
    create_repo_request, created_codespace, created_repo, delete_codespace_request,
    readiness_after, remove_deploy_key_request, GithubClient, Readiness, MAX_READINESS_POLLS,
    READINESS_INTERVAL_SECS,
};
use crate::http::{reply_accepted, HttpOutcomeView};
use crate::jules::JulesClient;
use crate::ssh_utils::{
    generate_ephemeral_keypair, matched_pair, public_half, RemoteCall, RemoteCallView,
    SshKeypairView,
};
use crate::text::{
    escape_single_quotes, pieces, quote_escaped, same_text, split, text_of, texts_view,
};
use crate::types::{
    failure_event, stage_event, AgentMode, JobStatus, JobUpdateEvent, JobUpdateEventView,
};
use vstd::prelude::*;
use vstd::string::StringExecFns;

verus! {

/// The port on which the remote environment takes commands.
pub const ENVIRONMENT_PORT: u16 = 22;

/// The setup script of a recipe, where the id names a known recipe.
pub open spec fn recipe_url(recipe_id: Seq<char>) -> Option<Seq<char>> {
    if recipe_id == "tauri-rust-v2"@ {
        Some("https://raw.githubusercontent.com/mock-org/recipes/main/tauri-v2.sh"@)
    } else if recipe_id == "nextjs-app"@ {
        Some("https://raw.githubusercontent.com/mock-org/recipes/main/nextjs.sh"@)
    } else {
        None
    }
}

/// Resolves a recipe id to the address of its setup script. An id that is
/// not a known one is refused with `InvalidRecipe`.
pub fn resolve_recipe(recipe_id: &str) -> (r: Result<String, JobError>)
    ensures
        match r {
            Ok(url) => recipe_url(recipe_id@) == Some(url@),
            Err(e) => recipe_url(recipe_id@) is None && e@ == JobErrorView::InvalidRecipe,
        },
{
    if same_text(recipe_id, "tauri-rust-v2") {
        Ok("https://raw.githubusercontent.com/mock-org/recipes/main/tauri-v2.sh".to_owned())
    } else if same_text(recipe_id, "nextjs-app") {
        Ok("https://raw.githubusercontent.com/mock-org/recipes/main/nextjs.sh".to_owned())
    } else {
        Err(JobError::InvalidRecipe)
    }
}

/// Owner and name in the full name of a repository: the first two of the
/// pieces between slashes, where there are two.
pub open spec fn owner_and_repo(full_name: Seq<char>) -> Option<(Seq<char>, Seq<char>)> {
    let ps = pieces(full_name, '/');
    if ps.len() >= 2 {
        Some((ps[0], ps[1]))
    } else {
        None
    }
}

/// Splits the full name of a repository into owner and name.
pub fn split_full_name(full_name: &str) -> (r: Option<(String, String)>)
    ensures
        match r {
            Some((owner, repo)) => owner_and_repo(full_name@) == Some((owner@, repo@)),
            None => owner_and_repo(full_name@) is None,
        },
{
    let parts = split(full_name, '/');
    let ghost ps = texts_view(parts@);
    assert(ps.len() == parts@.len());
    if parts.len() >= 2 {
        assert(ps[0] == parts@[0]@);
        assert(ps[1] == parts@[1]@);
        Some((text_of(&parts[0]), text_of(&parts[1])))
    } else {
        None
    }
}

/// The command that writes the context into its file, fetches the setup
/// script of the recipe and runs it with the name of the project. Context
/// and name stand in single quotes; a quote inside them is escaped, so that
/// the shell takes each for one word whatever it holds.
pub open spec fn generator_command(context: Seq<char>, script_url: Seq<char>, name: Seq<char>)
    -> Seq<char> {
    "echo '"@ + quote_escaped(context) + "' > AGENTS.md && curl -o run.sh "@ + script_url
        + " && bash run.sh '"@ + quote_escaped(name) + "'"@
}

/// The instruction that the agent gets in a scaffold job.
pub open spec fn scaffold_prompt() -> Seq<char> {
    "Review the generated code and make improvements."@
}

/// The title under which the key of a job is registered.
pub open spec fn deploy_key_title() -> Seq<char> {
    "Command Center Ephemeral"@
}

/// The user as whom commands run in the remote environment.
pub open spec fn environment_user() -> Seq<char> {
    "codespace"@
}

/// How far a scaffold job has come.
pub enum ScaffoldStage {
    Submitted,
    CreatingRepo,
    CreatingCodespace,
    /// A question for readiness is under way; so many were asked before.
    AwaitingCodespace(u32),
    /// Waiting before the next question; so many were asked so far.
    Backoff(u32),
    /// Waiting once more after the last question.
    LastBackoff,
    MakingKeys,
    AddingDeployKey,
    Generating,
    RemovingDeployKey,
    DeletingCodespace,
    Watching(SessionWatch),
    Failed(JobError),
}

/// Mathematical content of a [`ScaffoldStage`].
pub enum ScaffoldStageView {
    Submitted,
    CreatingRepo,
    CreatingCodespace,
    AwaitingCodespace(u32),
    Backoff(u32),
    LastBackoff,
    MakingKeys,
    AddingDeployKey,
    Generating,
    RemovingDeployKey,
    DeletingCodespace,
    Watching(SessionWatchView),
    Failed(JobErrorView),
}

impl View for ScaffoldStage {
    type V = ScaffoldStageView;

    open spec fn view(&self) -> ScaffoldStageView {
        match self {
            ScaffoldStage::Submitted => ScaffoldStageView::Submitted,
            ScaffoldStage::CreatingRepo => ScaffoldStageView::CreatingRepo,
            ScaffoldStage::CreatingCodespace => ScaffoldStageView::CreatingCodespace,
            ScaffoldStage::AwaitingCodespace(polls) => ScaffoldStageView::AwaitingCodespace(*polls),
            ScaffoldStage::Backoff(polls) => ScaffoldStageView::Backoff(*polls),
            ScaffoldStage::LastBackoff => ScaffoldStageView::LastBackoff,
            ScaffoldStage::MakingKeys => ScaffoldStageView::MakingKeys,
            ScaffoldStage::AddingDeployKey => ScaffoldStageView::AddingDeployKey,
            ScaffoldStage::Generating => ScaffoldStageView::Generating,
            ScaffoldStage::RemovingDeployKey => ScaffoldStageView::RemovingDeployKey,
            ScaffoldStage::DeletingCodespace => ScaffoldStageView::DeletingCodespace,
            ScaffoldStage::Watching(watch) => ScaffoldStageView::Watching(watch@),
            ScaffoldStage::Failed(e) => ScaffoldStageView::Failed(e@),
        }
    }
}

/// What a scaffold job was given and what it has learned on its way.
pub struct ScaffoldData {
    job_id: String,
    name: String,
    recipe_id: String,
    context: String,
    mode: AgentMode,
    gh: GithubClient,
    google_token: String,
    environment_host: String,
    script_url: String,
    repo_full_name: String,
    owner: String,
    repo: String,
    codespace_name: String,
    private_key: String,
    public_key: String,
    key_id: u64,
}

/// Mathematical content of a [`ScaffoldData`].
pub struct ScaffoldDataView {
    pub job_id: Seq<char>,
    pub name: Seq<char>,
    pub recipe_id: Seq<char>,
    pub context: Seq<char>,
    pub mode: AgentMode,
    pub gh_token: Seq<char>,
    pub google_token: Seq<char>,
    pub environment_host: Seq<char>,
    pub script_url: Seq<char>,
    pub repo_full_name: Seq<char>,
    pub owner: Seq<char>,
    pub repo: Seq<char>,
    pub codespace_name: Seq<char>,
    pub private_key: Seq<char>,
    pub public_key: Seq<char>,
    pub key_id: u64,
}

impl View for ScaffoldData {
    type V = ScaffoldDataView;

    closed spec fn view(&self) -> ScaffoldDataView {
        ScaffoldDataView {
            job_id: self.job_id@,
            name: self.name@,
            recipe_id: self.recipe_id@,
            context: self.context@,
            mode: self.mode,
            gh_token: self.gh@,
            google_token: self.google_token@,
            environment_host: self.environment_host@,
            script_url: self.script_url@,
            repo_full_name: self.repo_full_name@,
            owner: self.owner@,
            repo: self.repo@,
            codespace_name: self.codespace_name@,
            private_key: self.private_key@,
            public_key: self.public_key@,
            key_id: self.key_id,
        }
    }
}

impl ScaffoldDataView {
    /// The same, without the key pair.
    pub open spec fn without_keys(self) -> ScaffoldDataView {
        ScaffoldDataView { private_key: Seq::empty(), public_key: Seq::empty(), ..self }
    }

    /// The run of the generator in the remote environment.
    pub open spec fn generator_call(self) -> RemoteCallView {
        RemoteCallView {
            host: self.environment_host,
            port: ENVIRONMENT_PORT,
            username: environment_user(),
            private_key: self.private_key,
            public_key: self.public_key,
            command: generator_command(self.context, self.script_url, self.name),
        }
    }

    /// The source that the agent session works on.
    pub open spec fn source(self) -> Seq<char> {
        "github.com/"@ + self.repo_full_name
    }
}

/// A job that scaffolds a new project.
pub struct ScaffoldJob {
    data: ScaffoldData,
    stage: ScaffoldStage,
}

/// Mathematical content of a [`ScaffoldJob`].
pub struct ScaffoldJobView {
    pub data: ScaffoldDataView,
    pub stage: ScaffoldStageView,
}

impl View for ScaffoldJob {
    type V = ScaffoldJobView;

    closed spec fn view(&self) -> ScaffoldJobView {
        ScaffoldJobView { data: self.data@, stage: self.stage@ }
    }
}

impl ScaffoldJobView {
    /// The job at another stage.
    pub open spec fn at(self, stage: ScaffoldStageView) -> ScaffoldJobView {
        ScaffoldJobView { stage, ..self }
    }

    /// The job holds a key pair only while it registers it and while the
    /// generator runs; a question for readiness is never the sixty-first;
    /// and the watch of the job, where it has one, is the watch of this job.
    pub open spec fn wf(self) -> bool {
        &&& !(self.stage is AddingDeployKey || self.stage is Generating)
            ==> self.data.private_key.len() == 0 && self.data.public_key.len() == 0
        &&& self.stage matches ScaffoldStageView::AwaitingCodespace(polls) ==> polls
            < MAX_READINESS_POLLS
        &&& self.stage matches ScaffoldStageView::Backoff(polls) ==> polls < MAX_READINESS_POLLS
        &&& self.stage matches ScaffoldStageView::Watching(watch) ==> watch.job_id
            == self.data.job_id
    }

    /// The result of the job, once it has ended.
    pub open spec fn result(self) -> Option<Result<(), JobErrorView>> {
        match self.stage {
            ScaffoldStageView::Failed(e) => Some(Err(e)),
            ScaffoldStageView::Watching(watch) => watch.result(),
            _ => None,
        }
    }

    /// The job stops with a failure that is reported at `status`, and
    /// forgets its key pair.
    pub open spec fn fail(self, status: JobStatus, error: JobErrorView) -> (
        ScaffoldJobView,
        StepView,
    ) {
        (
            ScaffoldJobView {
                data: self.data.without_keys(),
                stage: ScaffoldStageView::Failed(error),
            },
            failing(self.data.job_id, status, error),
        )
    }
}

/// One step of a scaffold job.
///
/// The job resolves the recipe, and ends at once, with no event, where the
/// id is not known. It then creates the repository and the remote
/// environment, asks up to [`MAX_READINESS_POLLS`] times,
/// [`READINESS_INTERVAL_SECS`] seconds apart, whether the environment is
/// available, and ends with `EnvironmentTimeout` where it never is. With a
/// fresh key pair, registered as a deploy key, it runs the generator in the
/// environment, which must end with exit code 0; then it forgets the key
/// pair, revokes the deploy key,
/// deletes the environment and hands over to the watch of the agent
/// session. Each of these stages ends the job where it fails, with one
/// event that reports the failure at the status reached. An outcome that
/// answers no command changes nothing.
pub open spec fn scaffold_step(job: ScaffoldJobView, outcome: OutcomeView) -> (
    ScaffoldJobView,
    StepView,
) {
    let data = job.data;
    match job.stage {
        ScaffoldStageView::Submitted => match outcome {
            OutcomeView::Begin => match recipe_url(data.recipe_id) {
                None => (
                    job.at(ScaffoldStageView::Failed(JobErrorView::InvalidRecipe)),
                    silent(CommandView::Finish),
                ),
                Some(url) => (
                    ScaffoldJobView {
                        data: ScaffoldDataView { script_url: url, ..data },
                        stage: ScaffoldStageView::CreatingRepo,
                    },
                    announcing(
                        stage_event(
                            data.job_id,
                            JobStatus::Booting,
                            "Provisioning GitHub resources..."@,
                        ),
                        CommandView::Http(create_repo_request(data.gh_token, data.name)),
                    ),
                ),
            },
            _ => (job, silent(CommandView::Pending)),
        },
        ScaffoldStageView::CreatingRepo => match outcome {
            OutcomeView::Http(reply) => match created_repo(reply) {
                Err(e) => job.fail(JobStatus::Booting, JobErrorView::Api(e)),
                Ok(full_name) => match owner_and_repo(full_name) {
                    None => job.fail(
                        JobStatus::Booting,
                        JobErrorView::Api(
                            ApiErrorView::MalformedReply { operation: ApiOperation::CreateRepo },
                        ),
                    ),
                    Some((owner, repo)) => (
                        ScaffoldJobView {
                            data: ScaffoldDataView {
                                repo_full_name: full_name,
                                owner,
                                repo,
                                ..data
                            },
                            stage: ScaffoldStageView::CreatingCodespace,
                        },
                        silent(
                            CommandView::Http(
                                create_codespace_request(data.gh_token, owner, repo),
                            ),
                        ),
                    ),
                },
            },
            _ => (job, silent(CommandView::Pending)),
        },
        ScaffoldStageView::CreatingCodespace => match outcome {
            OutcomeView::Http(reply) => match created_codespace(reply) {
                Err(e) => job.fail(JobStatus::Booting, JobErrorView::Api(e)),
                Ok(codespace) => (
                    ScaffoldJobView {
                        data: ScaffoldDataView { codespace_name: codespace, ..data },
                        stage: ScaffoldStageView::AwaitingCodespace(0),
                    },
                    silent(CommandView::Http(codespace_status_request(data.gh_token, codespace))),
                ),
            },
            _ => (job, silent(CommandView::Pending)),
        },
        ScaffoldStageView::AwaitingCodespace(polls) => match outcome {
            OutcomeView::Http(reply) => match readiness_after(polls, reply) {
                Err(e) => job.fail(JobStatus::Booting, JobErrorView::Api(e)),
                Ok(Readiness::Ready) => (
                    job.at(ScaffoldStageView::MakingKeys),
                    silent(CommandView::GenerateKeypair),
                ),
                Ok(Readiness::Retry) => (
                    job.at(ScaffoldStageView::Backoff((polls + 1) as u32)),
                    silent(CommandView::Sleep(READINESS_INTERVAL_SECS)),
                ),
                Ok(Readiness::GiveUp) => (
                    job.at(ScaffoldStageView::LastBackoff),
                    silent(CommandView::Sleep(READINESS_INTERVAL_SECS)),
                ),
            },
            _ => (job, silent(CommandView::Pending)),
        },
        ScaffoldStageView::Backoff(polls) => match outcome {
            OutcomeView::Woke => (
                job.at(ScaffoldStageView::AwaitingCodespace(polls)),
                silent(
                    CommandView::Http(
                        codespace_status_request(data.gh_token, data.codespace_name),
                    ),
                ),
            ),
            _ => (job, silent(CommandView::Pending)),
        },
        ScaffoldStageView::LastBackoff => match outcome {
            OutcomeView::Woke => job.fail(JobStatus::Booting, JobErrorView::EnvironmentTimeout),
            _ => (job, silent(CommandView::Pending)),
        },
        ScaffoldStageView::MakingKeys => match outcome {
            OutcomeView::Keypair(Ok(pair)) => (
                ScaffoldJobView {
                    data: ScaffoldDataView {
                        private_key: pair.private_key,
                        public_key: pair.public_key,
                        ..data
                    },
                    stage: ScaffoldStageView::AddingDeployKey,
                },
                silent(
                    CommandView::Http(
                        add_deploy_key_request(
                            data.gh_token,
                            data.owner,
                            data.repo,
                            pair.public_key,
                            deploy_key_title(),
                        ),
                    ),
                ),
            ),
            OutcomeView::Keypair(Err(e)) => job.fail(JobStatus::Booting, e),
            _ => (job, silent(CommandView::Pending)),
        },
        ScaffoldStageView::AddingDeployKey => match outcome {
            OutcomeView::Http(reply) => match added_deploy_key(reply) {
                Err(e) => job.fail(JobStatus::Booting, JobErrorView::Api(e)),
                Ok(key_id) => (
                    ScaffoldJobView {
                        data: ScaffoldDataView { key_id, ..data },
                        stage: ScaffoldStageView::Generating,
                    },
                    announcing(
                        stage_event(
                            data.job_id,
                            JobStatus::Generating,
                            "Connecting via SSH and running generator..."@,
                        ),
                        CommandView::Remote(data.generator_call()),
                    ),
                ),
            },
            _ => (job, silent(CommandView::Pending)),
        },
        ScaffoldStageView::Generating => match outcome {
            OutcomeView::Remote(Ok((exit_code, output))) => if exit_code == 0 {
                (
                    ScaffoldJobView {
                        data: data.without_keys(),
                        stage: ScaffoldStageView::RemovingDeployKey,
                    },
                    silent(
                        CommandView::Http(
                            remove_deploy_key_request(
                                data.gh_token,
                                data.owner,
                                data.repo,
                                data.key_id,
                            ),
                        ),
                    ),
                )
            } else {
                job.fail(JobStatus::Generating, JobErrorView::CommandFailed { exit_code, output })
            },
            OutcomeView::Remote(Err(e)) => job.fail(
                JobStatus::Generating,
                JobErrorView::RemoteExecution(e),
            ),
            _ => (job, silent(CommandView::Pending)),
        },
        ScaffoldStageView::RemovingDeployKey => match outcome {
            OutcomeView::Http(reply) => match reply_accepted(
                ApiOperation::RemoveDeployKey,
                reply,
            ) {
                Err(e) => job.fail(JobStatus::Generating, JobErrorView::Api(e)),
                Ok(_) => (
                    job.at(ScaffoldStageView::DeletingCodespace),
                    silent(
                        CommandView::Http(
                            delete_codespace_request(data.gh_token, data.codespace_name),
                        ),
                    ),
                ),
            },
            _ => (job, silent(CommandView::Pending)),
        },
        ScaffoldStageView::DeletingCodespace => match outcome {
            OutcomeView::Http(reply) => match reply_accepted(
                ApiOperation::DeleteCodespace,
                reply,
            ) {
                Err(e) => job.fail(JobStatus::Generating, JobErrorView::Api(e)),
                Ok(_) => {
                    let (watch, step) = watch_begin(
                        data.job_id,
                        data.google_token,
                        data.source(),
                        scaffold_prompt(),
                        data.mode == AgentMode::Interactive,
                    );
                    (job.at(ScaffoldStageView::Watching(watch)), step)
                },
            },
            _ => (job, silent(CommandView::Pending)),
        },
        ScaffoldStageView::Watching(watch) => {
            let (next, step) = watch_step(watch, outcome);
            (job.at(ScaffoldStageView::Watching(next)), step)
        },
        ScaffoldStageView::Failed(_) => (job, silent(CommandView::Finish)),
    }
}

/// What making a key pair may hand in: a matched pair whose private text
/// reads back to its public text, or a `KeyGenerationError`.
pub open spec fn generation_of(made: Result<SshKeypairView, JobErrorView>) -> bool {
    match made {
        Ok(pair) => matched_pair(pair.private_key, pair.public_key) && public_half(
            pair.private_key,
        ) == Some(pair.public_key),
        Err(e) => e is KeyGenerationError,
    }
}

impl ScaffoldData {
    fn without_keys(self) -> (r: ScaffoldData)
        ensures
            r@ == self@.without_keys(),
    {
        ScaffoldData { private_key: String::new(), public_key: String::new(), ..self }
    }

    fn generator_call(&self) -> (r: RemoteCall)
        ensures
            r@ == self@.generator_call(),
    {
        let mut command = "echo '".to_owned();
        let context = escape_single_quotes(self.context.as_str());
        command.append(context.as_str());
        command.append("' > AGENTS.md && curl -o run.sh ");
        command.append(self.script_url.as_str());
        command.append(" && bash run.sh '");
        let name = escape_single_quotes(self.name.as_str());
        command.append(name.as_str());
        command.append("'");
        RemoteCall {
            host: self.environment_host.clone(),
            port: ENVIRONMENT_PORT,
            username: "codespace".to_owned(),
            private_key: self.private_key.clone(),
            public_key: self.public_key.clone(),
            command,
        }
    }
}

impl ScaffoldJob {
    /// A job that was accepted and has not begun. `environment_host` is the
    /// address at which the remote environment takes commands.
    pub fn new(
        job_id: String,
        name: String,
        recipe_id: String,
        context: String,
        mode: AgentMode,
        gh_token: String,
        google_token: String,
        environment_host: String,
    ) -> (r: ScaffoldJob)
        ensures
            r@.stage == ScaffoldStageView::Submitted,
            r@.data == (ScaffoldDataView {
                job_id: job_id@,
                name: name@,
                recipe_id: recipe_id@,
                context: context@,
                mode,
                gh_token: gh_token@,
                google_token: google_token@,
                environment_host: environment_host@,
                script_url: Seq::empty(),
                repo_full_name: Seq::empty(),
                owner: Seq::empty(),
                repo: Seq::empty(),
                codespace_name: Seq::empty(),
                private_key: Seq::empty(),
                public_key: Seq::empty(),
                key_id: 0,
            }),
            r@.wf(),
    {
        ScaffoldJob {
            data: ScaffoldData {
                job_id,
                name,
                recipe_id,
                context,
                mode,
                gh: GithubClient::new(gh_token),
                google_token,
                environment_host,
                script_url: String::new(),
                repo_full_name: String::new(),
                owner: String::new(),
                repo: String::new(),
                codespace_name: String::new(),
                private_key: String::new(),
                public_key: String::new(),
                key_id: 0,
            },
            stage: ScaffoldStage::Submitted,
        }
    }

    /// The result of the job, once it has ended.
    pub fn result(&self) -> (r: Option<Result<(), JobError>>)
        ensures
            optional_result_view(r) == self@.result(),
    {
        match &self.stage {
            ScaffoldStage::Failed(e) => Some(Err(e.duplicate())),
            ScaffoldStage::Watching(watch) => watch.result(),
            _ => None,
        }
    }

    /// The full name of the repository of the job; empty until it was
    /// created.
    pub fn repo_full_name(&self) -> (r: &str)
        ensures
            r@ == self@.data.repo_full_name,
    {
        self.data.repo_full_name.as_str()
    }

    /// Tells whether a poll of the agent session is under way: what the job
    /// broadcasts next is then what that poll told.
    pub fn awaits_poll(&self) -> (r: bool)
        ensures
            r == (self@.stage matches ScaffoldStageView::Watching(watch) && watch.stage is Polling),
    {
        match &self.stage {
            ScaffoldStage::Watching(watch) => watch.is_polling(),
            _ => false,
        }
    }

    /// The id of the agent session, once the job watches one; empty until
    /// the session has started.
    pub fn session_id(&self) -> (r: Option<&str>)
        ensures
            match r {
                Some(id) => self@.stage matches ScaffoldStageView::Watching(watch) && id@
                    == watch.session_id,
                None => !(self@.stage is Watching),
            },
    {
        match &self.stage {
            ScaffoldStage::Watching(watch) => Some(watch.session_id()),
            _ => None,
        }
    }

    fn fail(data: ScaffoldData, status: JobStatus, error: JobError) -> (r: (ScaffoldJob, Step))
        ensures
            r.0@ == (ScaffoldJobView {
                data: data@.without_keys(),
                stage: ScaffoldStageView::Failed(error@),
            }),
            r.1@ == failing(data@.job_id, status, error@),
    {
        let step = Step::failing(data.job_id.as_str(), status, &error);
        (ScaffoldJob { data: data.without_keys(), stage: ScaffoldStage::Failed(error) }, step)
    }

    fn at_submitted(data: ScaffoldData, outcome: Outcome) -> (r: (ScaffoldJob, Step))
        ensures
            (r.0@, r.1@) == scaffold_step(
                ScaffoldJobView { data: data@, stage: ScaffoldStageView::Submitted },
                outcome@,
            ),
    {
        match outcome {
            Outcome::Begin => match resolve_recipe(data.recipe_id.as_str()) {
                Err(e) => (
                    ScaffoldJob { data, stage: ScaffoldStage::Failed(e) },
                    Step::silent(Command::Finish),
                ),
                Ok(url) => {
                    let request = data.gh.create_private_repo_request(data.name.as_str());
                    let step = Step::announcing(
                        JobUpdateEvent::stage(
                            data.job_id.as_str(),
                            JobStatus::Booting,
                            "Provisioning GitHub resources...",
                        ),
                        Command::Http(request),
                    );
                    (
                        ScaffoldJob {
                            data: ScaffoldData { script_url: url, ..data },
                            stage: ScaffoldStage::CreatingRepo,
                        },
                        step,
                    )
                },
            },
            _ => (
                ScaffoldJob { data, stage: ScaffoldStage::Submitted },
                Step::silent(Command::Pending),
            ),
        }
    }

    fn at_creating_repo(data: ScaffoldData, outcome: Outcome) -> (r: (ScaffoldJob, Step))
        ensures
            (r.0@, r.1@) == scaffold_step(
                ScaffoldJobView { data: data@, stage: ScaffoldStageView::CreatingRepo },
                outcome@,
            ),
    {
        match outcome {
            Outcome::Http(reply) => match data.gh.create_private_repo(&reply) {
                Err(e) => ScaffoldJob::fail(data, JobStatus::Booting, JobError::Api(e)),
                Ok(full_name) => match split_full_name(full_name.as_str()) {
                    None => ScaffoldJob::fail(
                        data,
                        JobStatus::Booting,
                        JobError::Api(
                            ApiError::MalformedReply { operation: ApiOperation::CreateRepo },
                        ),
                    ),
                    Some((owner, repo)) => {
                        let request = data.gh.create_codespace_request(
                            owner.as_str(),
                            repo.as_str(),
                        );
                        (
                            ScaffoldJob {
                                data: ScaffoldData {
                                    repo_full_name: full_name,
                                    owner,
                                    repo,
                                    ..data
                                },
                                stage: ScaffoldStage::CreatingCodespace,
                            },
                            Step::silent(Command::Http(request)),
                        )
                    },
                },
            },
            _ => (
                ScaffoldJob { data, stage: ScaffoldStage::CreatingRepo },
                Step::silent(Command::Pending),
            ),
        }
    }

    fn at_creating_codespace(data: ScaffoldData, outcome: Outcome) -> (r: (ScaffoldJob, Step))
        ensures
            (r.0@, r.1@) == scaffold_step(
                ScaffoldJobView { data: data@, stage: ScaffoldStageView::CreatingCodespace },
                outcome@,
            ),
    {
        match outcome {
            Outcome::Http(reply) => match data.gh.create_codespace(&reply) {
                Err(e) => ScaffoldJob::fail(data, JobStatus::Booting, JobError::Api(e)),
                Ok(codespace) => {
                    let request = data.gh.codespace_status_request(codespace.as_str());
                    (
                        ScaffoldJob {
                            data: ScaffoldData { codespace_name: codespace, ..data },
                            stage: ScaffoldStage::AwaitingCodespace(0),
                        },
                        Step::silent(Command::Http(request)),
                    )
                },
            },
            _ => (
                ScaffoldJob { data, stage: ScaffoldStage::CreatingCodespace },
                Step::silent(Command::Pending),
            ),
        }
    }

    fn at_awaiting_codespace(data: ScaffoldData, polls: u32, outcome: Outcome) -> (r: (ScaffoldJob, Step))
        ensures
            (r.0@, r.1@) == scaffold_step(
                ScaffoldJobView { data: data@, stage: ScaffoldStageView::AwaitingCodespace(polls) },
                outcome@,
            ),
    {
        match outcome {
            Outcome::Http(reply) => match data.gh.wait_for_codespace(polls, &reply) {
                Err(e) => ScaffoldJob::fail(data, JobStatus::Booting, JobError::Api(e)),
                Ok(Readiness::Ready) => (
                    ScaffoldJob { data, stage: ScaffoldStage::MakingKeys },
                    Step::silent(Command::GenerateKeypair),
                ),
                Ok(Readiness::Retry) => (
                    ScaffoldJob { data, stage: ScaffoldStage::Backoff(polls + 1) },
                    Step::silent(Command::Sleep(READINESS_INTERVAL_SECS)),
                ),
                Ok(Readiness::GiveUp) => (
                    ScaffoldJob { data, stage: ScaffoldStage::LastBackoff },
                    Step::silent(Command::Sleep(READINESS_INTERVAL_SECS)),
                ),
            },
            _ => (
                ScaffoldJob { data, stage: ScaffoldStage::AwaitingCodespace(polls) },
                Step::silent(Command::Pending),
            ),
        }
    }

    fn at_backoff(data: ScaffoldData, polls: u32, outcome: Outcome) -> (r: (ScaffoldJob, Step))
        ensures
            (r.0@, r.1@) == scaffold_step(
                ScaffoldJobView { data: data@, stage: ScaffoldStageView::Backoff(polls) },
                outcome@,
            ),
    {
        match outcome {
            Outcome::Woke => {
                let request = data.gh.codespace_status_request(data.codespace_name.as_str());
                (
                    ScaffoldJob { data, stage: ScaffoldStage::AwaitingCodespace(polls) },
                    Step::silent(Command::Http(request)),
                )
            },
            _ => (
                ScaffoldJob { data, stage: ScaffoldStage::Backoff(polls) },
                Step::silent(Command::Pending),
            ),
        }
    }

    fn at_last_backoff(data: ScaffoldData, outcome: Outcome) -> (r: (ScaffoldJob, Step))
        ensures
            (r.0@, r.1@) == scaffold_step(
                ScaffoldJobView { data: data@, stage: ScaffoldStageView::LastBackoff },
                outcome@,
            ),
    {
        match outcome {
            Outcome::Woke => ScaffoldJob::fail(
                data,
                JobStatus::Booting,
                JobError::EnvironmentTimeout,
            ),
            _ => (
                ScaffoldJob { data, stage: ScaffoldStage::LastBackoff },
                Step::silent(Command::Pending),
            ),
        }
    }

    fn at_making_keys(data: ScaffoldData, outcome: Outcome) -> (r: (ScaffoldJob, Step))
        ensures
            (r.0@, r.1@) == scaffold_step(
                ScaffoldJobView { data: data@, stage: ScaffoldStageView::MakingKeys },
                outcome@,
            ),
    {
        match outcome {
            Outcome::Keypair(Ok(pair)) => {
                let request = data.gh.add_deploy_key_request(
                    data.owner.as_str(),
                    data.repo.as_str(),
                    pair.public_key.as_str(),
                    "Command Center Ephemeral",
                );
                (
                    ScaffoldJob {
                        data: ScaffoldData {
                            private_key: pair.private_key,
                            public_key: pair.public_key,
                            ..data
                        },
                        stage: ScaffoldStage::AddingDeployKey,
                    },
                    Step::silent(Command::Http(request)),
                )
            },
            Outcome::Keypair(Err(e)) => ScaffoldJob::fail(data, JobStatus::Booting, e),
            _ => (
                ScaffoldJob { data, stage: ScaffoldStage::MakingKeys },
                Step::silent(Command::Pending),
            ),
        }
    }

    fn at_adding_deploy_key(data: ScaffoldData, outcome: Outcome) -> (r: (ScaffoldJob, Step))
        ensures
            (r.0@, r.1@) == scaffold_step(
                ScaffoldJobView { data: data@, stage: ScaffoldStageView::AddingDeployKey },
                outcome@,
            ),
    {
        match outcome {
            Outcome::Http(reply) => match data.gh.add_deploy_key(&reply) {
                Err(e) => ScaffoldJob::fail(data, JobStatus::Booting, JobError::Api(e)),
                Ok(key_id) => {
                    let call = data.generator_call();
                    let step = Step::announcing(
                        JobUpdateEvent::stage(
                            data.job_id.as_str(),
                            JobStatus::Generating,
                            "Connecting via SSH and running generator...",
                        ),
                        Command::Remote(call),
                    );
                    (
                        ScaffoldJob {
                            data: ScaffoldData { key_id, ..data },
                            stage: ScaffoldStage::Generating,
                        },
                        step,
                    )
                },
            },
            _ => (
                ScaffoldJob { data, stage: ScaffoldStage::AddingDeployKey },
                Step::silent(Command::Pending),
            ),
        }
    }

    fn at_generating(data: ScaffoldData, outcome: Outcome) -> (r: (ScaffoldJob, Step))
        ensures
            (r.0@, r.1@) == scaffold_step(
                ScaffoldJobView { data: data@, stage: ScaffoldStageView::Generating },
                outcome@,
            ),
    {
        match outcome {
            Outcome::Remote(Ok((exit_code, output))) => {
                if exit_code == 0 {
                    let request = data.gh.remove_deploy_key_request(
                        data.owner.as_str(),
                        data.repo.as_str(),
                        data.key_id,
                    );
                    (
                        ScaffoldJob {
                            data: data.without_keys(),
                            stage: ScaffoldStage::RemovingDeployKey,
                        },
                        Step::silent(Command::Http(request)),
                    )
                } else {
                    ScaffoldJob::fail(
                        data,
                        JobStatus::Generating,
                        JobError::CommandFailed { exit_code, output },
                    )
                }
            },
            Outcome::Remote(Err(e)) => ScaffoldJob::fail(
                data,
                JobStatus::Generating,
                JobError::RemoteExecution(e),
            ),
            _ => (
                ScaffoldJob { data, stage: ScaffoldStage::Generating },
                Step::silent(Command::Pending),
            ),
        }
    }

    fn at_removing_deploy_key(data: ScaffoldData, outcome: Outcome) -> (r: (ScaffoldJob, Step))
        ensures
            (r.0@, r.1@) == scaffold_step(
                ScaffoldJobView { data: data@, stage: ScaffoldStageView::RemovingDeployKey },
                outcome@,
            ),
    {
        match outcome {
            Outcome::Http(reply) => match data.gh.remove_deploy_key(&reply) {
                Err(e) => ScaffoldJob::fail(data, JobStatus::Generating, JobError::Api(e)),
                Ok(_) => {
                    let request = data.gh.delete_codespace_request(
                        data.codespace_name.as_str(),
                    );
                    (
                        ScaffoldJob { data, stage: ScaffoldStage::DeletingCodespace },
                        Step::silent(Command::Http(request)),
                    )
                },
            },
            _ => (
                ScaffoldJob { data, stage: ScaffoldStage::RemovingDeployKey },
                Step::silent(Command::Pending),
            ),
        }
    }

    fn at_deleting_codespace(data: ScaffoldData, outcome: Outcome) -> (r: (ScaffoldJob, Step))
        ensures
            (r.0@, r.1@) == scaffold_step(
                ScaffoldJobView { data: data@, stage: ScaffoldStageView::DeletingCodespace },
                outcome@,
            ),
    {
        match outcome {
            Outcome::Http(reply) => match data.gh.delete_codespace(&reply) {
                Err(e) => ScaffoldJob::fail(data, JobStatus::Generating, JobError::Api(e)),
                Ok(_) => {
                    let mut source = "github.com/".to_owned();
                    source.append(data.repo_full_name.as_str());
                    let (watch, step) = SessionWatch::begin(
                        data.job_id.as_str(),
                        JulesClient::new(data.google_token.clone()),
                        source.as_str(),
                        "Review the generated code and make improvements.",
                        data.mode.requires_approval(),
                    );
                    (ScaffoldJob { data, stage: ScaffoldStage::Watching(watch) }, step)
                },
            },
            _ => (
                ScaffoldJob { data, stage: ScaffoldStage::DeletingCodespace },
                Step::silent(Command::Pending),
            ),
        }
    }

    fn at_watching(data: ScaffoldData, watch: SessionWatch, outcome: Outcome) -> (r: (ScaffoldJob, Step))
        ensures
            (r.0@, r.1@) == scaffold_step(
                ScaffoldJobView { data: data@, stage: ScaffoldStageView::Watching(watch@) },
                outcome@,
            ),
    {
        {
            let (next, step) = watch.advance(outcome);
            (ScaffoldJob { data, stage: ScaffoldStage::Watching(next) }, step)
        }
    }

    fn at_failed(data: ScaffoldData, e: JobError, outcome: Outcome) -> (r: (ScaffoldJob, Step))
        ensures
            (r.0@, r.1@) == scaffold_step(
                ScaffoldJobView { data: data@, stage: ScaffoldStageView::Failed(e@) },
                outcome@,
            ),
    {
        (
            ScaffoldJob { data, stage: ScaffoldStage::Failed(e) },
            Step::silent(Command::Finish),
        )
    }

    /// Takes the job one step further: see [`scaffold_step`].
    pub fn advance(self, outcome: Outcome) -> (r: (ScaffoldJob, Step))
        ensures
            (r.0@, r.1@) == scaffold_step(self@, outcome@),
            self@.wf() ==> r.0@.wf(),
    {
        proof {
            if self@.wf() {
                lemma_scaffold_step_keeps_wf(self@, outcome@);
            }
        }
        let ScaffoldJob { data, stage } = self;
        match stage {
            ScaffoldStage::Submitted => ScaffoldJob::at_submitted(data, outcome),
            ScaffoldStage::CreatingRepo => ScaffoldJob::at_creating_repo(data, outcome),
            ScaffoldStage::CreatingCodespace => ScaffoldJob::at_creating_codespace(data, outcome),
            ScaffoldStage::AwaitingCodespace(polls) => ScaffoldJob::at_awaiting_codespace(data, polls, outcome),
            ScaffoldStage::Backoff(polls) => ScaffoldJob::at_backoff(data, polls, outcome),
            ScaffoldStage::LastBackoff => ScaffoldJob::at_last_backoff(data, outcome),
            ScaffoldStage::MakingKeys => ScaffoldJob::at_making_keys(data, outcome),
            ScaffoldStage::AddingDeployKey => ScaffoldJob::at_adding_deploy_key(data, outcome),
            ScaffoldStage::Generating => ScaffoldJob::at_generating(data, outcome),
            ScaffoldStage::RemovingDeployKey => ScaffoldJob::at_removing_deploy_key(data, outcome),
            ScaffoldStage::DeletingCodespace => ScaffoldJob::at_deleting_codespace(data, outcome),
            ScaffoldStage::Watching(watch) => ScaffoldJob::at_watching(data, watch, outcome),
            ScaffoldStage::Failed(e) => ScaffoldJob::at_failed(data, e, outcome),
        }
    }
}

/// Takes a scaffold job one step further, and makes the key pair itself
/// where the step asks for one.
///
/// Where the step of [`scaffold_step`] asks for anything but a key pair,
/// this is that step. Where it asks for a key pair, a fresh one is made and
/// handed in at once: what is returned is that step and the next taken as
/// one. The key pair is random; whichever it is, it is a matched pair, and
/// where none can be made the job ends with a `KeyGenerationError`.
pub fn run_scaffold_job(job: ScaffoldJob, outcome: Outcome) -> (r: (ScaffoldJob, Step))
    ensures
        ({
            let (asked, first) = scaffold_step(job@, outcome@);
            if first.command is GenerateKeypair {
                exists|made: Result<SshKeypairView, JobErrorView>|
                    #![auto]
                    generation_of(made) && r.0@ == scaffold_step(
                        asked,
                        OutcomeView::Keypair(made),
                    ).0 && r.1@ == step_then(
                        first,
                        scaffold_step(asked, OutcomeView::Keypair(made)).1,
                    )
            } else {
                (r.0@, r.1@) == (asked, first)
            }
        }),
        job@.wf() ==> r.0@.wf(),
        !(r.1@.command is GenerateKeypair),
{
    let (asked, first) = job.advance(outcome);
    match first.command {
        Command::GenerateKeypair => {
            let handing = Outcome::Keypair(generate_ephemeral_keypair());
            let ghost made = handing@->Keypair_0;
            let ghost before = asked@;
            let (next, second) = asked.advance(handing);
            let joined = first.followed_by(second);
            proof {
                assert(generation_of(made));
                assert(next@ == scaffold_step(before, OutcomeView::Keypair(made)).0);
            }
            (next, joined)
        },
        _ => (asked, first),
    }
}

/// What a run of a job comes to: the job after the last outcome, and the
/// events that were broadcast, in order.
pub struct ScaffoldRun {
    pub job: ScaffoldJobView,
    pub events: Seq<JobUpdateEventView>,
}

/// The run of a job over a sequence of outcomes.
pub open spec fn scaffold_run(job: ScaffoldJobView, outcomes: Seq<OutcomeView>) -> ScaffoldRun
    decreases outcomes.len(),
{
    if outcomes.len() == 0 {
        ScaffoldRun { job, events: Seq::empty() }
    } else {
        let before = scaffold_run(job, outcomes.drop_last());
        let (after, step) = scaffold_step(before.job, outcomes.last());
        ScaffoldRun { job: after, events: before.events + step.events }
    }
}

/// The status that a job has reached at a stage.
pub open spec fn scaffold_status(stage: ScaffoldStageView) -> JobStatus {
    match stage {
        ScaffoldStageView::Generating => JobStatus::Generating,
        ScaffoldStageView::RemovingDeployKey => JobStatus::Generating,
        ScaffoldStageView::DeletingCodespace => JobStatus::Generating,
        ScaffoldStageView::Watching(_) => JobStatus::Planning,
        _ => JobStatus::Booting,
    }
}

/// The request whose reply a stage waits for, where it waits for one.
pub open spec fn scaffold_operation(stage: ScaffoldStageView) -> Option<ApiOperation> {
    match stage {
        ScaffoldStageView::CreatingRepo => Some(ApiOperation::CreateRepo),
        ScaffoldStageView::CreatingCodespace => Some(ApiOperation::CreateCodespace),
        ScaffoldStageView::AwaitingCodespace(_) => Some(ApiOperation::CodespaceStatus),
        ScaffoldStageView::AddingDeployKey => Some(ApiOperation::AddDeployKey),
        ScaffoldStageView::RemovingDeployKey => Some(ApiOperation::RemoveDeployKey),
        ScaffoldStageView::DeletingCodespace => Some(ApiOperation::DeleteCodespace),
        ScaffoldStageView::Watching(watch) => if watch.stage is Starting {
            Some(ApiOperation::StartSession)
        } else {
            None
        },
        _ => None,
    }
}

/// Every step leaves a job well formed.
pub proof fn lemma_scaffold_step_keeps_wf(job: ScaffoldJobView, outcome: OutcomeView)
    requires
        job.wf(),
    ensures
        scaffold_step(job, outcome).0.wf(),
{
}

/// A job that has ended holds no key pair.
pub proof fn lemma_ended_scaffold_job_holds_no_key(job: ScaffoldJobView)
    requires
        job.wf(),
        job.result() is Some,
    ensures
        job.data.private_key.len() == 0,
        job.data.public_key.len() == 0,
{
}

/// The private key leaves the job in one command only: the run of the
/// generator.
pub proof fn lemma_private_key_goes_to_generator_only(job: ScaffoldJobView, outcome: OutcomeView)
    requires
        job.wf(),
    ensures
        scaffold_step(job, outcome).1.command matches CommandView::Remote(call) ==> job.stage
            is AddingDeployKey && call == scaffold_step(job, outcome).0.data.generator_call(),
{
}

/// A job that has ended stays as it is and broadcasts nothing more,
/// whatever outcomes still arrive.
pub proof fn lemma_ended_scaffold_job_is_silent(job: ScaffoldJobView, outcomes: Seq<OutcomeView>)
    requires
        job.result() is Some,
    ensures
        scaffold_run(job, outcomes).job == job,
        scaffold_run(job, outcomes).events == Seq::<JobUpdateEventView>::empty(),
    decreases outcomes.len(),
{
    if outcomes.len() > 0 {
        lemma_ended_scaffold_job_is_silent(job, outcomes.drop_last());
    }
}

/// When a stage fails, the job ends there. The error is the one of the
/// stage: an unknown recipe at submission; the error of the request that
/// the stage waited for; `EnvironmentTimeout` after the last wait for the
/// environment; the error that the making of the key pair handed in; a
/// `RemoteExecution` error for a generator that could not be run and
/// `CommandFailed` for one that ended with an exit code other than 0; a
/// `SessionStartError` for the start of the session. A failure at
/// submission is reported in no event,
/// every later one in exactly one event, at the status the job had
/// reached. After that the job broadcasts nothing more.
pub proof fn lemma_scaffold_failure_is_final(
    job: ScaffoldJobView,
    outcome: OutcomeView,
    later: Seq<OutcomeView>,
)
    requires
        job.wf(),
        job.result() is None,
        scaffold_step(job, outcome).0.result() is Some,
        scaffold_step(job, outcome).0.result()->0 is Err,
    ensures
        ({
            let (failed, step) = scaffold_step(job, outcome);
            let error = failed.result()->0->Err_0;
            &&& scaffold_run(failed, later).events == Seq::<JobUpdateEventView>::empty()
            &&& scaffold_run(failed, later).job == failed
            &&& step.command == CommandView::Finish
            &&& job.stage is Submitted ==> error == JobErrorView::InvalidRecipe && error.kind()
                == ErrorKind::ConfigurationError && step.events.len() == 0
            &&& !(job.stage is Submitted) ==> step.events == seq![
                failure_event(job.data.job_id, scaffold_status(job.stage), error.description()),
            ]
            &&& job.stage is LastBackoff ==> error == JobErrorView::EnvironmentTimeout
                && error.kind() == ErrorKind::ProvisioningTimeout
            &&& job.stage is MakingKeys ==> outcome == OutcomeView::Keypair(
                Err::<SshKeypairView, JobErrorView>(error),
            )
            &&& job.stage is Generating ==> (error is RemoteExecution || error is CommandFailed)
                && (error is CommandFailed ==> error.kind() == ErrorKind::ExecutionError)
            &&& job.stage is Watching ==> (error matches JobErrorView::SessionStartError(e)
                && e.operation() == ApiOperation::StartSession)
            &&& !(job.stage is Submitted || job.stage is LastBackoff || job.stage is MakingKeys
                || job.stage is Generating || job.stage is Watching) ==> (error
                matches JobErrorView::Api(e) && Some(e.operation()) == scaffold_operation(
                job.stage,
            ))
        }),
{
    let (failed, step) = scaffold_step(job, outcome);
    lemma_ended_scaffold_job_is_silent(failed, later);
}

/// The job after a series of questions for readiness, each followed by a
/// wait.
pub open spec fn wait_out(job: ScaffoldJobView, replies: Seq<HttpOutcomeView>) -> ScaffoldJobView
    decreases replies.len(),
{
    if replies.len() == 0 {
        job
    } else {
        let asked = scaffold_step(job, OutcomeView::Http(replies[0])).0;
        let woken = scaffold_step(asked, OutcomeView::Woke).0;
        wait_out(woken, replies.skip(1))
    }
}

/// The wait for the remote environment is bounded: when every question up
/// to the last of the [`MAX_READINESS_POLLS`] is answered with "not ready",
/// the job ends with `EnvironmentTimeout`.
pub proof fn lemma_wait_for_environment_is_bounded(
    job: ScaffoldJobView,
    replies: Seq<HttpOutcomeView>,
)
    requires
        job.stage matches ScaffoldStageView::AwaitingCodespace(polls) && polls
            < MAX_READINESS_POLLS && replies.len() == MAX_READINESS_POLLS - polls,
        forall|i: int|
            0 <= i < replies.len() ==> codespace_ready(#[trigger] replies[i]) == Ok::<
                bool,
                ApiErrorView,
            >(false),
    ensures
        wait_out(job, replies).result() == Some(
            Err::<(), JobErrorView>(JobErrorView::EnvironmentTimeout),
        ),
    decreases replies.len(),
{
    let polls = job.stage->AwaitingCodespace_0;
    assert(codespace_ready(replies[0]) == Ok::<bool, ApiErrorView>(false));
    let asked = scaffold_step(job, OutcomeView::Http(replies[0])).0;
    let woken = scaffold_step(asked, OutcomeView::Woke).0;
    let rest = replies.skip(1);
    assert(wait_out(job, replies) == wait_out(woken, rest));
    if polls + 1 < MAX_READINESS_POLLS {
        assert(readiness_after(polls, replies[0]) == Ok::<Readiness, ApiErrorView>(
            Readiness::Retry,
        ));
        assert(asked.stage == ScaffoldStageView::Backoff((polls + 1) as u32));
        assert(woken.stage == ScaffoldStageView::AwaitingCodespace((polls + 1) as u32));
        assert forall|i: int| 0 <= i < rest.len() implies codespace_ready(#[trigger] rest[i])
            == Ok::<bool, ApiErrorView>(false) by {
            assert(rest[i] == replies[i + 1]);
        }
        lemma_wait_for_environment_is_bounded(woken, rest);
    } else {
        assert(readiness_after(polls, replies[0]) == Ok::<Readiness, ApiErrorView>(
            Readiness::GiveUp,
        ));
        assert(asked.stage == ScaffoldStageView::LastBackoff);
        assert(woken.stage == ScaffoldStageView::Failed(JobErrorView::EnvironmentTimeout));
        assert(rest.len() == 0);
        assert(wait_out(woken, rest) == woken);
    }
}

/// Up to the watch of the agent session the status of a job never goes
/// back: a step that does not fail leaves the job at a status that is no
/// earlier in the order of the pipeline, and what it broadcasts bears the
/// status before the step or the one after it.
pub proof fn lemma_scaffold_status_never_regresses(job: ScaffoldJobView, outcome: OutcomeView)
    requires
        !(job.stage is Watching),
        !(job.stage is Failed),
        !(scaffold_step(job, outcome).0.stage is Failed),
    ensures
        ({
            let (next, step) = scaffold_step(job, outcome);
            let before = scaffold_status(job.stage);
            let after = scaffold_status(next.stage);
            &&& before.spec_rank() <= after.spec_rank()
            &&& forall|i: int|
                0 <= i < step.events.len() ==> (#[trigger] step.events[i]).status == before
                    || step.events[i].status == after
        }),
{
}

/// What a job broadcasts bears its id; and a job ends with success only in
/// a step that broadcasts one event, whose status is `PrReady` or `Merged`.
pub proof fn lemma_scaffold_job_reports_itself(job: ScaffoldJobView, outcome: OutcomeView)
    requires
        job.wf(),
    ensures
        ({
            let (next, step) = scaffold_step(job, outcome);
            &&& forall|i: int|
                0 <= i < step.events.len() ==> (#[trigger] step.events[i]).id == job.data.job_id
            &&& job.result() is None && next.result() == Some(Ok::<(), JobErrorView>(()))
                ==> step.events.len() == 1 && step.events[0].status.is_final() && step.command
                == CommandView::Finish
        }),
{
}

} // verus!
