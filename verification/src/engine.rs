//! What the pipelines share: the commands they give to their driver, the
//! outcomes they take back, and the watch over an agent session that ends
//! every pipeline.

use crate::error::{JobError, JobErrorView, SshError, SshErrorView};
use crate::http::{HttpOutcome, HttpOutcomeView, HttpRequest, HttpRequestView};
use crate::jules::{
    poll_session_request, polled, start_session_request, started_session, JulesClient,
    SessionReport,
};
use crate::ssh_utils::{
    execution_result, RemoteCall, RemoteCallView, SshKeypair, SshKeypairView,
};
use crate::types::{
    events_view, failure_event, stage_event, JobStatus, JobUpdateEvent, JobUpdateEventView,
};
use vstd::prelude::*;

verus! {

/// Seconds between two polls of an agent session.
pub const POLL_INTERVAL_SECS: u64 = 5;

/// What a pipeline asks of its driver.
pub enum Command {
    /// Send the request and report how it ended.
    Http(HttpRequest),
    /// Run the command on the host and report how it ended.
    Remote(RemoteCall),
    /// Wait this many seconds, then report back.
    Sleep(u64),
    /// Make a fresh key pair and hand it in.
    GenerateKeypair,
    /// Derive the public key of the job's private key and hand it in.
    DerivePublicKey,
    /// Nothing new: the command given before is still awaited.
    Pending,
    /// The job has ended; its result can be read.
    Finish,
}

/// Mathematical content of a [`Command`].
pub enum CommandView {
    Http(HttpRequestView),
    Remote(RemoteCallView),
    Sleep(u64),
    GenerateKeypair,
    DerivePublicKey,
    Pending,
    Finish,
}

impl View for Command {
    type V = CommandView;

    open spec fn view(&self) -> CommandView {
        match self {
            Command::Http(request) => CommandView::Http(request@),
            Command::Remote(call) => CommandView::Remote(call@),
            Command::Sleep(seconds) => CommandView::Sleep(*seconds),
            Command::GenerateKeypair => CommandView::GenerateKeypair,
            Command::DerivePublicKey => CommandView::DerivePublicKey,
            Command::Pending => CommandView::Pending,
            Command::Finish => CommandView::Finish,
        }
    }
}

/// What the driver hands back.
pub enum Outcome {
    /// The job is to start.
    Begin,
    /// How a request ended.
    Http(HttpOutcome),
    /// How a remote execution ended.
    Remote(Result<(i32, String), SshError>),
    /// The wait is over.
    Woke,
    /// The key pair that was made, or why none was.
    Keypair(Result<SshKeypair, JobError>),
    /// The public key that was derived, or why none was.
    PublicKey(Result<String, JobError>),
}

/// Mathematical content of an [`Outcome`].
pub enum OutcomeView {
    Begin,
    Http(HttpOutcomeView),
    Remote(Result<(i32, Seq<char>), SshErrorView>),
    Woke,
    Keypair(Result<SshKeypairView, JobErrorView>),
    PublicKey(Result<Seq<char>, JobErrorView>),
}

impl View for Outcome {
    type V = OutcomeView;

    open spec fn view(&self) -> OutcomeView {
        match self {
            Outcome::Begin => OutcomeView::Begin,
            Outcome::Http(outcome) => OutcomeView::Http(outcome@),
            Outcome::Remote(result) => OutcomeView::Remote(execution_result(*result)),
            Outcome::Woke => OutcomeView::Woke,
            Outcome::Keypair(result) => OutcomeView::Keypair(
                match result {
                    Ok(pair) => Ok(pair@),
                    Err(e) => Err(e@),
                },
            ),
            Outcome::PublicKey(result) => OutcomeView::PublicKey(
                match result {
                    Ok(key) => Ok(key@),
                    Err(e) => Err(e@),
                },
            ),
        }
    }
}

/// One step of a pipeline: the events to broadcast, in order, and then the
/// command to perform.
pub struct Step {
    pub events: Vec<JobUpdateEvent>,
    pub command: Command,
}

/// Mathematical content of a [`Step`].
pub struct StepView {
    pub events: Seq<JobUpdateEventView>,
    pub command: CommandView,
}

impl View for Step {
    type V = StepView;

    open spec fn view(&self) -> StepView {
        StepView { events: events_view(self.events@), command: self.command@ }
    }
}

/// The content of the result of a job.
pub open spec fn result_view(r: Result<(), JobError>) -> Result<(), JobErrorView> {
    match r {
        Ok(_) => Ok(()),
        Err(e) => Err(e@),
    }
}

/// The content of the result of a job, where it has one.
pub open spec fn optional_result_view(r: Option<Result<(), JobError>>) -> Option<
    Result<(), JobErrorView>,
> {
    match r {
        Some(result) => Some(result_view(result)),
        None => None,
    }
}

/// A step that broadcasts nothing.
pub open spec fn silent(command: CommandView) -> StepView {
    StepView { events: Seq::empty(), command }
}

/// A step that broadcasts one event.
pub open spec fn announcing(event: JobUpdateEventView, command: CommandView) -> StepView {
    StepView { events: seq![event], command }
}

/// The step that ends a job with a failure: one event that reports it at
/// the status the job had reached, then nothing more to do.
pub open spec fn failing(job_id: Seq<char>, status: JobStatus, error: JobErrorView) -> StepView {
    announcing(failure_event(job_id, status, error.description()), CommandView::Finish)
}

impl Step {
    /// A step that broadcasts nothing.
    pub fn silent(command: Command) -> (r: Step)
        ensures
            r@ == silent(command@),
    {
        let r = Step { events: Vec::new(), command };
        assert(r@.events =~= Seq::empty());
        r
    }

    /// A step that broadcasts one event.
    pub fn announcing(event: JobUpdateEvent, command: Command) -> (r: Step)
        ensures
            r@ == announcing(event@, command@),
    {
        let mut events: Vec<JobUpdateEvent> = Vec::new();
        events.push(event);
        let r = Step { events, command };
        assert(r@.events =~= seq![event@]);
        r
    }

    /// A step that broadcasts two events.
    pub fn announcing_both(first: JobUpdateEvent, second: JobUpdateEvent, command: Command) -> (r:
        Step)
        ensures
            r@ == (StepView { events: seq![first@, second@], command: command@ }),
    {
        let mut events: Vec<JobUpdateEvent> = Vec::new();
        events.push(first);
        events.push(second);
        let r = Step { events, command };
        assert(r@.events =~= seq![first@, second@]);
        r
    }

    /// The step that ends a job with a failure.
    pub fn failing(job_id: &str, status: JobStatus, error: &JobError) -> (r: Step)
        ensures
            r@ == failing(job_id@, status, error@),
    {
        let description = error.describe();
        Step::announcing(
            JobUpdateEvent::failure(job_id, status, description.as_str()),
            Command::Finish,
        )
    }
}

/// The lines that a poll logs for a status.
pub open spec fn status_lines(status: JobStatus) -> Seq<Seq<char>> {
    match status {
        JobStatus::Planning => seq!["Jules is thinking..."@],
        JobStatus::Working => seq!["Jules is working on code..."@],
        JobStatus::WaitingApproval => seq!["Plan ready for review."@],
        JobStatus::PrReady => seq!["Pull Request created."@],
        _ => Seq::empty(),
    }
}

/// The event that reports what a poll told.
pub open spec fn poll_event(job_id: Seq<char>, report: SessionReport) -> JobUpdateEventView {
    JobUpdateEventView {
        id: job_id,
        status: report.status,
        logs: status_lines(report.status),
        pr_details: report.pr_details,
        plan: report.plan,
    }
}

/// How far the watch over a session has come.
pub enum WatchStage {
    /// The request that starts the session is under way.
    Starting,
    /// Waiting for the next poll.
    Sleeping,
    /// A poll is under way.
    Polling,
    /// The watch has ended.
    Finished(Result<(), JobError>),
}

/// Mathematical content of a [`WatchStage`].
pub enum WatchStageView {
    Starting,
    Sleeping,
    Polling,
    Finished(Result<(), JobErrorView>),
}

impl View for WatchStage {
    type V = WatchStageView;

    open spec fn view(&self) -> WatchStageView {
        match self {
            WatchStage::Starting => WatchStageView::Starting,
            WatchStage::Sleeping => WatchStageView::Sleeping,
            WatchStage::Polling => WatchStageView::Polling,
            WatchStage::Finished(r) => WatchStageView::Finished(result_view(*r)),
        }
    }
}

/// The watch over one agent session: it starts the session, then polls it
/// until a pull request is ready or the work is merged.
pub struct SessionWatch {
    job_id: String,
    jules: JulesClient,
    session_id: String,
    stage: WatchStage,
}

/// Mathematical content of a [`SessionWatch`].
pub struct SessionWatchView {
    pub job_id: Seq<char>,
    pub token: Seq<char>,
    pub session_id: Seq<char>,
    pub stage: WatchStageView,
}

impl View for SessionWatch {
    type V = SessionWatchView;

    closed spec fn view(&self) -> SessionWatchView {
        SessionWatchView {
            job_id: self.job_id@,
            token: self.jules@,
            session_id: self.session_id@,
            stage: self.stage@,
        }
    }
}

impl SessionWatchView {
    /// The watch at another stage.
    pub open spec fn at(self, stage: WatchStageView) -> SessionWatchView {
        SessionWatchView { stage, ..self }
    }

    /// The result of the watch, once it has ended.
    pub open spec fn result(self) -> Option<Result<(), JobErrorView>> {
        match self.stage {
            WatchStageView::Finished(r) => Some(r),
            _ => None,
        }
    }
}

/// The first step of a watch: it announces the session at status
/// `Planning` and asks for it to be started.
pub open spec fn watch_begin(
    job_id: Seq<char>,
    token: Seq<char>,
    source: Seq<char>,
    prompt: Seq<char>,
    require_approval: bool,
) -> (SessionWatchView, StepView) {
    (
        SessionWatchView {
            job_id,
            token,
            session_id: Seq::empty(),
            stage: WatchStageView::Starting,
        },
        announcing(
            stage_event(job_id, JobStatus::Planning, "Starting AI Session..."@),
            CommandView::Http(start_session_request(token, source, prompt, require_approval)),
        ),
    )
}

/// One step of a watch.
///
/// A session that cannot be started ends the watch with
/// `SessionStartError`. Once started, the watch waits
/// [`POLL_INTERVAL_SECS`], polls, and reports what the poll told in one
/// event; it ends, with success, exactly when the status told is `PrReady`
/// or `Merged`, and otherwise waits and polls again. A poll that fails is
/// passed over in silence: the watch waits and polls again. An outcome
/// that answers no command changes nothing.
pub open spec fn watch_step(watch: SessionWatchView, outcome: OutcomeView) -> (
    SessionWatchView,
    StepView,
) {
    match watch.stage {
        WatchStageView::Starting => match outcome {
            OutcomeView::Http(reply) => match started_session(reply) {
                Ok(session_id) => (
                    SessionWatchView {
                        session_id,
                        stage: WatchStageView::Sleeping,
                        ..watch
                    },
                    silent(CommandView::Sleep(POLL_INTERVAL_SECS)),
                ),
                Err(e) => (
                    watch.at(WatchStageView::Finished(Err(JobErrorView::SessionStartError(e)))),
                    failing(watch.job_id, JobStatus::Planning, JobErrorView::SessionStartError(e)),
                ),
            },
            _ => (watch, silent(CommandView::Pending)),
        },
        WatchStageView::Sleeping => match outcome {
            OutcomeView::Woke => (
                watch.at(WatchStageView::Polling),
                silent(CommandView::Http(poll_session_request(watch.token, watch.session_id))),
            ),
            _ => (watch, silent(CommandView::Pending)),
        },
        WatchStageView::Polling => match outcome {
            OutcomeView::Http(reply) => match polled(reply) {
                Ok(report) => if report.status.is_final() {
                    (
                        watch.at(WatchStageView::Finished(Ok(()))),
                        announcing(poll_event(watch.job_id, report), CommandView::Finish),
                    )
                } else {
                    (
                        watch.at(WatchStageView::Sleeping),
                        announcing(
                            poll_event(watch.job_id, report),
                            CommandView::Sleep(POLL_INTERVAL_SECS),
                        ),
                    )
                },
                Err(_) => (
                    watch.at(WatchStageView::Sleeping),
                    silent(CommandView::Sleep(POLL_INTERVAL_SECS)),
                ),
            },
            _ => (watch, silent(CommandView::Pending)),
        },
        WatchStageView::Finished(_) => (watch, silent(CommandView::Finish)),
    }
}

fn status_log(status: JobStatus) -> (r: Vec<String>)
    ensures
        r.deep_view() == status_lines(status),
{
    let mut logs: Vec<String> = Vec::new();
    match status {
        JobStatus::Planning => {
            logs.push("Jules is thinking...".to_owned());
        },
        JobStatus::Working => {
            logs.push("Jules is working on code...".to_owned());
        },
        JobStatus::WaitingApproval => {
            logs.push("Plan ready for review.".to_owned());
        },
        JobStatus::PrReady => {
            logs.push("Pull Request created.".to_owned());
        },
        _ => {},
    }
    assert(logs.deep_view() =~= status_lines(status));
    logs
}

impl SessionWatch {
    /// Begins the watch: see [`watch_begin`].
    pub fn begin(
        job_id: &str,
        jules: JulesClient,
        source: &str,
        prompt: &str,
        require_approval: bool,
    ) -> (r: (SessionWatch, Step))
        ensures
            (r.0@, r.1@) == watch_begin(job_id@, jules@, source@, prompt@, require_approval),
    {
        let request = jules.start_session_request(source, prompt, require_approval);
        let watch = SessionWatch {
            job_id: job_id.to_owned(),
            jules,
            session_id: String::new(),
            stage: WatchStage::Starting,
        };
        let step = Step::announcing(
            JobUpdateEvent::stage(job_id, JobStatus::Planning, "Starting AI Session..."),
            Command::Http(request),
        );
        (watch, step)
    }

    /// The result of the watch, once it has ended.
    pub fn result(&self) -> (r: Option<Result<(), JobError>>)
        ensures
            optional_result_view(r) == self@.result(),
    {
        match &self.stage {
            WatchStage::Finished(Ok(_)) => Some(Ok(())),
            WatchStage::Finished(Err(e)) => Some(Err(e.duplicate())),
            _ => None,
        }
    }

    /// Tells whether a poll is under way: what the watch broadcasts next
    /// is then what that poll told.
    pub fn is_polling(&self) -> (r: bool)
        ensures
            r == (self@.stage is Polling),
    {
        match &self.stage {
            WatchStage::Polling => true,
            _ => false,
        }
    }

    /// The id of the session; empty until the session has started.
    pub fn session_id(&self) -> (r: &str)
        ensures
            r@ == self@.session_id,
    {
        self.session_id.as_str()
    }

    /// Takes the watch one step further: see [`watch_step`].
    pub fn advance(self, outcome: Outcome) -> (r: (SessionWatch, Step))
        ensures
            (r.0@, r.1@) == watch_step(self@, outcome@),
    {
        let SessionWatch { job_id, jules, session_id, stage } = self;
        match stage {
            WatchStage::Starting => match outcome {
                Outcome::Http(reply) => match jules.start_session(&reply) {
                    Ok(started) => (
                        SessionWatch {
                            job_id,
                            jules,
                            session_id: started,
                            stage: WatchStage::Sleeping,
                        },
                        Step::silent(Command::Sleep(POLL_INTERVAL_SECS)),
                    ),
                    Err(e) => {
                        let error = JobError::SessionStartError(e);
                        let step = Step::failing(job_id.as_str(), JobStatus::Planning, &error);
                        (
                            SessionWatch {
                                job_id,
                                jules,
                                session_id,
                                stage: WatchStage::Finished(Err(error)),
                            },
                            step,
                        )
                    },
                },
                _ => (
                    SessionWatch { job_id, jules, session_id, stage: WatchStage::Starting },
                    Step::silent(Command::Pending),
                ),
            },
            WatchStage::Sleeping => match outcome {
                Outcome::Woke => {
                    let request = jules.poll_session_request(session_id.as_str());
                    (
                        SessionWatch { job_id, jules, session_id, stage: WatchStage::Polling },
                        Step::silent(Command::Http(request)),
                    )
                },
                _ => (
                    SessionWatch { job_id, jules, session_id, stage: WatchStage::Sleeping },
                    Step::silent(Command::Pending),
                ),
            },
            WatchStage::Polling => match outcome {
                Outcome::Http(reply) => match jules.poll_session(&reply) {
                    Ok((status, pr_details, plan)) => {
                        let event = JobUpdateEvent {
                            id: job_id.clone(),
                            status,
                            logs: status_log(status),
                            pr_details,
                            plan,
                        };
                        if status.is_terminal() {
                            (
                                SessionWatch {
                                    job_id,
                                    jules,
                                    session_id,
                                    stage: WatchStage::Finished(Ok(())),
                                },
                                Step::announcing(event, Command::Finish),
                            )
                        } else {
                            (
                                SessionWatch {
                                    job_id,
                                    jules,
                                    session_id,
                                    stage: WatchStage::Sleeping,
                                },
                                Step::announcing(event, Command::Sleep(POLL_INTERVAL_SECS)),
                            )
                        }
                    },
                    Err(_) => (
                        SessionWatch { job_id, jules, session_id, stage: WatchStage::Sleeping },
                        Step::silent(Command::Sleep(POLL_INTERVAL_SECS)),
                    ),
                },
                _ => (
                    SessionWatch { job_id, jules, session_id, stage: WatchStage::Polling },
                    Step::silent(Command::Pending),
                ),
            },
            WatchStage::Finished(result) => (
                SessionWatch { job_id, jules, session_id, stage: WatchStage::Finished(result) },
                Step::silent(Command::Finish),
            ),
        }
    }
}


/// What a series of polls comes to: the watch after the last one, and the
/// events that were broadcast, in order.
pub struct WatchRun {
    pub watch: SessionWatchView,
    pub events: Seq<JobUpdateEventView>,
}

/// The run of a watch over a series of polls: before each poll the wait
/// ends, then the poll is answered by the next reply.
pub open spec fn watch_polls(watch: SessionWatchView, replies: Seq<HttpOutcomeView>) -> WatchRun
    decreases replies.len(),
{
    if replies.len() == 0 {
        WatchRun { watch, events: Seq::empty() }
    } else {
        let before = watch_polls(watch, replies.drop_last());
        let (woken, wake) = watch_step(before.watch, OutcomeView::Woke);
        let (after, poll) = watch_step(woken, OutcomeView::Http(replies.last()));
        WatchRun { watch: after, events: before.events + wake.events + poll.events }
    }
}

/// The reply tells a status after which the watch ends.
pub open spec fn tells_final_status(reply: HttpOutcomeView) -> bool {
    polled(reply) matches Ok(report) && report.status.is_final()
}

/// The number of replies that tell a status.
pub open spec fn polls_told(replies: Seq<HttpOutcomeView>) -> nat
    decreases replies.len(),
{
    if replies.len() == 0 {
        0
    } else if polled(replies.last()) is Ok {
        polls_told(replies.drop_last()) + 1
    } else {
        polls_told(replies.drop_last())
    }
}

/// A poll ends the watch if and only if it tells `PrReady` or `Merged`.
/// A poll that tells a status is reported in exactly one event, which
/// carries that status; a poll that fails is reported in none.
pub proof fn lemma_poll_ends_watch_iff_final(watch: SessionWatchView, reply: HttpOutcomeView)
    requires
        watch.stage is Polling,
    ensures
        watch_step(watch, OutcomeView::Http(reply)).0.stage is Finished <==> tells_final_status(
            reply,
        ),
        tells_final_status(reply) ==> watch_step(watch, OutcomeView::Http(reply)).0.result()
            == Some(Ok::<(), JobErrorView>(())),
        !tells_final_status(reply) ==> watch_step(watch, OutcomeView::Http(reply)).0.stage
            is Sleeping,
        polled(reply) matches Ok(report) ==> watch_step(
            watch,
            OutcomeView::Http(reply),
        ).1.events == seq![poll_event(watch.job_id, report)],
        polled(reply) is Err ==> watch_step(watch, OutcomeView::Http(reply)).1.events.len() == 0,
{
}

/// While no poll tells `PrReady` or `Merged` the watch does not end,
/// however long it polls, and it broadcasts one event for every poll that
/// tells a status.
pub proof fn lemma_watch_goes_on(watch: SessionWatchView, replies: Seq<HttpOutcomeView>)
    requires
        watch.stage is Sleeping,
        forall|i: int| 0 <= i < replies.len() ==> !tells_final_status(#[trigger] replies[i]),
    ensures
        watch_polls(watch, replies).watch.stage is Sleeping,
        watch_polls(watch, replies).events.len() == polls_told(replies),
    decreases replies.len(),
{
    if replies.len() > 0 {
        let earlier = replies.drop_last();
        assert forall|i: int| 0 <= i < earlier.len() implies !tells_final_status(
            #[trigger] earlier[i],
        ) by {
            assert(earlier[i] == replies[i]);
        }
        lemma_watch_goes_on(watch, earlier);
        let before = watch_polls(watch, earlier);
        let (woken, wake) = watch_step(before.watch, OutcomeView::Woke);
        assert(!tells_final_status(replies[replies.len() - 1]));
        lemma_poll_ends_watch_iff_final(woken, replies.last());
    }
}

/// A watch that has ended stays as it is and broadcasts nothing more.
pub proof fn lemma_finished_watch_is_silent(watch: SessionWatchView, outcome: OutcomeView)
    requires
        watch.stage is Finished,
    ensures
        watch_step(watch, outcome).0 == watch,
        watch_step(watch, outcome).1 == silent(CommandView::Finish),
{
}


/// Two steps taken one after the other, seen as one: the events of both,
/// in order, and the command of the second.
pub open spec fn step_then(first: StepView, second: StepView) -> StepView {
    StepView { events: first.events + second.events, command: second.command }
}

impl Step {
    /// Joins two steps taken one after the other.
    pub fn followed_by(self, second: Step) -> (r: Step)
        ensures
            r@ == step_then(self@, second@),
    {
        let Step { events: mut events, command: _ } = self;
        let Step { events: mut later, command } = second;
        events.append(&mut later);
        let r = Step { events, command };
        assert(r@.events =~= self@.events + second@.events);
        r
    }
}

/// What a watch broadcasts bears the id of its job; and a watch ends with
/// success only in a step that broadcasts one event, whose status is
/// `PrReady` or `Merged`.
pub proof fn lemma_watch_reports_its_job(watch: SessionWatchView, outcome: OutcomeView)
    ensures
        ({
            let (next, step) = watch_step(watch, outcome);
            &&& next.job_id == watch.job_id
            &&& forall|i: int|
                0 <= i < step.events.len() ==> (#[trigger] step.events[i]).id == watch.job_id
            &&& watch.result() is None && next.result() == Some(Ok::<(), JobErrorView>(()))
                ==> step.events.len() == 1 && step.events[0].status.is_final() && step.command
                == CommandView::Finish
        }),
{
}

} // verus!
