//! The agent-session client: starting a session, steering it, and reading
//! its state into the job's own statuses.

use crate::error::{ApiError, ApiErrorView, ApiOperation};
use crate::github::{plain_result, text_result};
use crate::http::{
    accept_reply, body_document, parse_body, read_reply, reply_accepted, reply_document,
    HttpMethod, HttpOutcome, HttpOutcomeView, HttpRequest, HttpRequestView,
};
use crate::json::{
    array_at, json_below, json_document, json_items, json_member, json_nodes, json_quote,
    json_quoted,
    lemma_below_path, lemma_nothing_below, member_natural, member_path, member_text, natural_at, text_at, JsonNode,
    JsonStep,
};
use crate::text::{parse_decimal, parsed_decimal, pieces, same_text, split, texts_view};
use crate::types::{pr_view, JobStatus, PrDetails, PrDetailsView};
use vstd::prelude::*;
use vstd::string::StringExecFns;

verus! {

/// The client of the agent service, holding the account's token.
pub struct JulesClient {
    token: String,
}

impl View for JulesClient {
    type V = Seq<char>;

    closed spec fn view(&self) -> Seq<char> {
        self.token@
    }
}

/// What one poll of a session tells: the status, the pull request where
/// one exists, the plan where one awaits approval.
pub struct SessionReport {
    pub status: JobStatus,
    pub pr_details: Option<PrDetailsView>,
    pub plan: Option<Seq<char>>,
}

/// A request to the agent service.
pub open spec fn jules_request(
    token: Seq<char>,
    method: HttpMethod,
    url: Seq<char>,
    body: Option<Seq<char>>,
) -> HttpRequestView {
    HttpRequestView { method, url, bearer_token: token, user_agent: None, body }
}

/// The address of a session, or of one of its actions.
pub open spec fn session_url(session_id: Seq<char>, action: Seq<char>) -> Seq<char> {
    "https://jules.googleapis.com/v1/"@ + session_id + action
}

/// How a truth value is written in JSON.
pub open spec fn json_bool(b: bool) -> Seq<char> {
    if b {
        "true"@
    } else {
        "false"@
    }
}

/// The request that starts a session on a source with an instruction.
pub open spec fn start_session_request(
    token: Seq<char>,
    source: Seq<char>,
    prompt: Seq<char>,
    require_approval: bool,
) -> HttpRequestView {
    jules_request(
        token,
        HttpMethod::Post,
        "https://jules.googleapis.com/v1/sessions"@,
        Some(
            "{\"prompt\":"@ + json_quoted(prompt) + ",\"requirePlanApproval\":"@ + json_bool(
                require_approval,
            ) + ",\"source\":"@ + json_quoted(source) + "}"@,
        ),
    )
}

/// The id of the session that was started; empty where the reply names
/// none.
pub open spec fn started_session(outcome: HttpOutcomeView) -> Result<Seq<char>, ApiErrorView> {
    match reply_document(ApiOperation::StartSession, outcome) {
        Err(e) => Err(e),
        Ok(doc) => match text_at(doc, member_path("name"@)) {
            Some(name) => Ok(name),
            None => Ok(Seq::empty()),
        },
    }
}

/// The request that asks for the state of a session.
pub open spec fn poll_session_request(token: Seq<char>, session_id: Seq<char>) -> HttpRequestView {
    jules_request(token, HttpMethod::Get, session_url(session_id, ""@), None)
}

/// The request that approves the plan of a session.
pub open spec fn resume_session_request(token: Seq<char>, session_id: Seq<char>)
    -> HttpRequestView {
    jules_request(
        token,
        HttpMethod::Post,
        session_url(session_id, ":approvePlan"@),
        Some("{}"@),
    )
}

/// The request that sends feedback to a session.
pub open spec fn send_activity_request(
    token: Seq<char>,
    session_id: Seq<char>,
    feedback: Seq<char>,
) -> HttpRequestView {
    jules_request(
        token,
        HttpMethod::Post,
        session_url(session_id, ":sendMessage"@),
        Some("{\"prompt\":"@ + json_quoted(feedback) + "}"@),
    )
}

/// The status that a state of the remote session stands for. A session
/// that waits for its user awaits approval; one that succeeded has a pull
/// request ready or, without one, is merged; one that runs is working.
/// Every other state, known or not, is planning.
pub open spec fn mapped_status(state: Seq<char>, has_pull_request: bool) -> JobStatus {
    if state == "WAITING_FOR_USER"@ {
        JobStatus::WaitingApproval
    } else if state == "SUCCEEDED"@ {
        if has_pull_request {
            JobStatus::PrReady
        } else {
            JobStatus::Merged
        }
    } else if state == "RUNNING"@ {
        JobStatus::Working
    } else {
        JobStatus::Planning
    }
}

/// The path to output `i` of a session.
pub open spec fn output_path(i: int) -> Seq<JsonStep> {
    seq![JsonStep::Key("outputs"@), JsonStep::Item(i)]
}

/// The path to the pull request of output `i`.
pub open spec fn pull_request_path(i: int) -> Seq<JsonStep> {
    output_path(i).push(JsonStep::Key("pullRequest"@))
}

/// The first output from `from` on, among `count` outputs, that holds a
/// pull request.
pub open spec fn first_pull_request(doc: Map<Seq<JsonStep>, JsonNode>, from: int, count: nat)
    -> Option<int>
    decreases count - from,
{
    if from < 0 || from >= count {
        None
    } else if doc.contains_key(pull_request_path(from)) {
        Some(from)
    } else {
        first_pull_request(doc, from + 1, count)
    }
}

/// The pull request that a session put out: the first of its outputs that
/// holds one.
pub open spec fn pull_request_output(doc: Map<Seq<JsonStep>, JsonNode>) -> Option<int> {
    match array_at(doc, member_path("outputs"@)) {
        Some(count) => first_pull_request(doc, 0, count),
        None => None,
    }
}

/// A text, or the empty text where there is none.
pub open spec fn text_or_empty(t: Option<Seq<char>>) -> Seq<char> {
    match t {
        Some(s) => s,
        None => Seq::empty(),
    }
}

/// The number of a pull request: the one that is given, where one is; else
/// the number that the last piece of the address writes, where it writes
/// one; else 0.
pub open spec fn pull_request_number(given: Option<u64>, url: Seq<char>) -> u64 {
    match given {
        Some(n) => n,
        None => match parsed_decimal(pieces(url, '/').last()) {
            Some(n) => n,
            None => 0,
        },
    }
}

/// The details of the pull request of output `i`: address and title as
/// the output gives them, empty where it gives none, and the number as
/// [`pull_request_number`] finds it.
pub open spec fn pull_request_details(doc: Map<Seq<JsonStep>, JsonNode>, i: int)
    -> PrDetailsView {
    let url = text_or_empty(text_at(doc, pull_request_path(i).push(JsonStep::Key("url"@))));
    PrDetailsView {
        number: pull_request_number(
            natural_at(doc, pull_request_path(i).push(JsonStep::Key("number"@))),
            url,
        ),
        url,
        title: text_or_empty(text_at(doc, pull_request_path(i).push(JsonStep::Key("title"@)))),
    }
}

/// The path to the summary of the plan that awaits approval.
pub open spec fn plan_path() -> Seq<JsonStep> {
    seq![JsonStep::Key("inputs"@), JsonStep::Key("plan_summary"@)]
}

/// What the document of a session tells. The plan is reported only while
/// the session waits for its user, the pull request only once the session
/// succeeded.
pub open spec fn session_report(doc: Map<Seq<JsonStep>, JsonNode>) -> SessionReport {
    let state = text_or_empty(text_at(doc, member_path("state"@)));
    let output = pull_request_output(doc);
    let status = mapped_status(state, output is Some);
    SessionReport {
        status,
        pr_details: if status == JobStatus::PrReady {
            Some(pull_request_details(doc, output->0))
        } else {
            None
        },
        plan: if status == JobStatus::WaitingApproval {
            text_at(doc, plan_path())
        } else {
            None
        },
    }
}

/// What a poll tells. The status of the reply does not count; a reply
/// whose body is a JSON document is read, and only a missing reply or
/// another body is an error.
pub open spec fn polled(outcome: HttpOutcomeView) -> Result<SessionReport, ApiErrorView> {
    match outcome {
        HttpOutcomeView::Failed { detail } => Err(
            ApiErrorView::Transport { operation: ApiOperation::PollSession, detail },
        ),
        HttpOutcomeView::Reply { status, body } => match body_document(
            ApiOperation::PollSession,
            body,
        ) {
            Err(e) => Err(e),
            Ok(doc) => Ok(session_report(doc)),
        },
    }
}

/// The content of what a poll returned.
pub open spec fn poll_result(r: Result<(JobStatus, Option<PrDetails>, Option<String>), ApiError>)
    -> Result<SessionReport, ApiErrorView> {
    match r {
        Ok((status, pr, plan)) => Ok(
            SessionReport { status, pr_details: pr_view(pr), plan: plan.deep_view() },
        ),
        Err(e) => Err(e@),
    }
}

/// Maps the state of a remote session to a status. The mapping is total:
/// a state that is not known maps to `Planning`.
pub fn map_session_state(state: &str, has_pull_request: bool) -> (r: JobStatus)
    ensures
        r == mapped_status(state@, has_pull_request),
        state@ != "WAITING_FOR_USER"@ && state@ != "SUCCEEDED"@ && state@ != "RUNNING"@ ==> r
            == JobStatus::Planning,
{
    if same_text(state, "WAITING_FOR_USER") {
        JobStatus::WaitingApproval
    } else if same_text(state, "SUCCEEDED") {
        if has_pull_request {
            JobStatus::PrReady
        } else {
            JobStatus::Merged
        }
    } else if same_text(state, "RUNNING") {
        JobStatus::Working
    } else {
        JobStatus::Planning
    }
}

fn session_address(session_id: &str, action: &str) -> (r: String)
    ensures
        r@ == session_url(session_id@, action@),
{
    let mut url = "https://jules.googleapis.com/v1/".to_owned();
    url.append(session_id);
    url.append(action);
    url
}

/// Finds the number of a pull request: see [`pull_request_number`].
pub fn number_of_pull_request(given: Option<u64>, url: &str) -> (r: u64)
    ensures
        r == pull_request_number(given, url@),
{
    match given {
        Some(n) => n,
        None => {
            let parts = split(url, '/');
            let ghost ps = texts_view(parts@);
            assert(ps.len() == parts@.len());
            assert(ps.last() == parts@[parts@.len() - 1]@);
            match parse_decimal(&parts[parts.len() - 1]) {
                Some(n) => n,
                None => 0,
            }
        },
    }
}

/// Reads the details of the pull request that one output holds.
fn read_pull_request(pr: &serde_json::Value) -> (r: PrDetails)
    ensures
        r@.number == pull_request_number(
            natural_at(json_nodes(*pr), member_path("number"@)),
            r@.url,
        ),
        r@.url == text_or_empty(text_at(json_nodes(*pr), member_path("url"@))),
        r@.title == text_or_empty(text_at(json_nodes(*pr), member_path("title"@))),
{
    let url = match member_text(pr, "url") {
        Some(s) => s,
        None => String::new(),
    };
    let number = number_of_pull_request(member_natural(pr, "number"), url.as_str());
    let title = match member_text(pr, "title") {
        Some(s) => s,
        None => String::new(),
    };
    PrDetails { number, url, title }
}

/// Looks through the outputs of a session for the first pull request.
fn find_pull_request(doc: &serde_json::Value) -> (r: Option<PrDetails>)
    ensures
        match pull_request_output(json_nodes(*doc)) {
            Some(i) => r is Some && r->0@ == pull_request_details(json_nodes(*doc), i),
            None => r is None,
        },
{
    let ghost nodes = json_nodes(*doc);
    let outputs = match json_member(doc, "outputs") {
        Some(o) => o,
        None => {
            proof {
                lemma_nothing_below(nodes, JsonStep::Key("outputs"@), Seq::empty());
                assert(seq![JsonStep::Key("outputs"@)] + Seq::<JsonStep>::empty() =~= member_path(
                    "outputs"@,
                ));
            }
            return None;
        },
    };
    proof {
        lemma_below_path(nodes, JsonStep::Key("outputs"@), Seq::empty());
        assert(seq![JsonStep::Key("outputs"@)] + Seq::<JsonStep>::empty() =~= member_path(
            "outputs"@,
        ));
    }
    let items = match json_items(outputs) {
        Some(items) => items,
        None => {
            return None;
        },
    };
    let ghost count = items@.len();
    assert(array_at(nodes, member_path("outputs"@)) == Some(count));
    let mut i: usize = 0;
    while i < items.len()
        invariant
            0 <= i <= items@.len(),
            count == items@.len(),
            nodes == json_nodes(*doc),
            array_at(nodes, member_path("outputs"@)) == Some(count),
            json_nodes(*outputs) == json_below(nodes, JsonStep::Key("outputs"@)),
            forall|k: int|
                0 <= k < items@.len() ==> #[trigger] json_nodes(items@[k]) == json_below(
                    json_nodes(*outputs),
                    JsonStep::Item(k),
                ),
            first_pull_request(nodes, 0, count) == first_pull_request(nodes, i as int, count),
        decreases items@.len() - i,
    {
        let ghost below_item = json_nodes(items@[i as int]);
        assert(below_item == json_below(json_nodes(*outputs), JsonStep::Item(i as int)));
        proof {
            assert(seq![JsonStep::Key("outputs"@)] + (seq![JsonStep::Item(i as int)] + member_path(
                "pullRequest"@,
            )) =~= pull_request_path(i as int));
            assert(below_item.contains_key(member_path("pullRequest"@)) == nodes.contains_key(
                pull_request_path(i as int),
            ));
        }
        match json_member(&items[i], "pullRequest") {
            Some(pr) => {
                let details = read_pull_request(pr);
                proof {
                    let inner = json_nodes(*pr);
                    assert(inner == json_below(below_item, JsonStep::Key("pullRequest"@)));
                    assert forall|key: Seq<char>|
                        text_at(inner, member_path(key)) == text_at(
                            nodes,
                            pull_request_path(i as int).push(JsonStep::Key(key)),
                        ) && natural_at(inner, member_path(key)) == natural_at(
                            nodes,
                            pull_request_path(i as int).push(JsonStep::Key(key)),
                        ) by {
                        let p = member_path(key);
                        let q = seq![JsonStep::Key("pullRequest"@)] + p;
                        let r = seq![JsonStep::Item(i as int)] + q;
                        assert(seq![JsonStep::Key("outputs"@)] + r =~= pull_request_path(
                            i as int,
                        ).push(JsonStep::Key(key)));
                    }
                }
                return Some(details);
            },
            None => {
                proof {
                    lemma_nothing_below(below_item, JsonStep::Key("pullRequest"@), Seq::empty());
                    assert(seq![JsonStep::Key("pullRequest"@)] + Seq::<JsonStep>::empty()
                        =~= member_path("pullRequest"@));
                }
            },
        }
        i += 1;
    }
    None
}

impl JulesClient {
    /// A client that authorises its requests with `token`.
    pub fn new(token: String) -> (r: JulesClient)
        ensures
            r@ == token@,
    {
        JulesClient { token }
    }

    fn request(&self, method: HttpMethod, url: String, body: Option<String>) -> (r: HttpRequest)
        ensures
            r@ == jules_request(self@, method, url@, body.deep_view()),
    {
        HttpRequest { method, url, bearer_token: self.token.clone(), user_agent: None, body }
    }

    /// Builds the request that starts a session on `source` with the
    /// instruction `prompt`.
    pub fn start_session_request(&self, source: &str, prompt: &str, require_approval: bool) -> (r:
        HttpRequest)
        ensures
            r@ == start_session_request(self@, source@, prompt@, require_approval),
    {
        let mut body = "{\"prompt\":".to_owned();
        let quoted_prompt = json_quote(prompt);
        body.append(quoted_prompt.as_str());
        body.append(",\"requirePlanApproval\":");
        if require_approval {
            body.append("true");
        } else {
            body.append("false");
        }
        body.append(",\"source\":");
        let quoted_source = json_quote(source);
        body.append(quoted_source.as_str());
        body.append("}");
        self.request(
            HttpMethod::Post,
            "https://jules.googleapis.com/v1/sessions".to_owned(),
            Some(body),
        )
    }

    /// Reads the id of the new session from the reply.
    pub fn start_session(&self, outcome: &HttpOutcome) -> (r: Result<String, ApiError>)
        ensures
            text_result(r) == started_session(outcome@),
    {
        match read_reply(ApiOperation::StartSession, outcome) {
            Err(e) => Err(e),
            Ok(doc) => match member_text(&doc, "name") {
                Some(name) => Ok(name),
                None => Ok(String::new()),
            },
        }
    }

    /// Builds the request that asks for the state of a session.
    pub fn poll_session_request(&self, session_id: &str) -> (r: HttpRequest)
        ensures
            r@ == poll_session_request(self@, session_id@),
    {
        self.request(HttpMethod::Get, session_address(session_id, ""), None)
    }

    /// Reads the state of a session from the reply: the status it maps to,
    /// the pull request where one exists, the plan where one awaits
    /// approval.
    pub fn poll_session(&self, outcome: &HttpOutcome) -> (r: Result<
        (JobStatus, Option<PrDetails>, Option<String>),
        ApiError,
    >)
        ensures
            poll_result(r) == polled(outcome@),
    {
        match outcome {
            HttpOutcome::Failed { detail } => Err(
                ApiError::Transport {
                    operation: ApiOperation::PollSession,
                    detail: detail.clone(),
                },
            ),
            HttpOutcome::Reply { status, body } => {
                match parse_body(ApiOperation::PollSession, body) {
                    Err(e) => Err(e),
                    Ok(doc) => {
                        let state = match member_text(&doc, "state") {
                            Some(s) => s,
                            None => String::new(),
                        };
                        let found = find_pull_request(&doc);
                        let status = map_session_state(state.as_str(), found.is_some());
                        match status {
                            JobStatus::PrReady => Ok((status, found, None)),
                            JobStatus::WaitingApproval => {
                                let plan = match json_member(&doc, "inputs") {
                                    Some(inputs) => {
                                        proof {
                                            lemma_below_path(
                                                json_nodes(doc),
                                                JsonStep::Key("inputs"@),
                                                member_path("plan_summary"@),
                                            );
                                            assert(seq![JsonStep::Key("inputs"@)] + member_path(
                                                "plan_summary"@,
                                            ) =~= plan_path());
                                        }
                                        member_text(inputs, "plan_summary")
                                    },
                                    None => {
                                        proof {
                                            lemma_nothing_below(
                                                json_nodes(doc),
                                                JsonStep::Key("inputs"@),
                                                member_path("plan_summary"@),
                                            );
                                            assert(seq![JsonStep::Key("inputs"@)] + member_path(
                                                "plan_summary"@,
                                            ) =~= plan_path());
                                        }
                                        None
                                    },
                                };
                                Ok((status, None, plan))
                            },
                            _ => Ok((status, None, None)),
                        }
                    },
                }
            },
        }
    }

    /// Builds the request that approves the plan of a session.
    pub fn resume_session_request(&self, session_id: &str) -> (r: HttpRequest)
        ensures
            r@ == resume_session_request(self@, session_id@),
    {
        self.request(
            HttpMethod::Post,
            session_address(session_id, ":approvePlan"),
            Some("{}".to_owned()),
        )
    }

    /// Reads from the reply whether the approval was accepted.
    pub fn resume_session(&self, outcome: &HttpOutcome) -> (r: Result<(), ApiError>)
        ensures
            plain_result(r) == reply_accepted(ApiOperation::ResumeSession, outcome@),
    {
        accept_reply(ApiOperation::ResumeSession, outcome)
    }

    /// Builds the request that sends feedback on the plan of a session.
    pub fn send_activity_request(&self, session_id: &str, feedback: &str) -> (r: HttpRequest)
        ensures
            r@ == send_activity_request(self@, session_id@, feedback@),
    {
        let mut body = "{\"prompt\":".to_owned();
        let quoted = json_quote(feedback);
        body.append(quoted.as_str());
        body.append("}");
        self.request(HttpMethod::Post, session_address(session_id, ":sendMessage"), Some(body))
    }

    /// Reads from the reply whether the feedback was accepted.
    pub fn send_activity(&self, outcome: &HttpOutcome) -> (r: Result<(), ApiError>)
        ensures
            plain_result(r) == reply_accepted(ApiOperation::SendFeedback, outcome@),
    {
        accept_reply(ApiOperation::SendFeedback, outcome)
    }
}

/// Every document of a session has a status: one of the five that the
/// mapping knows, and `Planning` where the state is none of the three that
/// it names. So a poll whose reply is a JSON document never fails, whatever
/// the document says.
pub proof fn lemma_every_session_has_a_status(status: u16, body: Seq<char>)
    requires
        json_document(body) is Some,
    ensures
        polled(HttpOutcomeView::Reply { status, body: Some(body) }) matches Ok(report) && ({
            let state = text_or_empty(text_at(json_document(body)->0, member_path("state"@)));
            &&& report.status == JobStatus::WaitingApproval || report.status
                == JobStatus::PrReady || report.status == JobStatus::Merged || report.status
                == JobStatus::Working || report.status == JobStatus::Planning
            &&& state != "WAITING_FOR_USER"@ && state != "SUCCEEDED"@ && state != "RUNNING"@
                ==> report.status == JobStatus::Planning
            &&& report.pr_details is Some <==> report.status == JobStatus::PrReady
            &&& report.plan is Some ==> report.status == JobStatus::WaitingApproval
        }),
{
}

} // verus!
