use vstd::prelude::*;

use crate::ai::{get_validated_ai_config, AiConfigError, AiSection, validated};
use crate::client::{endpoint_for, resolve_endpoint};
use crate::text::{count_lines, lines_of, same_text};

verus! {

/// Appended to the diff when the answer is wanted in another language than
/// English; the language's name goes between the two parts.
pub const LANGUAGE_DIRECTIVE_HEAD: &'static str = "\n The answer should be in ";

/// See `LANGUAGE_DIRECTIVE_HEAD`.
pub const LANGUAGE_DIRECTIVE_TAIL: &'static str =
    " language. If you cannot recognize this language, use English instead.";

/// Stands before the summary in the request for a subject line.
pub const SUBJECT_REQUEST_HEAD: &'static str = "The changes are: \n";

/// Stands before the failure's text when the subject request failed.
pub const SUBJECT_ERROR_HEAD: &'static str = "Error: ";

/// The line ceiling of the diff when none is configured.
pub const DEFAULT_LINES_LIMIT: usize = 1000;

/// A diff whose line count is above the configured ceiling.
#[derive(Debug, Clone, Copy, PartialEq, Eq, Structural)]
pub struct DiffLimitExceeded {
    pub lines: usize,
    pub limit: usize,
}

/// The diff fits under the ceiling.
pub open spec fn diff_within_limit(diff: Seq<char>, limit: nat) -> bool {
    lines_of(diff).len() <= limit
}

/// Checks the line count of the diff against the ceiling; the failure
/// carries both numbers.
pub fn check_diff_limit(diff_content: &str, diff_limit: usize) -> (r: Result<(), DiffLimitExceeded>)
    ensures
        r is Ok <==> diff_within_limit(diff_content@, diff_limit as nat),
        r is Err ==> r->Err_0.lines == lines_of(diff_content@).len() && r->Err_0.limit
            == diff_limit,
{
    let lines = count_lines(diff_content);
    if lines > diff_limit {
        Err(DiffLimitExceeded { lines, limit: diff_limit })
    } else {
        Ok(())
    }
}

/// A diff of exactly `limit` lines passes the check; one of `limit + 1`
/// lines does not.
pub proof fn lemma_limit_boundary(diff: Seq<char>, limit: nat)
    ensures
        lines_of(diff).len() == limit ==> diff_within_limit(diff, limit),
        lines_of(diff).len() == limit + 1 ==> !diff_within_limit(diff, limit),
{
}

/// The user message of the summary request: the diff, followed by a
/// language directive unless the language is English.
pub open spec fn summary_request_text(diff: Seq<char>, language: Seq<char>) -> Seq<char> {
    if language == "English"@ {
        diff
    } else {
        diff + LANGUAGE_DIRECTIVE_HEAD@ + language + LANGUAGE_DIRECTIVE_TAIL@
    }
}

/// Builds the user message of the summary request.
pub fn summary_request_content(diff_content: &str, language: &str) -> (r: String)
    ensures
        r@ == summary_request_text(diff_content@, language@),
{
    let mut r = diff_content.to_string();
    if !same_text(language, "English") {
        r.append(LANGUAGE_DIRECTIVE_HEAD);
        r.append(language);
        r.append(LANGUAGE_DIRECTIVE_TAIL);
    }
    r
}

/// The user message of the subject request.
pub open spec fn subject_request_text(summary: Seq<char>) -> Seq<char> {
    SUBJECT_REQUEST_HEAD@ + summary
}

/// Builds the user message of the subject request from the summary.
pub fn subject_request_content(summary: &str) -> (r: String)
    ensures
        r@ == subject_request_text(summary@),
{
    let mut r = SUBJECT_REQUEST_HEAD.to_string();
    r.append(summary);
    r
}

/// The subject taken from the answer to the subject request: the answer
/// itself, or the failure's text behind `Error: ` so that it stays visible.
pub open spec fn subject_from_reply(reply: Result<Seq<char>, Seq<char>>) -> Seq<char> {
    match reply {
        Ok(a) => a,
        Err(e) => SUBJECT_ERROR_HEAD@ + e,
    }
}

/// The arguments of the commit command.
pub open spec fn commit_args_spec(subject: Seq<char>, message: Seq<char>, amend: bool) -> Seq<Seq<char>> {
    if amend {
        seq!["commit"@, "--amend"@, "-m"@, subject, "-m"@, message]
    } else {
        seq!["commit"@, "-m"@, subject, "-m"@, message]
    }
}

/// The arguments that commit with `subject` as title and `message` as body,
/// rewriting the last commit when `amend` is set.
pub fn git_commit_args(subject: &str, message: &str, amend: bool) -> (r: Vec<String>)
    ensures
        r@.len() == commit_args_spec(subject@, message@, amend).len(),
        forall|k: int| 0 <= k < r@.len() ==> #[trigger] r@[k]@ == commit_args_spec(subject@, message@, amend)[k],
{
    let mut r: Vec<String> = Vec::new();
    r.push("commit".to_string());
    if amend {
        r.push("--amend".to_string());
    }
    r.push("-m".to_string());
    r.push(subject.to_string());
    r.push("-m".to_string());
    r.push(message.to_string());
    r
}

/// One chat request to send.
pub struct ChatCall {
    pub url: String,
    pub model: String,
    pub api_key: String,
    pub system: String,
    pub user: String,
}

/// The commit to make.
pub struct CommitDraft {
    pub subject: String,
    pub body: String,
}

/// Where a commit run stands.
#[derive(Debug, Clone, Copy, PartialEq, Eq, Structural)]
pub enum Stage {
    /// Waiting for the summary of the diff.
    Summarizing,
    /// Waiting for the subject line.
    Titling,
    /// Waiting for the outcome of the commit.
    Committing,
    /// Nothing more to do.
    Finished,
}

/// What the caller does next.
pub enum Action {
    /// Nothing to summarise: stop, successfully.
    Stop,
    /// Dry run: show the diff document and stop.
    ShowDiff,
    /// The diff is above the line ceiling: stop with an error.
    RejectTooLarge(DiffLimitExceeded),
    /// The AI settings are incomplete: stop with an error.
    RejectConfig(AiConfigError),
    /// No endpoint is configured or known for the model: stop with an error.
    RejectNoEndpoint,
    /// Send this chat request and report its answer.
    Chat(ChatCall),
    /// The summary request failed: stop with its failure, commit nothing.
    AbortChat { message: String },
    /// Make this commit and report whether it succeeded.
    Commit { draft: CommitDraft, amend: bool },
    /// The run is over.
    Done { committed: bool },
}

/// What a commit run starts from.
pub struct CommitRequest {
    /// The diff document to summarise.
    pub diff_content: String,
    /// Only show the document.
    pub dry: bool,
    /// The largest number of lines the document may have.
    pub lines_limit: usize,
    /// Rewrite the last commit instead of making a new one.
    pub amend: bool,
    /// A subject given by the user, which saves the subject request.
    pub title: Option<String>,
    /// The stored AI settings, `None` when there are none.
    pub ai: Option<AiSection>,
    /// The instructions for the summary request.
    pub diff_prompt: String,
    /// The instructions for the subject request.
    pub subject_prompt: String,
}

/// A commit run past its checks.
pub struct CommitFlow {
    pub stage: Stage,
    pub url: String,
    pub model: String,
    pub api_key: String,
    pub subject_prompt: String,
    pub title: Option<String>,
    pub amend: bool,
    pub summary: String,
    pub subject: String,
}

/// The view of a chat answer.
pub open spec fn reply_view(reply: Result<String, String>) -> Result<Seq<char>, Seq<char>> {
    match reply {
        Ok(a) => Ok(a@),
        Err(e) => Err(e@),
    }
}

/// The run gets past its checks and sends the summary request.
pub open spec fn request_ready(req: CommitRequest) -> bool {
    &&& req.diff_content@.len() > 0
    &&& !req.dry
    &&& diff_within_limit(req.diff_content@, req.lines_limit as nat)
    &&& validated(req.ai) is Ok
    &&& endpoint_for(validated(req.ai)->Ok_0.0, validated(req.ai)->Ok_0.1) is Some
}

/// The run stops before any request: nothing to do, a dry run, or a failed
/// check; each with the action that says so.
pub open spec fn stops_with(req: CommitRequest, a: Action) -> bool {
    if req.diff_content@.len() == 0 {
        a is Stop
    } else if req.dry {
        a is ShowDiff
    } else if !diff_within_limit(req.diff_content@, req.lines_limit as nat) {
        a == Action::RejectTooLarge(
            DiffLimitExceeded {
                lines: lines_of(req.diff_content@).len() as usize,
                limit: req.lines_limit,
            },
        )
    } else if validated(req.ai) is Err {
        a == Action::RejectConfig(validated(req.ai)->Err_0)
    } else {
        a is RejectNoEndpoint
    }
}

/// A chat request as the flow sends it: its settings, and the given
/// instructions and user message.
pub open spec fn call_of(flow: CommitFlow, call: ChatCall, system: Seq<char>, user: Seq<char>) -> bool {
    &&& call.url@ == flow.url@
    &&& call.model@ == flow.model@
    &&& call.api_key@ == flow.api_key@
    &&& call.system@ == system
    &&& call.user@ == user
}

/// The settings of the flow did not change.
pub open spec fn same_settings(a: CommitFlow, b: CommitFlow) -> bool {
    &&& a.url@ == b.url@
    &&& a.model@ == b.model@
    &&& a.api_key@ == b.api_key@
    &&& a.subject_prompt@ == b.subject_prompt@
    &&& a.title == b.title
    &&& a.amend == b.amend
}

/// What `CommitFlow::start` gives for a request: the stop it ends with, or
/// the flow that asks for the summary.
pub open spec fn started(req: CommitRequest, r: (Option<CommitFlow>, Action)) -> bool {
    &&& (!request_ready(req) ==> r.0 is None && stops_with(req, r.1))
    &&& (request_ready(req) ==> ({
            let cfg = validated(req.ai)->Ok_0;
            &&& r.0 is Some
            &&& r.0->Some_0.stage == Stage::Summarizing
            &&& Some(r.0->Some_0.url@) == endpoint_for(cfg.0, cfg.1)
            &&& r.0->Some_0.model@ == cfg.1
            &&& r.0->Some_0.api_key@ == cfg.2
            &&& r.0->Some_0.subject_prompt@ == req.subject_prompt@
            &&& r.0->Some_0.title == req.title
            &&& r.0->Some_0.amend == req.amend
            &&& r.1 matches Action::Chat(call) && call_of(
                r.0->Some_0,
                call,
                req.diff_prompt@,
                summary_request_text(req.diff_content@, cfg.3),
            )
        })
    )
}

/// How `CommitFlow::on_chat_reply` moves a flow from `before` to `after` on an
/// answer, and the action it gives.
pub open spec fn answered(
    before: CommitFlow,
    after: CommitFlow,
    reply: Result<String, String>,
    a: Action,
) -> bool {
    &&& (same_settings(before, after))
    &&& (before.stage == Stage::Summarizing && reply is Err ==> {
            &&& after.stage == Stage::Finished
            &&& a matches Action::AbortChat { message } && message@ == reply->Err_0@
        }
    )
    &&& (before.stage == Stage::Summarizing && reply is Ok && before.title is Some ==> {
            &&& after.stage == Stage::Committing
            &&& after.summary@ == reply->Ok_0@
            &&& after.subject@ == before.title->Some_0@
            &&& a matches Action::Commit { draft, amend } && draft.subject@ == before.title->Some_0@ && draft.body@ == reply->Ok_0@ && amend == before.amend
        }
    )
    &&& (before.stage == Stage::Summarizing && reply is Ok && before.title is None ==> {
            &&& after.stage == Stage::Titling
            &&& after.summary@ == reply->Ok_0@
            &&& a matches Action::Chat(call) && call_of(
                before,
                call,
                before.subject_prompt@,
                subject_request_text(reply->Ok_0@),
            )
        }
    )
    &&& (before.stage == Stage::Titling ==> {
            &&& after.stage == Stage::Committing
            &&& after.summary@ == before.summary@
            &&& after.subject@ == subject_from_reply(reply_view(reply))
            &&& a matches Action::Commit { draft, amend } && draft.subject@ == subject_from_reply(
                reply_view(reply),
            ) && draft.body@ == before.summary@ && amend == before.amend
        }
    )
}

/// An English run without a given title asks twice, in order and with the
/// same settings: first for the summary of the diff itself under the diff
/// prompt, then for a subject under the subject prompt with the summary
/// behind `The changes are: `; the two answers then make the commit's
/// subject and body, and the amend choice is passed through.
pub proof fn lemma_two_requests_then_commit(
    req: CommitRequest,
    first: (Option<CommitFlow>, Action),
    titling: CommitFlow,
    second: Action,
    committing: CommitFlow,
    third: Action,
    summary: String,
    subject: String,
)
    requires
        request_ready(req),
        req.title is None,
        validated(req.ai)->Ok_0.3 == "English"@,
        started(req, first),
        answered(first.0->Some_0, titling, Ok(summary), second),
        answered(titling, committing, Ok(subject), third),
    ensures
        first.1 matches Action::Chat(call) && call.system@ == req.diff_prompt@ && call.user@
            == req.diff_content@,
        second matches Action::Chat(call) && call.system@ == req.subject_prompt@ && call.user@
            == SUBJECT_REQUEST_HEAD@ + summary@,
        first.1 matches Action::Chat(c1) && second matches Action::Chat(c2) && c1.url@ == c2.url@
            && c1.model@ == c2.model@ && c1.api_key@ == c2.api_key@,
        third matches Action::Commit { draft, amend } && draft.subject@ == subject@
            && draft.body@ == summary@ && amend == req.amend,
{
}

impl CommitFlow {
    fn call(&self, system: String, user: String) -> (r: ChatCall)
        ensures
            call_of(*self, r, system@, user@),
    {
        ChatCall {
            url: self.url.clone(),
            model: self.model.clone(),
            api_key: self.api_key.clone(),
            system,
            user,
        }
    }

    /// Runs the checks in order: an empty document stops, a dry run shows
    /// it, then the line ceiling, the AI settings and the endpoint must pass.
    /// When they do, the flow asks for the summary of the diff, with the diff
    /// prompt as instructions.
    pub fn start(req: CommitRequest) -> (r: (Option<CommitFlow>, Action))
        ensures
            started(req, r),
    {
        if req.diff_content.as_str().is_empty() {
            return (None, Action::Stop);
        }
        if req.dry {
            return (None, Action::ShowDiff);
        }
        match check_diff_limit(req.diff_content.as_str(), req.lines_limit) {
            Err(e) => return (None, Action::RejectTooLarge(e)),
            Ok(()) => {},
        }
        let cfg = match get_validated_ai_config(req.ai) {
            Err(e) => return (None, Action::RejectConfig(e)),
            Ok(c) => c,
        };
        let url = match resolve_endpoint(cfg.url.as_str(), cfg.model.as_str()) {
            None => return (None, Action::RejectNoEndpoint),
            Some(u) => u,
        };
        let user = summary_request_content(req.diff_content.as_str(), cfg.language.as_str());
        let flow = CommitFlow {
            stage: Stage::Summarizing,
            url,
            model: cfg.model,
            api_key: cfg.api_key,
            subject_prompt: req.subject_prompt,
            title: req.title,
            amend: req.amend,
            summary: String::new(),
            subject: String::new(),
        };
        let call = flow.call(req.diff_prompt, user);
        (Some(flow), Action::Chat(call))
    }

    /// Takes the answer to the pending chat request. A failed summary ends
    /// the run without a commit. A summary with a title given by the user
    /// goes to the commit at once; without one, the subject is asked for. The
    /// subject's answer, or its failure behind `Error: `, becomes the subject
    /// of the commit.
    pub fn on_chat_reply(&mut self, reply: Result<String, String>) -> (a: Action)
        requires
            old(self).stage == Stage::Summarizing || old(self).stage == Stage::Titling,
        ensures
            answered(*old(self), *final(self), reply, a),
    {
        if self.stage == Stage::Summarizing {
            match reply {
                Err(e) => {
                    self.stage = Stage::Finished;
                    Action::AbortChat { message: e }
                },
                Ok(summary) => {
                    self.summary = summary;
                    match &self.title {
                        Some(t) => {
                            self.subject = t.clone();
                            self.stage = Stage::Committing;
                            Action::Commit {
                                draft: CommitDraft {
                                    subject: self.subject.clone(),
                                    body: self.summary.clone(),
                                },
                                amend: self.amend,
                            }
                        },
                        None => {
                            self.stage = Stage::Titling;
                            let user = subject_request_content(self.summary.as_str());
                            let system = self.subject_prompt.clone();
                            Action::Chat(self.call(system, user))
                        },
                    }
                },
            }
        } else {
            let subject = match reply {
                Ok(answer) => answer,
                Err(e) => {
                    let mut s = SUBJECT_ERROR_HEAD.to_string();
                    s.append(e.as_str());
                    s
                },
            };
            self.subject = subject;
            self.stage = Stage::Committing;
            Action::Commit {
                draft: CommitDraft { subject: self.subject.clone(), body: self.summary.clone() },
                amend: self.amend,
            }
        }
    }

    /// Takes the outcome of the commit and ends the run.
    pub fn on_commit_result(&mut self, committed: bool) -> (a: Action)
        requires
            old(self).stage == Stage::Committing,
        ensures
            same_settings(*old(self), *final(self)),
            final(self).stage == Stage::Finished,
            final(self).summary@ == old(self).summary@,
            final(self).subject@ == old(self).subject@,
            a matches Action::Done { committed: c } && c == committed,
    {
        self.stage = Stage::Finished;
        Action::Done { committed }
    }
}

} // verus!
