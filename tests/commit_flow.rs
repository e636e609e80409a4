use gim::ai::{AiConfigError, AiField, AiSection};
use gim::commit::{
    check_diff_limit, git_commit_args, subject_request_content, summary_request_content, Action,
    CommitFlow, CommitRequest, DiffLimitExceeded, Stage,
};
use gim::diff::{build_diff_content, DiffSource};

fn settings(url: &str, model: &str, language: &str) -> Option<AiSection> {
    Some(AiSection {
        url: Some(url.to_string()),
        model: Some(model.to_string()),
        apikey: Some("secret".to_string()),
        language: Some(language.to_string()),
    })
}

fn request(diff: &str, title: Option<&str>, amend: bool) -> CommitRequest {
    CommitRequest {
        diff_content: diff.to_string(),
        dry: false,
        lines_limit: 1000,
        amend,
        title: title.map(|t| t.to_string()),
        ai: settings("https://ai.example/v1/chat", "gpt-4", "English"),
        diff_prompt: "DIFF PROMPT".to_string(),
        subject_prompt: "SUBJECT PROMPT".to_string(),
    }
}

#[test]
fn limit_boundary() {
    let five = "1\n2\n3\n4\n5\n";
    assert!(check_diff_limit(five, 5).is_ok());
    assert_eq!(check_diff_limit(five, 4), Err(DiffLimitExceeded { lines: 5, limit: 4 }));
    assert!(check_diff_limit("", 0).is_ok());
    assert_eq!(check_diff_limit("x", 0), Err(DiffLimitExceeded { lines: 1, limit: 0 }));
}

#[test]
fn request_contents() {
    assert_eq!(summary_request_content("D", "English"), "D");
    assert_eq!(
        summary_request_content("D", "Chinese"),
        "D\n The answer should be in Chinese language. If you cannot recognize this language, use English instead."
    );
    assert_eq!(subject_request_content("sum"), "The changes are: \nsum");
}

#[test]
fn commit_arguments() {
    assert_eq!(git_commit_args("s", "m", false), vec!["commit", "-m", "s", "-m", "m"]);
    assert_eq!(git_commit_args("s", "m", true), vec!["commit", "--amend", "-m", "s", "-m", "m"]);
}

#[test]
fn staged_addition_end_to_end() {
    let staged = DiffSource {
        name_status: "A\ta.txt\n".to_string(),
        full_diff: "diff --git a/a.txt b/a.txt\nnew file mode 100644\n--- /dev/null\n+++ b/a.txt\n@@ -0,0 +1,5 @@\n+1\n+2\n+3\n+4\n+5".to_string(),
    };
    let last = DiffSource { name_status: String::new(), full_diff: String::new() };
    let changes = vec!["A  a.txt".to_string()];
    let diff = build_diff_content(&changes, false, &staged, &last);
    assert!(!diff.contains("Deleted:"));

    let (flow, action) = CommitFlow::start(request(&diff, None, false));
    let mut flow = flow.unwrap();
    match action {
        Action::Chat(call) => {
            assert_eq!(call.url, "https://ai.example/v1/chat");
            assert_eq!(call.model, "gpt-4");
            assert_eq!(call.api_key, "secret");
            assert_eq!(call.system, "DIFF PROMPT");
            assert_eq!(call.user, diff);
        }
        _ => panic!("expected the summary request"),
    }
    match flow.on_chat_reply(Ok("Add a.txt: initial content (5)".to_string())) {
        Action::Chat(call) => {
            assert_eq!(call.system, "SUBJECT PROMPT");
            assert_eq!(call.user, "The changes are: \nAdd a.txt: initial content (5)");
        }
        _ => panic!("expected the subject request"),
    }
    match flow.on_chat_reply(Ok("feat: add a.txt".to_string())) {
        Action::Commit { draft, amend } => {
            assert_eq!(draft.subject, "feat: add a.txt");
            assert_eq!(draft.body, "Add a.txt: initial content (5)");
            assert!(!amend);
        }
        _ => panic!("expected the commit"),
    }
    assert!(matches!(flow.on_commit_result(true), Action::Done { committed: true }));
    assert_eq!(flow.stage, Stage::Finished);
}

#[test]
fn title_given_skips_subject_request() {
    let (flow, _) = CommitFlow::start(request("A\tx\n", Some("fix: x"), true));
    let mut flow = flow.unwrap();
    match flow.on_chat_reply(Ok("x: fix (1)".to_string())) {
        Action::Commit { draft, amend } => {
            assert_eq!(draft.subject, "fix: x");
            assert_eq!(draft.body, "x: fix (1)");
            assert!(amend);
        }
        _ => panic!("expected the commit"),
    }
}

#[test]
fn failed_summary_aborts_and_failed_subject_is_shown() {
    let (flow, _) = CommitFlow::start(request("A\tx\n", None, false));
    let mut flow = flow.unwrap();
    match flow.on_chat_reply(Err("ai request failed: 500".to_string())) {
        Action::AbortChat { message } => assert_eq!(message, "ai request failed: 500"),
        _ => panic!("expected the abort"),
    }
    assert_eq!(flow.stage, Stage::Finished);

    let (flow, _) = CommitFlow::start(request("A\tx\n", None, false));
    let mut flow = flow.unwrap();
    flow.on_chat_reply(Ok("sum".to_string()));
    match flow.on_chat_reply(Err("unkown exception".to_string())) {
        Action::Commit { draft, .. } => {
            assert_eq!(draft.subject, "Error: unkown exception");
            assert_eq!(draft.body, "sum");
        }
        _ => panic!("expected the commit"),
    }
}

#[test]
fn checks_stop_the_run() {
    let (flow, action) = CommitFlow::start(request("", None, false));
    assert!(flow.is_none() && matches!(action, Action::Stop));

    let mut req = request("a\nb\n", None, false);
    req.dry = true;
    assert!(matches!(CommitFlow::start(req).1, Action::ShowDiff));

    let mut req = request("a\nb\nc\n", None, false);
    req.lines_limit = 2;
    match CommitFlow::start(req).1 {
        Action::RejectTooLarge(e) => assert_eq!(e, DiffLimitExceeded { lines: 3, limit: 2 }),
        _ => panic!("expected the line ceiling"),
    }

    let mut req = request("a\n", None, false);
    req.ai = None;
    assert!(matches!(CommitFlow::start(req).1, Action::RejectConfig(AiConfigError::NotConfigured)));

    let mut req = request("a\n", None, false);
    req.ai = Some(AiSection { url: Some(String::new()), model: None, apikey: None, language: None });
    assert!(matches!(
        CommitFlow::start(req).1,
        Action::RejectConfig(AiConfigError::Missing { field: AiField::Model })
    ));

    let mut req = request("a\n", None, false);
    req.ai = settings("", "llama", "English");
    assert!(matches!(CommitFlow::start(req).1, Action::RejectNoEndpoint));

    let mut req = request("a\n", None, false);
    req.ai = settings("", "qwen-max", "French");
    match CommitFlow::start(req).1 {
        Action::Chat(call) => {
            assert_eq!(call.url, gim::client::QWEN_URL);
            assert!(call.user.starts_with("a\n\n The answer should be in French language."));
        }
        _ => panic!("expected the summary request"),
    }
}
