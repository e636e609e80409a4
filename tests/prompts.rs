use gim::prompt::{
    default_prompt_text, get_diff_prompt, get_subject_prompt, parse_prompt_type,
    prompt_file_name, prompt_kind_of_lowered, resolve_prompt, PromptKind, DEFAULT_DIFF_PROMPT,
    DEFAULT_SUBJECT_PROMPT,
};

#[test]
fn topmost_layer_wins() {
    let k = PromptKind::Diff;
    let repo = || Some("repo".to_string());
    let conf = || Some("conf".to_string());
    assert_eq!(resolve_prompt(k, Some("custom"), repo(), conf()), "custom");
    assert_eq!(resolve_prompt(k, None, repo(), conf()), "repo");
    assert_eq!(resolve_prompt(k, None, None, conf()), "conf");
    assert_eq!(resolve_prompt(k, None, None, None), DEFAULT_DIFF_PROMPT);
    assert_eq!(get_subject_prompt(None, None, None), DEFAULT_SUBJECT_PROMPT);
    assert_eq!(get_diff_prompt(Some(""), repo(), None), "");
}

#[test]
fn default_prompts() {
    let d = default_prompt_text(PromptKind::Diff);
    assert!(d.starts_with("You are an expert developer specialist in creating git commits.\n"));
    assert!(d.ends_with("README.md: Update installation instructions (12)\n"));
    let s = default_prompt_text(PromptKind::Subject);
    assert!(s.contains("\n    feat: Only when adding a new feature.\n"));
    assert!(s.contains("{type}: {commit_message}"));
    assert_eq!(prompt_file_name(PromptKind::Diff), "diff_prompt.txt");
    assert_eq!(prompt_file_name(PromptKind::Subject), "subject_prompt.txt");
}

#[test]
fn prompt_names() {
    assert_eq!(prompt_kind_of_lowered("d"), Some(PromptKind::Diff));
    assert_eq!(prompt_kind_of_lowered("diff_prompt"), Some(PromptKind::Diff));
    assert_eq!(prompt_kind_of_lowered("subject_prompt.txt"), Some(PromptKind::Subject));
    assert_eq!(prompt_kind_of_lowered("s"), Some(PromptKind::Subject));
    assert_eq!(prompt_kind_of_lowered("DIFF"), None);
    assert_eq!(prompt_kind_of_lowered("x"), None);
    assert_eq!(parse_prompt_type("DIFF"), Some(PromptKind::Diff));
    assert_eq!(parse_prompt_type("Subject"), Some(PromptKind::Subject));
    assert_eq!(parse_prompt_type("other"), None);
}
