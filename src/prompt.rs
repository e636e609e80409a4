use vstd::prelude::*;

use crate::text::same_text;

verus! {

/// File name of the diff prompt, in the repository's `.gim` directory or in
/// the configuration directory.
pub const DIFF_PROMPT_FILE: &'static str = "diff_prompt.txt";

/// File name of the subject prompt, in the repository's `.gim` directory or
/// in the configuration directory.
pub const SUBJECT_PROMPT_FILE: &'static str = "subject_prompt.txt";

/// Built-in instructions for summarising a diff, one line per file.
pub const DEFAULT_DIFF_PROMPT: &'static str = "\
You are an expert developer specialist in creating git commits.\n\
Provide a super concise one sentence summary for each changed file, describing the main change made.\n\
Each line must follow this format {FILE: CHANGES: (CHANGED_LINES_COUNT)}\n\
\n\
Please follow these rules strictly:\n\
- Output ONLY the lines of summaries, NO explanations, NO markdown, NO code blocks.\n\
- Each file change gets exactly one line.\n\
- Do not use general terms like \"update\" or \"change\", be specific.\n\
- Use present tense, active voice, and imperative mood (e.g., \"Fix bug\" instead of \"Fixed bug\").\n\
- Skip project lock files, like 'Cargo.lock' or 'package-lock.json', 'pnpm-lock.yaml', 'yarn.lock'\n\
- Skip binary files diff content\n\
- Ignore files under .code folder or .idea folder, unless there aren't other files changed.\n\
- Avoid phrases like \"The main goal is to...\" or \"Based on...\", just state the change directly.\n\
- The output should be ready to copy-paste as a commit message with no further modification.\n\
\n\
Examples:\n\
src/main.rs: Add login validation logic (87)\n\
README.md: Update installation instructions (12)\n";

/// Built-in instructions for deriving a one-line commit subject.
pub const DEFAULT_SUBJECT_PROMPT: &'static str = "\
You are an expert developer specialist in creating git commits messages.\n\
Your only goal is to retrieve a single commit message.\n\
Based on the provided user changes, combine them in ONE SINGLE commit message retrieving the global idea, following strictly the next rules:\n\
- Assign the commit {type} according to the next conditions:\n\
\x20   feat: Only when adding a new feature.\n\
\x20   fix: When fixing a bug.\n\
\x20   docs: When updating documentation.\n\
\x20   style: When changing elements styles or design and/or making changes to the code style (formatting, missing semicolons, etc.) without changing the code logic.\n\
\x20   test: When adding or updating tests.\n\
\x20   chore: When making changes to the build process or auxiliary tools and libraries.\n\
\x20   revert: When undoing a previous commit.\n\
\x20   refactor: When restructuring code without changing its external behavior, or is any of the other refactor types.\n\
- Do not add any issues numeration, explain your output nor introduce your answer.\n\
- The number at the end of each file change is the count of changed lines; prioritize summarizing files with more line changes, except for newly added files which have medium priority\n\
- Output directly only one commit message in plain text with the next format: {type}: {commit_message}.\n\
- Be as concise as possible, keep the message under 50 characters or letters.\n";

/// The two prompts of a run.
#[derive(Debug, Clone, Copy, PartialEq, Eq, Structural)]
pub enum PromptKind {
    /// Instructions for summarising the diff.
    Diff,
    /// Instructions for deriving the subject line.
    Subject,
}

/// The built-in text of a prompt.
pub open spec fn default_prompt(kind: PromptKind) -> Seq<char> {
    match kind {
        PromptKind::Diff => DEFAULT_DIFF_PROMPT@,
        PromptKind::Subject => DEFAULT_SUBJECT_PROMPT@,
    }
}

/// The file name of a prompt.
pub open spec fn prompt_file(kind: PromptKind) -> Seq<char> {
    match kind {
        PromptKind::Diff => DIFF_PROMPT_FILE@,
        PromptKind::Subject => SUBJECT_PROMPT_FILE@,
    }
}

/// The view of an optional string slice.
pub open spec fn opt_str_view(s: Option<&str>) -> Option<Seq<char>> {
    match s {
        Some(t) => Some(t@),
        None => None,
    }
}

/// The prompt that applies: the explicit text when given, else the
/// repository's file, else the configuration directory's file, else the
/// built-in text.
pub open spec fn chosen_prompt(
    kind: PromptKind,
    custom: Option<Seq<char>>,
    repo_local: Option<Seq<char>>,
    config_file: Option<Seq<char>>,
) -> Seq<char> {
    match custom {
        Some(c) => c,
        None => match repo_local {
            Some(l) => l,
            None => match config_file {
                Some(f) => f,
                None => default_prompt(kind),
            },
        },
    }
}

/// The built-in text of a prompt.
pub fn default_prompt_text(kind: PromptKind) -> (r: String)
    ensures
        r@ == default_prompt(kind),
{
    match kind {
        PromptKind::Diff => DEFAULT_DIFF_PROMPT.to_string(),
        PromptKind::Subject => DEFAULT_SUBJECT_PROMPT.to_string(),
    }
}

/// The file name under which a prompt is kept.
pub fn prompt_file_name(kind: PromptKind) -> (r: &'static str)
    ensures
        r@ == prompt_file(kind),
{
    match kind {
        PromptKind::Diff => DIFF_PROMPT_FILE,
        PromptKind::Subject => SUBJECT_PROMPT_FILE,
    }
}

/// Picks a prompt from its layers, as `chosen_prompt` orders them.
/// `repo_local` and `config_file` hold a file's text when it was found and read.
pub fn resolve_prompt(
    kind: PromptKind,
    custom: Option<&str>,
    repo_local: Option<String>,
    config_file: Option<String>,
) -> (r: String)
    ensures
        r@ == chosen_prompt(
            kind,
            opt_str_view(custom),
            crate::client::opt_view(repo_local),
            crate::client::opt_view(config_file),
        ),
{
    match custom {
        Some(c) => c.to_string(),
        None => match repo_local {
            Some(l) => l,
            None => match config_file {
                Some(f) => f,
                None => default_prompt_text(kind),
            },
        },
    }
}

/// The diff prompt of a run, from its layers.
pub fn get_diff_prompt(
    custom: Option<&str>,
    repo_local: Option<String>,
    config_file: Option<String>,
) -> (r: String)
    ensures
        r@ == chosen_prompt(
            PromptKind::Diff,
            opt_str_view(custom),
            crate::client::opt_view(repo_local),
            crate::client::opt_view(config_file),
        ),
{
    resolve_prompt(PromptKind::Diff, custom, repo_local, config_file)
}

/// The subject prompt of a run, from its layers.
pub fn get_subject_prompt(
    custom: Option<&str>,
    repo_local: Option<String>,
    config_file: Option<String>,
) -> (r: String)
    ensures
        r@ == chosen_prompt(
            PromptKind::Subject,
            opt_str_view(custom),
            crate::client::opt_view(repo_local),
            crate::client::opt_view(config_file),
        ),
{
    resolve_prompt(PromptKind::Subject, custom, repo_local, config_file)
}

/// The lower-case form of a text.
pub uninterp spec fn lower_of(s: Seq<char>) -> Seq<char>;

/// Relies on `str::to_lowercase`: the result depends on the characters alone.
#[verifier::external_body]
fn to_lowercase(s: &str) -> (r: String)
    ensures
        r@ == lower_of(s@),
{
    s.to_lowercase()
}

/// The prompt a lower-case name designates.
pub open spec fn prompt_named(name: Seq<char>) -> Option<PromptKind> {
    if name == "d"@ || name == "diff"@ || name == "diff_prompt"@ || name == DIFF_PROMPT_FILE@ {
        Some(PromptKind::Diff)
    } else if name == "s"@ || name == "subject"@ || name == "subject_prompt"@ || name
        == SUBJECT_PROMPT_FILE@ {
        Some(PromptKind::Subject)
    } else {
        None
    }
}

/// The prompt a name already in lower case designates.
pub fn prompt_kind_of_lowered(name: &str) -> (r: Option<PromptKind>)
    ensures
        r == prompt_named(name@),
{
    if same_text(name, "d") || same_text(name, "diff") || same_text(name, "diff_prompt")
        || same_text(name, DIFF_PROMPT_FILE) {
        Some(PromptKind::Diff)
    } else if same_text(name, "s") || same_text(name, "subject") || same_text(
        name,
        "subject_prompt",
    ) || same_text(name, SUBJECT_PROMPT_FILE) {
        Some(PromptKind::Subject)
    } else {
        None
    }
}

/// The prompt a name designates, whatever its case.
pub fn parse_prompt_type(name: &str) -> (r: Option<PromptKind>)
    ensures
        r == prompt_named(lower_of(name@)),
{
    let lowered = to_lowercase(name);
    prompt_kind_of_lowered(lowered.as_str())
}

} // verus!
