use vstd::prelude::*;

use crate::text::{lines_of, push_chars, split_line_chars, chars_of};

verus! {

/// Opens the document built from the staging area.
pub const STAGING_HEADER: &'static str = "When I use `git diff`, I got the following output: \n";

/// Introduces the full diff of the staging area.
pub const STAGING_DETAIL_HEADER: &'static str =
    "\nDetailed changes for added/modified files (excluding deleted files):\n";

/// Opens the document built from the last commit.
pub const LAST_COMMIT_HEADER: &'static str =
    "As I want to amend commit message, I use `git show` and got the following output: \n";

/// Introduces the full diff of the last commit.
pub const LAST_COMMIT_DETAIL_HEADER: &'static str =
    "\nDetailed changes for added/modified files in last commit (excluding deleted files):\n";

/// Stands before the path of a deleted file.
pub const DELETED_PREFIX: &'static str = "Deleted: ";

/// What the version-control tool reports about one set of changes: its
/// `status<TAB>path` lines and the unified diff of the added or modified files.
pub struct DiffSource {
    pub name_status: String,
    pub full_diff: String,
}

/// A name-status line whose status is `D`: the text before its first tab is `D`.
pub open spec fn is_deletion_line(line: Seq<char>) -> bool {
    line.len() >= 2 && line[0] == 'D' && line[1] == '\t'
}

/// One name-status line as the document shows it: a deletion as
/// `Deleted: <path>`, any other line unchanged.
pub open spec fn render_status_line(line: Seq<char>) -> Seq<char> {
    if is_deletion_line(line) {
        DELETED_PREFIX@ + line.skip(2) + seq!['\n']
    } else {
        line + seq!['\n']
    }
}

/// The rendered name-status lines, one after the other.
pub open spec fn render_status_lines(lines: Seq<Seq<char>>) -> Seq<char>
    decreases lines.len(),
{
    if lines.len() == 0 {
        seq![]
    } else {
        render_status_lines(lines.drop_last()) + render_status_line(lines.last())
    }
}

/// The full diff under its heading, or nothing when there is no diff.
pub open spec fn detail_section(heading: Seq<char>, full_diff: Seq<char>) -> Seq<char> {
    if full_diff.len() == 0 {
        seq![]
    } else {
        heading + full_diff + seq!['\n']
    }
}

/// The document for the staging area: empty when nothing is staged.
pub open spec fn staging_diff(name_status: Seq<char>, full_diff: Seq<char>) -> Seq<char> {
    if name_status.len() == 0 {
        seq![]
    } else {
        STAGING_HEADER@ + render_status_lines(lines_of(name_status)) + seq!['\n'] + detail_section(
            STAGING_DETAIL_HEADER@,
            full_diff,
        )
    }
}

/// The document for the last commit, always opened by its framing sentence.
pub open spec fn last_commit_diff(name_status: Seq<char>, full_diff: Seq<char>) -> Seq<char> {
    LAST_COMMIT_HEADER@ + render_status_lines(lines_of(name_status)) + seq!['\n'] + detail_section(
        LAST_COMMIT_DETAIL_HEADER@,
        full_diff,
    )
}

/// The whole document: the staging area when the status listed changes, then
/// the last commit when amending.
pub open spec fn diff_content(
    n_changes: nat,
    amend: bool,
    staged: DiffSource,
    last_commit: DiffSource,
) -> Seq<char> {
    (if n_changes > 0 {
        staging_diff(staged.name_status@, staged.full_diff@)
    } else {
        seq![]
    }) + (if amend {
        last_commit_diff(last_commit.name_status@, last_commit.full_diff@)
    } else {
        seq![]
    })
}

/// Deleted files, one `Deleted: <path>` line each.
pub open spec fn deleted_listing(lines: Seq<Seq<char>>) -> Seq<char>
    decreases lines.len(),
{
    if lines.len() == 0 {
        seq![]
    } else {
        deleted_listing(lines.drop_last()) + DELETED_PREFIX@ + lines.last().skip(2) + seq!['\n']
    }
}

/// Lines reproduced as they are, each ended by a newline.
pub open spec fn verbatim_listing(lines: Seq<Seq<char>>) -> Seq<char>
    decreases lines.len(),
{
    if lines.len() == 0 {
        seq![]
    } else {
        verbatim_listing(lines.drop_last()) + lines.last() + seq!['\n']
    }
}

proof fn lemma_render_all_deletions(lines: Seq<Seq<char>>)
    requires
        forall|k: int| 0 <= k < lines.len() ==> is_deletion_line(#[trigger] lines[k]),
    ensures
        render_status_lines(lines) == deleted_listing(lines),
    decreases lines.len(),
{
    if lines.len() > 0 {
        let init = lines.drop_last();
        assert forall|k: int| 0 <= k < init.len() implies is_deletion_line(#[trigger] init[k]) by {
            assert(init[k] == lines[k]);
        }
        lemma_render_all_deletions(init);
        assert(is_deletion_line(lines[lines.len() - 1]));
    }
}

proof fn lemma_render_no_deletions(lines: Seq<Seq<char>>)
    requires
        forall|k: int| 0 <= k < lines.len() ==> !is_deletion_line(#[trigger] lines[k]),
    ensures
        render_status_lines(lines) == verbatim_listing(lines),
    decreases lines.len(),
{
    if lines.len() > 0 {
        let init = lines.drop_last();
        assert forall|k: int| 0 <= k < init.len() implies !is_deletion_line(#[trigger] init[k]) by {
            assert(init[k] == lines[k]);
        }
        lemma_render_no_deletions(init);
        assert(!is_deletion_line(lines[lines.len() - 1]));
    }
}

/// When every staged change is a deletion, so that the diff of added or
/// modified files is empty, the staging document lists only `Deleted: <path>`
/// lines and holds no diff body.
pub proof fn lemma_deletions_only_have_no_body(name_status: Seq<char>, full_diff: Seq<char>)
    requires
        name_status.len() > 0,
        forall|k: int|
            0 <= k < lines_of(name_status).len() ==> is_deletion_line(
                #[trigger] lines_of(name_status)[k],
            ),
        full_diff.len() == 0,
    ensures
        staging_diff(name_status, full_diff) == STAGING_HEADER@ + deleted_listing(
            lines_of(name_status),
        ) + seq!['\n'],
{
    lemma_render_all_deletions(lines_of(name_status));
}

/// When at least one file is added or modified and none is deleted, the
/// per-file section of the staging document is the name-status lines
/// unmodified.
pub proof fn lemma_no_deletions_kept_verbatim(name_status: Seq<char>, full_diff: Seq<char>)
    requires
        lines_of(name_status).len() >= 1,
        forall|k: int|
            0 <= k < lines_of(name_status).len() ==> !is_deletion_line(
                #[trigger] lines_of(name_status)[k],
            ),
    ensures
        staging_diff(name_status, full_diff) == STAGING_HEADER@ + verbatim_listing(
            lines_of(name_status),
        ) + seq!['\n'] + detail_section(STAGING_DETAIL_HEADER@, full_diff),
{
    lemma_render_no_deletions(lines_of(name_status));
}

/// The document is empty exactly when the status listed no change and the
/// last commit is not amended, provided that a listed change shows up in the
/// staging area.
pub proof fn lemma_diff_content_empty(
    n_changes: nat,
    amend: bool,
    staged: DiffSource,
    last_commit: DiffSource,
)
    requires
        n_changes > 0 ==> staged.name_status@.len() > 0,
    ensures
        diff_content(n_changes, amend, staged, last_commit).len() == 0 <==> (n_changes == 0
            && !amend),
{
    reveal_strlit("When I use `git diff`, I got the following output: \n");
    reveal_strlit(
        "As I want to amend commit message, I use `git show` and got the following output: \n",
    );
}

/// Amending with nothing staged still gives a document, made of the last
/// commit alone.
pub proof fn lemma_amend_without_changes(staged: DiffSource, last_commit: DiffSource)
    ensures
        diff_content(0, true, staged, last_commit) == last_commit_diff(
            last_commit.name_status@,
            last_commit.full_diff@,
        ),
        diff_content(0, true, staged, last_commit).len() > 0,
{
    reveal_strlit(
        "As I want to amend commit message, I use `git show` and got the following output: \n",
    );
    assert(diff_content(0, true, staged, last_commit) =~= last_commit_diff(
        last_commit.name_status@,
        last_commit.full_diff@,
    ));
}

/// A status entry shown as ignored: unstaged (leading space) or untracked
/// (leading `?`) while changes are not added automatically.
pub open spec fn ignored_entry(auto_add: bool, entry: Seq<char>) -> bool {
    !auto_add && entry.len() > 0 && (entry[0] == ' ' || entry[0] == '?')
}

/// Whether a status entry stays out of the commit, as `ignored_entry` says.
pub fn is_ignored_change(auto_add: bool, entry: &str) -> (r: bool)
    ensures
        r == ignored_entry(auto_add, entry@),
{
    if auto_add || entry.is_empty() {
        false
    } else {
        let c = entry.get_char(0);
        c == ' ' || c == '?'
    }
}

/// What to ask of the version-control tool before the document is built.
pub struct DiffPlan {
    /// Stage every change first.
    pub stage_all: bool,
    /// Read the name-status lines and diff of the staging area.
    pub read_staged: bool,
    /// Read the name-status lines and diff of the last commit.
    pub read_last_commit: bool,
}

/// Decides the reads and the staging that `build_diff_content` needs: the
/// staging area only when the status listed changes (staged first when
/// changes are added automatically), the last commit only when amending.
pub fn plan_diff_collection(auto_add: bool, n_changes: usize, amend: bool) -> (r: DiffPlan)
    ensures
        r.stage_all == (auto_add && n_changes > 0),
        r.read_staged == (n_changes > 0),
        r.read_last_commit == amend,
{
    DiffPlan { stage_all: auto_add && n_changes > 0, read_staged: n_changes > 0, read_last_commit: amend }
}

/// Appends the rendered name-status lines of `name_status` to `out`.
fn push_status_lines(out: &mut String, name_status: &str)
    ensures
        final(out)@ == old(out)@ + render_status_lines(lines_of(name_status@)),
{
    let cs = chars_of(name_status);
    let lines = split_line_chars(&cs);
    let n = lines.len();
    for i in 0..n
        invariant
            n == lines@.len(),
            n == lines_of(name_status@).len(),
            forall|k: int| 0 <= k < n ==> #[trigger] lines@[k]@ == lines_of(name_status@)[k],
            out@ == old(out)@ + render_status_lines(lines_of(name_status@).take(i as int)),
    {
        let ghost ls = lines_of(name_status@);
        let line = &lines[i];
        assert(ls.take(i + 1).drop_last() == ls.take(i as int));
        assert(ls.take(i + 1).last() == line@);
        if line.len() >= 2 && line[0] == 'D' && line[1] == '\t' {
            out.append(DELETED_PREFIX);
            push_chars(out, line.as_slice(), 2);
        } else {
            push_chars(out, line.as_slice(), 0);
            assert(line@.skip(0) == line@);
        }
        out.append("\n");
        proof {
            reveal_strlit("\n");
        }
    }
    assert(lines_of(name_status@).take(n as int) == lines_of(name_status@));
}

/// Appends the full diff under its heading, when there is a diff.
fn push_detail_section(out: &mut String, heading: &str, full_diff: &str)
    ensures
        final(out)@ == old(out)@ + detail_section(heading@, full_diff@),
{
    if !full_diff.is_empty() {
        out.append(heading);
        out.append(full_diff);
        out.append("\n");
        proof {
            reveal_strlit("\n");
        }
    }
}

/// Renders the name-status lines of one set of changes: a deleted file as
/// `Deleted: <path>`, every other line as it stands.
pub fn render_name_status(name_status: &str) -> (r: String)
    ensures
        r@ == render_status_lines(lines_of(name_status@)),
{
    let mut out = String::new();
    push_status_lines(&mut out, name_status);
    out
}

/// Builds the document for the staging area from its name-status lines and
/// its diff of added or modified files; empty when nothing is staged.
pub fn build_staging_diff(name_status: &str, full_diff: &str) -> (r: String)
    ensures
        r@ == staging_diff(name_status@, full_diff@),
{
    let mut out = String::new();
    if !name_status.is_empty() {
        out.append(STAGING_HEADER);
        push_status_lines(&mut out, name_status);
        out.append("\n");
        proof {
            reveal_strlit("\n");
        }
        push_detail_section(&mut out, STAGING_DETAIL_HEADER, full_diff);
    }
    out
}

/// Builds the document for the last commit from its name-status lines and its
/// diff of added or modified files.
pub fn build_last_commit_diff(name_status: &str, full_diff: &str) -> (r: String)
    ensures
        r@ == last_commit_diff(name_status@, full_diff@),
{
    let mut out = String::new();
    out.append(LAST_COMMIT_HEADER);
    push_status_lines(&mut out, name_status);
    out.append("\n");
    proof {
        reveal_strlit("\n");
    }
    push_detail_section(&mut out, LAST_COMMIT_DETAIL_HEADER, full_diff);
    out
}

/// Builds the document to summarise: the staging area when `changes` is not
/// empty, followed by the last commit when `amend` is set.
pub fn build_diff_content(
    changes: &[String],
    amend: bool,
    staged: &DiffSource,
    last_commit: &DiffSource,
) -> (r: String)
    ensures
        r@ == diff_content(changes@.len(), amend, *staged, *last_commit),
{
    let mut out = String::new();
    if changes.len() > 0 {
        let part = build_staging_diff(staged.name_status.as_str(), staged.full_diff.as_str());
        out.append(part.as_str());
    }
    if amend {
        let part = build_last_commit_diff(
            last_commit.name_status.as_str(),
            last_commit.full_diff.as_str(),
        );
        out.append(part.as_str());
    }
    out
}

} // verus!
