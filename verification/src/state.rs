//! Reads the raw answers of the backend's status queries into a normalised
//! picture of the repository.
use vstd::prelude::*;
use crate::cli::VCS;
use crate::error::ScudError;
use crate::text::{
    after_last, all_digits, chars_of, count_between, count_of, decimal_value, digit_value,
    find_after_last, find_between, first_index_of, first_line, has_prefix_at, is_digit, is_number,
    lemma_after_last_append, lemma_count_of_append, lemma_first_index_of,
    lemma_first_index_of_unique, lines_of, parse_number, slice_of, split_lines, texts_view,
};

verus! {

/// How the local branch stands against its upstream.
#[derive(Clone, Copy, Debug, PartialEq, Eq, Structural)]
pub enum CommitState {
    /// Nothing to report: no upstream, or no divergence.
    UpToDate,
    /// The local branch has this many commits that the upstream lacks.
    Ahead(u32),
    /// The upstream has this many commits that the local branch lacks.
    Behind(u32),
    /// Both at once.
    Diverged { ahead: u32, behind: u32 },
}

impl CommitState {
    /// Commits that the upstream lacks.
    pub open spec fn ahead_count(self) -> u32 {
        match self {
            CommitState::Ahead(n) => n,
            CommitState::Diverged { ahead, behind } => ahead,
            _ => 0,
        }
    }

    /// Commits that the local branch lacks.
    pub open spec fn behind_count(self) -> u32 {
        match self {
            CommitState::Behind(n) => n,
            CommitState::Diverged { ahead, behind } => behind,
            _ => 0,
        }
    }

    /// Commits that the upstream lacks.
    pub fn ahead(&self) -> (n: u32)
        ensures
            n == self.ahead_count(),
    {
        match self {
            CommitState::Ahead(n) => *n,
            CommitState::Diverged { ahead, behind: _ } => *ahead,
            _ => 0,
        }
    }

    /// Commits that the local branch lacks.
    pub fn behind(&self) -> (n: u32)
        ensures
            n == self.behind_count(),
    {
        match self {
            CommitState::Behind(n) => *n,
            CommitState::Diverged { ahead: _, behind } => *behind,
            _ => 0,
        }
    }
}

/// The tracking annotation of a short status report: where the first line
/// holds at least two blanks, what stands between its last `[` and the next
/// `]`. A line without such a pair of brackets has no annotation.
pub open spec fn commit_diff(s: Seq<char>) -> Seq<char> {
    let line = first_line(s);
    let start = after_last(line, '[');
    let tail = line.skip(start);
    let length = first_index_of(tail, ']');
    if count_of(line, ' ') >= 2 && start > 0 && length < tail.len() {
        tail.take(length)
    } else {
        Seq::empty()
    }
}

/// Cuts the tracking annotation out of a short status report.
pub fn get_commit_diff(status_diff: String) -> (r: String)
    ensures
        r@ == commit_diff(status_diff@),
{
    let text = status_diff.as_str();
    let v = chars_of(text);
    let e = find_between(&v, '\n', 0, v.len());
    let ghost line = first_line(v@);
    proof {
        assert(v@.subrange(0, v.len() as int) =~= v@);
        assert(line =~= v@.subrange(0, e as int));
    }
    let blanks = count_between(&v, ' ', 0, e);
    let start = find_after_last(&v, '[', 0, e);
    let end = find_between(&v, ']', start, e);
    proof {
        assert(line.skip(start as int) =~= v@.subrange(start as int, e as int));
    }
    if blanks >= 2 && start > 0 && end < e {
        let r = slice_of(&v, start, end);
        assert(r@ =~= line.skip(start as int).take(end - start));
        r
    } else {
        let r = slice_of(&v, 0, 0);
        assert(r@ =~= Seq::<char>::empty());
        r
    }
}

/// What a tracking annotation says. It has one of three shapes, `ahead N`,
/// `behind N` and `ahead N, behind M`, each number a run of decimal digits
/// that fits in 32 bits; an empty annotation reports nothing. Anything else
/// has no reading.
pub open spec fn annotation_state(a: Seq<char>) -> Option<CommitState> {
    if a.len() == 0 {
        Some(CommitState::UpToDate)
    } else if "ahead "@.is_prefix_of(a) {
        let rest = a.skip("ahead "@.len() as int);
        let k = first_index_of(rest, ',');
        if k >= rest.len() {
            if is_number(rest) {
                Some(CommitState::Ahead(decimal_value(rest) as u32))
            } else {
                None
            }
        } else {
            let left = rest.take(k);
            let right = rest.skip(k);
            let last = right.skip(", behind "@.len() as int);
            if is_number(left) && ", behind "@.is_prefix_of(right) && is_number(last) {
                Some(
                    CommitState::Diverged {
                        ahead: decimal_value(left) as u32,
                        behind: decimal_value(last) as u32,
                    },
                )
            } else {
                None
            }
        }
    } else if "behind "@.is_prefix_of(a) {
        let rest = a.skip("behind "@.len() as int);
        if is_number(rest) {
            Some(CommitState::Behind(decimal_value(rest) as u32))
        } else {
            None
        }
    } else {
        None
    }
}

/// Reads a tracking annotation, and rejects one that has none of the known shapes.
pub fn parse_commit_state(annotation: &str) -> (r: Result<CommitState, ScudError>)
    ensures
        match annotation_state(annotation@) {
            Some(state) => r == Ok::<CommitState, ScudError>(state),
            None => r == Err::<CommitState, ScudError>(ScudError::MalformedStatusLine),
        },
{
    let v = chars_of(annotation);
    if v.len() == 0 {
        return Ok(CommitState::UpToDate);
    }
    let ahead = chars_of("ahead ");
    let behind = chars_of("behind ");
    let sep = chars_of(", behind ");
    proof {
        reveal_strlit("ahead ");
        reveal_strlit("behind ");
        reveal_strlit(", behind ");
        assert(v@.skip(0) =~= v@);
    }
    if has_prefix_at(&v, 0, &ahead) {
        let ghost rest = v@.skip(6);
        let k = find_between(&v, ',', 6, v.len());
        assert(v@.subrange(6, v.len() as int) =~= rest);
        if k == v.len() {
            match parse_number(&v, 6, v.len()) {
                Some(n) => Ok(CommitState::Ahead(n)),
                None => Err(ScudError::MalformedStatusLine),
            }
        } else {
            proof {
                lemma_first_index_of(rest, ',');
                assert(rest.take(k - 6) =~= v@.subrange(6, k as int));
                assert(rest.skip(k - 6) =~= v@.skip(k as int));
            }
            match parse_number(&v, 6, k) {
                None => Err(ScudError::MalformedStatusLine),
                Some(a) => {
                    if has_prefix_at(&v, k, &sep) {
                        assert(v@.skip(k as int).skip(9) =~= v@.subrange(
                            k + 9,
                            v.len() as int,
                        ));
                        match parse_number(&v, k + 9, v.len()) {
                            Some(b) => Ok(CommitState::Diverged { ahead: a, behind: b }),
                            None => Err(ScudError::MalformedStatusLine),
                        }
                    } else {
                        Err(ScudError::MalformedStatusLine)
                    }
                },
            }
        }
    } else if has_prefix_at(&v, 0, &behind) {
        assert(v@.skip(7) =~= v@.subrange(7, v.len() as int));
        match parse_number(&v, 7, v.len()) {
            Some(n) => Ok(CommitState::Behind(n)),
            None => Err(ScudError::MalformedStatusLine),
        }
    } else {
        Err(ScudError::MalformedStatusLine)
    }
}

/// What is shown for a tracking annotation: its reading, or nothing where it has none.
pub open spec fn shown_state(a: Seq<char>) -> CommitState {
    match annotation_state(a) {
        Some(state) => state,
        None => CommitState::UpToDate,
    }
}

/// Decides what to tell the user about the branch's standing. An annotation
/// that cannot be read is passed over in silence.
pub fn display_commit_state(ahead_behind: String) -> (r: CommitState)
    ensures
        r == shown_state(ahead_behind@),
{
    match parse_commit_state(ahead_behind.as_str()) {
        Ok(state) => state,
        Err(_) => CommitState::UpToDate,
    }
}

/// The paths of one area of the repository, by kind of change.
#[derive(Debug, Clone, PartialEq, Eq)]
pub struct ChangeSet {
    pub modified: Vec<String>,
    pub deleted: Vec<String>,
    pub renamed: Vec<String>,
}

/// The normalised picture of a repository.
#[derive(Debug, Clone, PartialEq, Eq)]
pub struct RepositoryState {
    pub staged: ChangeSet,
    pub unstaged: ChangeSet,
    pub untracked: Vec<String>,
    pub ahead: u32,
    pub behind: u32,
}

/// The raw path lists of one area, one text per kind of change.
#[derive(Debug, Clone, PartialEq, Eq)]
pub struct RawChanges {
    pub modified: String,
    pub deleted: String,
    pub renamed: String,
}

/// Reads the three path lists of one area, one path per line.
pub fn extract_changes(raw: &RawChanges) -> (r: ChangeSet)
    ensures
        texts_view(r.modified@) == lines_of(raw.modified@),
        texts_view(r.deleted@) == lines_of(raw.deleted@),
        texts_view(r.renamed@) == lines_of(raw.renamed@),
{
    ChangeSet {
        modified: split_lines(raw.modified.as_str()),
        deleted: split_lines(raw.deleted.as_str()),
        renamed: split_lines(raw.renamed.as_str()),
    }
}

/// Whether `state` is the picture that the raw answers give: every list
/// holds the lines of its answer, and the counts are those that the tracking
/// annotation of the status report shows.
pub open spec fn depicts(
    state: RepositoryState,
    staged: RawChanges,
    unstaged: RawChanges,
    untracked: Seq<char>,
    status: Seq<char>,
) -> bool {
    &&& texts_view(state.staged.modified@) == lines_of(staged.modified@)
    &&& texts_view(state.staged.deleted@) == lines_of(staged.deleted@)
    &&& texts_view(state.staged.renamed@) == lines_of(staged.renamed@)
    &&& texts_view(state.unstaged.modified@) == lines_of(unstaged.modified@)
    &&& texts_view(state.unstaged.deleted@) == lines_of(unstaged.deleted@)
    &&& texts_view(state.unstaged.renamed@) == lines_of(unstaged.renamed@)
    &&& texts_view(state.untracked@) == lines_of(untracked)
    &&& state.ahead == shown_state(commit_diff(status)).ahead_count()
    &&& state.behind == shown_state(commit_diff(status)).behind_count()
}

/// Assembles the picture of the repository from the raw answers: the path
/// lists of the index and of the working tree, the untracked paths, and the
/// short status report whose first line carries the tracking annotation. An
/// annotation that cannot be read leaves both counts at zero.
pub fn extract(staged: &RawChanges, unstaged: &RawChanges, untracked: &str, status: &str) -> (r:
    RepositoryState)
    ensures
        depicts(r, *staged, *unstaged, untracked@, status@),
{
    let standing = display_commit_state(get_commit_diff(status.to_owned()));
    RepositoryState {
        staged: extract_changes(staged),
        unstaged: extract_changes(unstaged),
        untracked: split_lines(untracked),
        ahead: standing.ahead(),
        behind: standing.behind(),
    }
}

/// Assembles the picture of the repository on a resolved backend. Only
/// the answers of Git can be read; the other backends are not supported.
pub fn extract_on(
    vcs: VCS,
    staged: &RawChanges,
    unstaged: &RawChanges,
    untracked: &str,
    status: &str,
) -> (r: Result<RepositoryState, ScudError>)
    ensures
        vcs == VCS::Git ==> (r is Ok && depicts(
            r->Ok_0,
            *staged,
            *unstaged,
            untracked@,
            status@,
        )),
        vcs != VCS::Git ==> r == Err::<RepositoryState, ScudError>(
            ScudError::UnsupportedCombination,
        ),
{
    match vcs {
        VCS::Git => Ok(extract(staged, unstaged, untracked, status)),
        VCS::Mercurial => Err(ScudError::UnsupportedCombination),
        VCS::Breezy => Err(ScudError::UnsupportedCombination),
    }
}

/// The character of a decimal digit.
pub open spec fn digit_char(d: nat) -> char {
    if d == 0 {
        '0'
    } else if d == 1 {
        '1'
    } else if d == 2 {
        '2'
    } else if d == 3 {
        '3'
    } else if d == 4 {
        '4'
    } else if d == 5 {
        '5'
    } else if d == 6 {
        '6'
    } else if d == 7 {
        '7'
    } else if d == 8 {
        '8'
    } else {
        '9'
    }
}

/// A number written in decimal digits, without leading zeros.
pub open spec fn decimal_text(n: nat) -> Seq<char>
    decreases n,
{
    if n < 10 {
        seq![digit_char(n)]
    } else {
        decimal_text(n / 10).push(digit_char(n % 10))
    }
}

/// What is written by `decimal_text` is read back by `decimal_value`, and holds no comma.
pub proof fn lemma_decimal_text(n: nat)
    ensures
        all_digits(decimal_text(n)),
        decimal_value(decimal_text(n)) == n,
        first_index_of(decimal_text(n), ',') == decimal_text(n).len(),
    decreases n,
{
    let t = decimal_text(n);
    if n < 10 {
        assert(t.drop_last() =~= Seq::<char>::empty());
        assert(decimal_value(t.drop_last()) == 0);
        assert(digit_value(t.last()) == n);
    } else {
        lemma_decimal_text(n / 10);
        assert(t.drop_last() =~= decimal_text(n / 10));
        assert(digit_value(t.last()) == n % 10);
        assert forall|i: int| 0 <= i < t.len() implies is_digit(#[trigger] t[i]) by {
            if i < t.len() - 1 {
                assert(t[i] == decimal_text(n / 10)[i]);
            }
        }
    }
    assert forall|i: int| 0 <= i < t.len() implies t[i] != ',' by {
        assert(is_digit(t[i]));
    }
    lemma_first_index_of_unique(t, ',', t.len() as int);
}

/// Every annotation of the shape `ahead N` is read as N commits ahead.
pub proof fn law_ahead_is_read(n: u32)
    ensures
        annotation_state("ahead "@ + decimal_text(n as nat)) == Some(CommitState::Ahead(n)),
{
    reveal_strlit("ahead ");
    let d = decimal_text(n as nat);
    let a = "ahead "@ + d;
    lemma_decimal_text(n as nat);
    assert("ahead "@ =~= a.subrange(0, 6));
    assert(a.skip(6) =~= d);
}

/// Every annotation of the shape `behind N` is read as N commits behind.
pub proof fn law_behind_is_read(n: u32)
    ensures
        annotation_state("behind "@ + decimal_text(n as nat)) == Some(CommitState::Behind(n)),
{
    reveal_strlit("ahead ");
    reveal_strlit("behind ");
    let d = decimal_text(n as nat);
    let a = "behind "@ + d;
    lemma_decimal_text(n as nat);
    assert(a[0] == 'b');
    assert(!"ahead "@.is_prefix_of(a)) by {
        if "ahead "@.is_prefix_of(a) {
            assert("ahead "@[0] == a[0]);
        }
    }
    assert("behind "@ =~= a.subrange(0, 7));
    assert(a.skip(7) =~= d);
}

/// Every annotation of the shape `ahead N, behind M` is read as both counts.
pub proof fn law_ahead_and_behind_are_read(n: u32, m: u32)
    ensures
        annotation_state(
            "ahead "@ + decimal_text(n as nat) + ", behind "@ + decimal_text(m as nat),
        ) == Some(CommitState::Diverged { ahead: n, behind: m }),
{
    reveal_strlit("ahead ");
    reveal_strlit(", behind ");
    let d1 = decimal_text(n as nat);
    let d2 = decimal_text(m as nat);
    let a = "ahead "@ + d1 + ", behind "@ + d2;
    lemma_decimal_text(n as nat);
    lemma_decimal_text(m as nat);
    assert("ahead "@ =~= a.subrange(0, 6));
    let rest = a.skip(6);
    assert(rest =~= d1 + ", behind "@ + d2);
    let k = d1.len() as int;
    assert(rest[k] == ',');
    assert forall|i: int| 0 <= i < k implies rest[i] != ',' by {
        assert(rest[i] == d1[i]);
        assert(is_digit(d1[i]));
    }
    lemma_first_index_of_unique(rest, ',', k);
    assert(rest.take(k) =~= d1);
    let right = rest.skip(k);
    assert(right =~= ", behind "@ + d2);
    assert(", behind "@ =~= right.subrange(0, 9));
    assert(right.skip(9) =~= d2);
}

/// Whether `c` occurs nowhere in `s`.
pub open spec fn free_of(s: Seq<char>, c: char) -> bool {
    forall|i: int| 0 <= i < s.len() ==> s[i] != c
}

/// From a status report whose first line ends in an annotation in
/// brackets, the annotation is cut out as it stands: where the line holds two
/// blanks before the bracket, and the annotation holds no bracket and no line
/// feed, and the report ends with the line or goes on with a line feed.
pub proof fn law_annotation_is_cut(before: Seq<char>, annotation: Seq<char>, rest: Seq<char>)
    requires
        free_of(before, '\n'),
        count_of(before, ' ') >= 2,
        free_of(annotation, '\n'),
        free_of(annotation, '['),
        free_of(annotation, ']'),
        rest.len() == 0 || rest[0] == '\n',
    ensures
        commit_diff(before + seq!['['] + annotation + seq![']'] + rest) == annotation,
{
    let line = before + seq!['['] + annotation + seq![']'];
    let s = line + rest;
    assert forall|i: int| 0 <= i < line.len() implies line[i] != '\n' by {
        if i < before.len() {
            assert(line[i] == before[i]);
        } else if i == before.len() {
        } else if i < before.len() + 1 + annotation.len() {
            assert(line[i] == annotation[i - before.len() - 1]);
        } else {
        }
    }
    assert forall|i: int| 0 <= i < line.len() implies s[i] != '\n' by {
        assert(s[i] == line[i]);
    }
    if rest.len() > 0 {
        assert(s[line.len() as int] == rest[0]);
    }
    lemma_first_index_of_unique(s, '\n', line.len() as int);
    assert(first_line(s) =~= line);
    lemma_count_of_append(before, seq!['['] + annotation + seq![']'], ' ');
    assert(before + (seq!['['] + annotation + seq![']']) =~= line);
    let closed = annotation + seq![']'];
    assert forall|i: int| 0 <= i < closed.len() implies closed[i] != '[' by {
        if i < annotation.len() {
            assert(closed[i] == annotation[i]);
        }
    }
    let opened = before + seq!['['];
    assert(opened.last() == '[');
    assert(after_last(opened, '[') == opened.len());
    lemma_after_last_append(opened, closed, '[');
    assert(opened + closed =~= line);
    let tail = line.skip(after_last(line, '['));
    assert(tail =~= closed);
    assert forall|i: int| 0 <= i < annotation.len() implies closed[i] != ']' by {
        assert(closed[i] == annotation[i]);
    }
    assert(closed[annotation.len() as int] == ']');
    lemma_first_index_of_unique(closed, ']', annotation.len() as int);
    assert(closed.take(annotation.len() as int) =~= annotation);
}

/// A status report whose first line holds no opening bracket reports no divergence.
pub proof fn law_no_bracket_no_divergence(status: Seq<char>)
    requires
        free_of(first_line(status), '['),
    ensures
        commit_diff(status) == Seq::<char>::empty(),
        shown_state(commit_diff(status)) == CommitState::UpToDate,
{
    let line = first_line(status);
    lemma_after_last_append(Seq::<char>::empty(), line, '[');
    assert(Seq::<char>::empty() + line =~= line);
}

} // verus!
