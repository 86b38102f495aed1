use scud_core::error::ScudError;
use scud_core::state::{
    display_commit_state, extract, extract_changes, get_commit_diff, parse_commit_state,
    ChangeSet, CommitState, RawChanges,
};
use scud_core::text::{split_lines, split_on};

fn standing(line: &str) -> (u32, u32) {
    let state = display_commit_state(get_commit_diff(line.to_string()));
    (state.ahead(), state.behind())
}

fn raw(modified: &str, deleted: &str, renamed: &str) -> RawChanges {
    RawChanges {
        modified: modified.to_string(),
        deleted: deleted.to_string(),
        renamed: renamed.to_string(),
    }
}

fn names(items: &[&str]) -> Vec<String> {
    items.iter().map(|n| n.to_string()).collect()
}

#[test]
fn ahead_only() {
    assert_eq!(standing("## main...origin/main [ahead 2]"), (2, 0));
    assert_eq!(
        display_commit_state(get_commit_diff("## main...origin/main [ahead 2]".to_string())),
        CommitState::Ahead(2)
    );
}

#[test]
fn behind_only() {
    assert_eq!(standing("## main...origin/main [behind 3]"), (0, 3));
    assert_eq!(
        display_commit_state(get_commit_diff("## main...origin/main [behind 3]".to_string())),
        CommitState::Behind(3)
    );
}

#[test]
fn ahead_and_behind() {
    assert_eq!(standing("## main...origin/main [ahead 1, behind 4]"), (1, 4));
    assert_eq!(
        display_commit_state(
            get_commit_diff("## main...origin/main [ahead 1, behind 4]".to_string())
        ),
        CommitState::Diverged { ahead: 1, behind: 4 }
    );
}

#[test]
fn no_annotation() {
    assert_eq!(standing("## main...origin/main"), (0, 0));
    assert_eq!(
        display_commit_state(get_commit_diff("## main...origin/main".to_string())),
        CommitState::UpToDate
    );
}

#[test]
fn annotation_is_cut_from_the_first_line_only() {
    assert_eq!(get_commit_diff("## main...origin/main [ahead 2]".to_string()), "ahead 2");
    assert_eq!(
        get_commit_diff("## main...origin/main [ahead 1, behind 4]\n M src/lib.rs\n".to_string()),
        "ahead 1, behind 4"
    );
    assert_eq!(get_commit_diff("## main...origin/main\n M a [b] c\n".to_string()), "");
    assert_eq!(get_commit_diff("## main\n?? x\n".to_string()), "");
    assert_eq!(get_commit_diff("".to_string()), "");
}

#[test]
fn annotation_takes_the_last_opening_bracket() {
    assert_eq!(get_commit_diff("## a[b]...origin/a[b] [behind 7]".to_string()), "behind 7");
    assert_eq!(get_commit_diff("## x y [unclosed".to_string()), "");
    assert_eq!(get_commit_diff("## x y ]ahead 1[".to_string()), "");
    assert_eq!(get_commit_diff("## x y []".to_string()), "");
    assert_eq!(get_commit_diff("##x[ahead 1]".to_string()), "");
    assert_eq!(get_commit_diff("## x y [ahead 1] tail".to_string()), "ahead 1");
}

#[test]
fn a_first_line_without_brackets_has_no_annotation() {
    assert_eq!(get_commit_diff("## No commits yet on main".to_string()), "");
    assert_eq!(standing("## No commits yet on main"), (0, 0));
    assert_eq!(get_commit_diff("ahead 1, behind 2".to_string()), "");
    assert_eq!(standing("ahead 1, behind 2"), (0, 0));
}

#[test]
fn the_three_shapes_are_read() {
    assert_eq!(parse_commit_state(""), Ok(CommitState::UpToDate));
    assert_eq!(parse_commit_state("ahead 12"), Ok(CommitState::Ahead(12)));
    assert_eq!(parse_commit_state("behind 0"), Ok(CommitState::Behind(0)));
    assert_eq!(
        parse_commit_state("ahead 10, behind 205"),
        Ok(CommitState::Diverged { ahead: 10, behind: 205 })
    );
    assert_eq!(parse_commit_state("ahead 007"), Ok(CommitState::Ahead(7)));
}

#[test]
fn numbers_up_to_32_bits_are_read() {
    assert_eq!(parse_commit_state("ahead 4294967295"), Ok(CommitState::Ahead(4294967295)));
    assert_eq!(parse_commit_state("ahead 4294967296"), Err(ScudError::MalformedStatusLine));
    assert_eq!(
        parse_commit_state("behind 99999999999999999999999999"),
        Err(ScudError::MalformedStatusLine)
    );
}

#[test]
fn other_shapes_are_malformed() {
    for text in [
        "gone",
        "ahead",
        "ahead ",
        "ahead x",
        "ahead 1 ",
        " ahead 1",
        "ahead -1",
        "ahead +1",
        "behind",
        "behind 3x",
        "behind 3, ahead 1",
        "ahead 1,behind 4",
        "ahead 1, behind",
        "ahead 1, behind ",
        "ahead 1, behind 4, ahead 2",
        "ahead 1, ahead 4",
        "1, 4",
        "Ahead 1",
        "ahead\t1",
        ",",
    ] {
        assert_eq!(parse_commit_state(text), Err(ScudError::MalformedStatusLine), "{}", text);
        assert_eq!(display_commit_state(text.to_string()), CommitState::UpToDate, "{}", text);
    }
}

#[test]
fn counts_of_each_standing() {
    assert_eq!((CommitState::UpToDate.ahead(), CommitState::UpToDate.behind()), (0, 0));
    assert_eq!((CommitState::Ahead(5).ahead(), CommitState::Ahead(5).behind()), (5, 0));
    assert_eq!((CommitState::Behind(6).ahead(), CommitState::Behind(6).behind()), (0, 6));
    let both = CommitState::Diverged { ahead: 8, behind: 9 };
    assert_eq!((both.ahead(), both.behind()), (8, 9));
}

#[test]
fn lines_end_at_line_feeds() {
    assert_eq!(split_lines(""), Vec::<String>::new());
    assert_eq!(split_lines("a"), names(&["a"]));
    assert_eq!(split_lines("a\n"), names(&["a"]));
    assert_eq!(split_lines("a\nb"), names(&["a", "b"]));
    assert_eq!(split_lines("a\n\nb\n"), names(&["a", "", "b"]));
    assert_eq!(split_lines("\n"), names(&[""]));
    assert_eq!(split_lines("a\r\nb\r\n"), names(&["a", "b"]));
    assert_eq!(split_lines("a\rb\r"), names(&["a\rb\r"]));
    assert_eq!(split_lines("a\rb\r\n"), names(&["a\rb"]));
    assert_eq!(split_lines("src/é.rs\nsrc/日本.rs\n"), names(&["src/é.rs", "src/日本.rs"]));
}

#[test]
fn lines_agree_with_the_standard_library() {
    for text in ["", "a", "a\n", "\n\n", "a\r\n\r\nb", "x\ny\nz", "\r", "a\r", "q\n\r\n"] {
        let expected: Vec<String> = text.lines().map(|l| l.to_string()).collect();
        assert_eq!(split_lines(text), expected, "{:?}", text);
    }
}

#[test]
fn pieces_keep_the_empty_ones() {
    assert_eq!(split_on("", '\n'), names(&[""]));
    assert_eq!(split_on("a\n", '\n'), names(&["a", ""]));
    assert_eq!(split_on("a\n\nb", '\n'), names(&["a", "", "b"]));
    assert_eq!(split_on("a b  c", ' '), names(&["a", "b", "", "c"]));
    for text in ["", "a", "a\n", "\n\n", "x\ny\nz", "\n"] {
        let expected: Vec<String> = text.split('\n').map(|l| l.to_string()).collect();
        assert_eq!(split_on(text, '\n'), expected, "{:?}", text);
    }
}

#[test]
fn changes_are_read_one_path_per_line() {
    let changes = extract_changes(&raw("a.rs\nb.rs\n", "", "old.rs\n"));
    assert_eq!(
        changes,
        ChangeSet { modified: names(&["a.rs", "b.rs"]), deleted: names(&[]), renamed: names(&["old.rs"]) }
    );
}

#[test]
fn the_picture_of_a_repository() {
    let state = extract(
        &raw("src/a.rs\n", "gone.rs\n", ""),
        &raw("src/b.rs\nsrc/c.rs\n", "", "moved.rs\n"),
        "new.txt\nnotes/todo.md\n",
        "## main...origin/main [ahead 1, behind 4]\nM  src/a.rs\n",
    );
    assert_eq!(state.staged.modified, names(&["src/a.rs"]));
    assert_eq!(state.staged.deleted, names(&["gone.rs"]));
    assert_eq!(state.staged.renamed, names(&[]));
    assert_eq!(state.unstaged.modified, names(&["src/b.rs", "src/c.rs"]));
    assert_eq!(state.unstaged.deleted, names(&[]));
    assert_eq!(state.unstaged.renamed, names(&["moved.rs"]));
    assert_eq!(state.untracked, names(&["new.txt", "notes/todo.md"]));
    assert_eq!((state.ahead, state.behind), (1, 4));
}

#[test]
fn a_malformed_status_line_leaves_both_counts_at_zero() {
    let empty = raw("", "", "");
    let state = extract(&empty, &empty, "", "## main...origin/main [gone]\n");
    assert_eq!((state.ahead, state.behind), (0, 0));
    let state = extract(&empty, &empty, "", "## main...origin/main [behind 3]");
    assert_eq!((state.ahead, state.behind), (0, 3));
    let state = extract(&empty, &empty, "", "");
    assert_eq!((state.ahead, state.behind), (0, 0));
    assert!(state.untracked.is_empty());
}

#[test]
fn only_git_gives_a_picture() {
    let changes = raw("a\n", "", "");
    let empty = raw("", "", "");
    let state = scud_core::state::extract_on(
        scud_core::cli::VCS::Git,
        &changes,
        &empty,
        "u\n",
        "## main...origin/main [ahead 2]\n",
    );
    assert_eq!(state, Ok(extract(&changes, &empty, "u\n", "## main...origin/main [ahead 2]\n")));
    for backend in [scud_core::cli::VCS::Mercurial, scud_core::cli::VCS::Breezy] {
        assert_eq!(
            scud_core::state::extract_on(backend, &changes, &empty, "", ""),
            Err(ScudError::UnsupportedCombination)
        );
    }
}

#[test]
fn long_lists_are_read_in_one_pass() {
    let mut text = String::new();
    for i in 0..50_000 {
        text.push_str(&format!("src/module_{}/file_{}.rs\n", i % 97, i));
    }
    let lines = split_lines(&text);
    assert_eq!(lines.len(), 50_000);
    assert_eq!(lines[0], "src/module_0/file_0.rs");
    assert_eq!(lines[49_999], "src/module_44/file_49999.rs");
    let mut status = "## main...origin/main [ahead 3, behind 1]\n".to_string();
    status.push_str(&text);
    assert_eq!(standing(&status), (3, 1));
}
