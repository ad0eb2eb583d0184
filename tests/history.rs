use git_history::{
    classify, command_is_mutate, filter_mutating, first_token, keep_flagged, kind_from_verb,
    same_text, split_tokens, trim_output, CommandKind, GitCommandState, HistoryRecord,
    NoCommandFound,
};

fn strings(v: &[&str]) -> Vec<String> {
    v.iter().map(|s| s.to_string()).collect()
}

fn state(command: &str) -> GitCommandState {
    GitCommandState::new(command, "main\n", "0123abcd\n")
}

#[test]
fn known_verb_followed_by_anything() {
    let table = [
        ("add", CommandKind::Add),
        ("apply", CommandKind::Apply),
        ("bisect", CommandKind::Bisect),
        ("branch", CommandKind::Branch),
        ("checkout", CommandKind::Checkout),
        ("cherry-pick", CommandKind::CherryPick),
        ("clean", CommandKind::Clean),
        ("clone", CommandKind::Clone),
        ("commit", CommandKind::Commit),
        ("fetch", CommandKind::Fetch),
        ("filter-branch", CommandKind::FilterBranch),
        ("fsck", CommandKind::Fsck),
        ("gc", CommandKind::Gc),
        ("init", CommandKind::Init),
        ("merge", CommandKind::Merge),
        ("mv", CommandKind::Mv),
        ("pull", CommandKind::Pull),
        ("push", CommandKind::Push),
        ("rebase", CommandKind::Rebase),
        ("remote", CommandKind::Remote),
        ("reset", CommandKind::Reset),
        ("restore", CommandKind::Restore),
        ("rm", CommandKind::Rm),
        ("stash", CommandKind::Stash),
        ("submodule", CommandKind::Submodule),
        ("switch", CommandKind::Switch),
        ("tag", CommandKind::Tag),
        ("update-index", CommandKind::UpdateIndex),
        ("update-ref", CommandKind::UpdateRef),
        ("write-tree", CommandKind::WriteTree),
    ];
    for (verb, kind) in table {
        assert_eq!(kind_from_verb(verb), kind);
        assert_eq!(classify(verb), kind);
        assert_eq!(classify(&format!("{} --flag some thing", verb)), kind);
        assert_eq!(classify(&format!("{}\tx", verb)), kind);
    }
}

#[test]
fn unknown_first_token_is_unrecognized() {
    assert_eq!(classify("status"), CommandKind::Unrecognized);
    assert_eq!(classify("log --oneline"), CommandKind::Unrecognized);
    assert_eq!(classify("Add file"), CommandKind::Unrecognized);
    assert_eq!(classify("adds file"), CommandKind::Unrecognized);
    assert_eq!(classify(" add file"), CommandKind::Unrecognized);
}

#[test]
fn empty_line_is_unrecognized() {
    assert_eq!(classify(""), CommandKind::Unrecognized);
    assert!(!command_is_mutate(""));
}

#[test]
fn extract_reports_unknown_verb() {
    assert_eq!(GitCommandState::extract_git_command("status"), Err(NoCommandFound));
    assert_eq!(GitCommandState::extract_git_command(""), Err(NoCommandFound));
    assert_eq!(GitCommandState::extract_git_command("rebase -i HEAD~3"), Ok(CommandKind::Rebase));
}

#[test]
fn mutating_commands() {
    assert!(command_is_mutate("add"));
    assert!(command_is_mutate("push"));
    assert!(command_is_mutate("cherry-pick"));
    assert!(!command_is_mutate("push origin main"));
    assert!(!command_is_mutate("Add"));
    assert!(!command_is_mutate("add "));
    assert!(!command_is_mutate("status"));
    assert!(!command_is_mutate("diff HEAD"));
    assert!(CommandKind::Commit.is_mutating());
    assert!(!CommandKind::Unrecognized.is_mutating());
}

#[test]
fn tokens_and_first_token() {
    assert_eq!(first_token("commit -m test"), "commit");
    assert_eq!(first_token("status"), "status");
    assert_eq!(first_token(""), "");
    assert_eq!(first_token(" x"), "");
    assert_eq!(split_tokens("commit -m test"), strings(&["commit", "-m", "test"]));
    assert_eq!(split_tokens("a  b"), strings(&["a", "", "b"]));
    assert_eq!(split_tokens("a\tb\nc"), strings(&["a", "b", "c"]));
    assert_eq!(split_tokens(""), strings(&[""]));
}

#[test]
fn text_helpers() {
    assert_eq!(trim_output("  main\n"), "main");
    assert_eq!(trim_output("\n\t\r"), "");
    assert_eq!(trim_output("a b"), "a b");
    assert!(same_text("abc", "abc"));
    assert!(!same_text("abc", "abd"));
    assert!(!same_text("abc", "ab"));
}

#[test]
fn keeps_flagged_tokens_in_order() {
    let toks = strings(&["add", "README.md"]);
    assert_eq!(keep_flagged(&toks, &vec![false, true]), strings(&["README.md"]));
    let toks = strings(&["a", "b", "c", "b"]);
    assert_eq!(keep_flagged(&toks, &vec![true, false, true, true]), strings(&["a", "c", "b"]));
    assert_eq!(keep_flagged(&toks, &vec![false, false, false, false]), strings(&[]));
}

#[test]
fn affected_files_are_existing_paths() {
    assert_eq!(GitCommandState::process_affected_files("add /"), strings(&["/"]));
    assert_eq!(
        GitCommandState::process_affected_files("add / no-such-path-here-xyz /"),
        strings(&["/", "/"])
    );
    assert_eq!(GitCommandState::process_affected_files(""), strings(&[]));
}

#[test]
fn commit_record_and_status_record() {
    let s = state("commit -m test");
    assert_eq!(s.command, CommandKind::Commit);
    assert_eq!(s.raw_command, "commit -m test");
    assert_eq!(s.current_branch, "main");
    assert_eq!(s.current_commit, "0123abcd");
    let commit = HistoryRecord::create(s, [7; 16], 10);
    let status = HistoryRecord::create(state("status"), [9; 16], 11);
    assert_eq!(status.state.command, CommandKind::Unrecognized);
    let kept = filter_mutating(vec![commit, status]);
    assert_eq!(kept.len(), 1);
    assert_eq!(kept[0].state.raw_command, "commit -m test");
}

#[test]
fn from_checks_add_readme() {
    let s = GitCommandState::from_checks("add README.md", &vec![false, true], "main\n", "c0ffee\n");
    assert_eq!(s.command, CommandKind::Add);
    assert_eq!(s.files_affected, strings(&["README.md"]));
    assert_eq!(s.current_branch, "main");
    assert_eq!(s.current_commit, "c0ffee");
    assert_eq!(s.raw_command, "add README.md");
}

#[test]
fn from_checks_push_origin_main() {
    let s = GitCommandState::from_checks("push origin main", &vec![false, false, false], "", "");
    assert_eq!(s.command, CommandKind::Push);
    assert_eq!(s.files_affected, strings(&[]));
    assert_eq!(s.current_branch, "");
    let kept = filter_mutating(vec![HistoryRecord::create(s, [3; 16], 1)]);
    assert_eq!(kept.len(), 1);
}

#[test]
fn empty_line_has_no_files() {
    assert_eq!(state("").files_affected, strings(&[]));
    assert_eq!(GitCommandState::process_affected_files("  "), strings(&[]));
}

#[test]
fn add_existing_file_scenario() {
    let s = state("add /");
    assert_eq!(s.command, CommandKind::Add);
    assert_eq!(s.files_affected, strings(&["/"]));
}

#[test]
fn push_scenario() {
    let s = state("push origin-no-such-path main-no-such-path");
    assert_eq!(s.command, CommandKind::Push);
    assert_eq!(s.files_affected, strings(&[]));
    let kept = filter_mutating(vec![HistoryRecord::create(s, [7; 16], 10)]);
    assert_eq!(kept.len(), 1);
    assert_eq!(kept[0].state.command, CommandKind::Push);
}

#[test]
fn sequential_records_differ() {
    let a = HistoryRecord::create(state("add x"), [1; 16], 100);
    let b = HistoryRecord::create(state("add y"), [2; 16], 100);
    assert_ne!(a.id, b.id);
    assert_eq!(a.created_at, 100);
    assert!(a.created_at <= b.created_at);
}

#[test]
fn record_id_is_hyphenated_v4() {
    let r = HistoryRecord::create(state("tag v1"), [0; 16], 5);
    assert_eq!(r.id, "00000000-0000-4000-8000-000000000000");
    let r = HistoryRecord::create(state("tag v1"), [0xff; 16], 5);
    assert_eq!(r.id, "ffffffff-ffff-4fff-bfff-ffffffffffff");
    let bytes = [0x12, 0x34, 0x56, 0x78, 0x9a, 0xbc, 0xde, 0xf0, 0x12, 0x34, 0x56, 0x78, 0x9a, 0xbc, 0xde, 0xf0];
    let r = HistoryRecord::create(state("tag v1"), bytes, 5);
    let cs: Vec<char> = r.id.chars().collect();
    assert_eq!(cs.len(), 36);
    for (i, c) in cs.iter().enumerate() {
        if i == 8 || i == 13 || i == 18 || i == 23 {
            assert_eq!(*c, '-');
        } else {
            assert!(c.is_ascii_hexdigit() && !c.is_ascii_uppercase());
        }
    }
    assert_eq!(r.id, "12345678-9abc-4ef0-9234-56789abcdef0");
}

#[test]
fn unicode_whitespace_separates_and_trims() {
    assert_eq!(classify("add\u{0B}x"), CommandKind::Add);
    assert_eq!(classify("push\u{A0}origin"), CommandKind::Push);
    assert_eq!(classify("merge\u{3000}dev"), CommandKind::Merge);
    assert_eq!(trim_output("\u{0B}main\u{2003}\n"), "main");
    assert_eq!(split_tokens("a\u{85}b"), strings(&["a", "b"]));
    assert_eq!(classify("add\u{200B}x"), CommandKind::Unrecognized);
}

#[test]
fn filter_is_idempotent_on_values() {
    let recs = vec![
        HistoryRecord::from_parts("1".to_string(), state("add a"), 1),
        HistoryRecord::from_parts("2".to_string(), state("log"), 2),
        HistoryRecord::from_parts("3".to_string(), state("merge b"), 3),
    ];
    let once = filter_mutating(recs);
    let ids: Vec<String> = once.iter().map(|r| r.id.clone()).collect();
    assert_eq!(ids, strings(&["1", "3"]));
    let twice = filter_mutating(once);
    let ids2: Vec<String> = twice.iter().map(|r| r.id.clone()).collect();
    assert_eq!(ids2, ids);
    assert_eq!(twice[1].created_at, 3);
    assert!(filter_mutating(vec![]).is_empty());
}
