//! History records: what one invocation did and the repository state around it.
use crate::kind::{classify_spec, kind_of_verb, law_verb_round_trip, verb_of, CommandKind};
use crate::text::{split_tokens, tokens_of, trim_output, trimmed, views_of};
use vstd::prelude::*;

verus! {

/// The verb in a command line is not one of the table's.
#[derive(Clone, Copy, Debug, PartialEq, Eq, Structural)]
pub struct NoCommandFound;

/// What one invocation was and what the repository looked like after it.
pub struct GitCommandState {
    pub command: CommandKind,
    /// The tokens of the line that named existing paths, in line order.
    pub files_affected: Vec<String>,
    pub current_branch: String,
    pub current_commit: String,
    pub raw_command: String,
}

/// One entry of the history: a state with its identifier and creation time
/// (nanoseconds since the Unix epoch, UTC).
pub struct HistoryRecord {
    pub id: String,
    pub state: GitCommandState,
    pub created_at: i128,
}

/// The tokens of `toks` whose flag is set, in order.
pub open spec fn kept(toks: Seq<Seq<char>>, flags: Seq<bool>) -> Seq<Seq<char>>
    decreases toks.len(),
{
    if toks.len() == 0 {
        Seq::empty()
    } else {
        let prev = kept(toks.drop_last(), flags);
        if flags[toks.len() - 1] {
            prev.push(toks.last())
        } else {
            prev
        }
    }
}

/// How many of the first `n` flags are set.
pub open spec fn count_set(flags: Seq<bool>, n: int) -> nat
    decreases n,
{
    if n <= 0 {
        0
    } else {
        count_set(flags, n - 1) + if flags[n - 1] { 1nat } else { 0nat }
    }
}

/// One existence answer per token, with no empty token counted as a path.
pub open spec fn is_check_outcome(flags: Seq<bool>, toks: Seq<Seq<char>>) -> bool {
    &&& flags.len() == toks.len()
    &&& forall|i: int| 0 <= i < toks.len() && flags[i] ==> #[trigger] toks[i].len() > 0
}

/// `files` is what some outcome of the existence checks on `toks` keeps.
pub open spec fn is_existing_selection(files: Seq<Seq<char>>, toks: Seq<Seq<char>>) -> bool {
    exists|flags: Seq<bool>| is_check_outcome(flags, toks) && files == #[trigger] kept(toks, flags)
}

/// The records of `s` whose kind mutates the repository, in order.
pub open spec fn mutating_only(s: Seq<HistoryRecord>) -> Seq<HistoryRecord>
    decreases s.len(),
{
    if s.len() == 0 {
        Seq::empty()
    } else {
        let prev = mutating_only(s.drop_last());
        if s.last().state.command.mutating() {
            prev.push(s.last())
        } else {
            prev
        }
    }
}

/// The lowercase hex digit of a value below 16.
pub open spec fn hex_digit(n: int) -> char {
    seq!['0', '1', '2', '3', '4', '5', '6', '7', '8', '9', 'a', 'b', 'c', 'd', 'e', 'f'][n]
}

/// The hex digits of `b[lo..hi]`, two per byte, high nibble first.
pub open spec fn hex_run(b: Seq<u8>, lo: int, hi: int) -> Seq<char>
    decreases hi - lo,
{
    if lo >= hi {
        Seq::empty()
    } else {
        seq![hex_digit(b[lo] as int / 16), hex_digit(b[lo] as int % 16)] + hex_run(b, lo + 1, hi)
    }
}

/// `b` with the version nibble set to 4 and the RFC 4122 variant bits set.
pub open spec fn v4_bytes(b: Seq<u8>) -> Seq<u8> {
    b.update(6, (b[6] & 0x0f) | 0x40).update(8, (b[8] & 0x3f) | 0x80)
}

/// The hyphenated lowercase text (8-4-4-4-12 hex digits) of the version-4
/// identifier made from 16 random bytes.
pub open spec fn uuid_text_of(b: Seq<u8>) -> Seq<char> {
    let v = v4_bytes(b);
    hex_run(v, 0, 4) + seq!['-'] + hex_run(v, 4, 6) + seq!['-'] + hex_run(v, 6, 8) + seq!['-']
        + hex_run(v, 8, 10) + seq!['-'] + hex_run(v, 10, 16)
}

/// Relies on std::path::Path::exists: whether a file or directory of that
/// name exists now. It depends on the disk, so nothing is stated of it.
#[verifier::external_body]
fn path_exists(p: &str) -> (r: bool) {
    std::path::Path::new(p).exists()
}

/// Relies on uuid::Builder::from_random_bytes, which keeps the bytes but for
/// the version nibble (4) and the RFC 4122 variant bits, set with bit
/// operations only, and on the `Display` of uuid::Uuid, which writes the bytes
/// in order as lowercase hex in the hyphenated 8-4-4-4-12 form.
#[verifier::external_body]
fn record_id_from(bytes: [u8; 16]) -> (r: String)
    ensures
        r@ == uuid_text_of(bytes@),
{
    uuid::Builder::from_random_bytes(bytes).into_uuid().to_string()
}

/// Keeps the tokens whose flag is set, in their order.
pub fn keep_flagged(tokens: &Vec<String>, flags: &Vec<bool>) -> (r: Vec<String>)
    requires
        tokens@.len() == flags@.len(),
    ensures
        views_of(r@) == kept(views_of(tokens@), flags@),
{
    let mut out: Vec<String> = Vec::new();
    let mut i: usize = 0;
    assert(views_of(tokens@).subrange(0, 0) =~= Seq::<Seq<char>>::empty());
    assert(views_of(out@) =~= Seq::<Seq<char>>::empty());
    while i < tokens.len()
        invariant
            tokens@.len() == flags@.len(),
            i <= tokens@.len(),
            views_of(out@) == kept(views_of(tokens@).subrange(0, i as int), flags@),
        decreases tokens@.len() - i,
    {
        let ghost p = views_of(tokens@).subrange(0, i + 1);
        assert(p.drop_last() =~= views_of(tokens@).subrange(0, i as int));
        assert(p.last() == tokens@[i as int]@);
        if flags[i] {
            let ghost before = out@;
            out.push(tokens[i].clone());
            assert(views_of(out@) =~= views_of(before).push(tokens@[i as int]@));
        }
        i = i + 1;
    }
    assert(views_of(tokens@).subrange(0, tokens@.len() as int) =~= views_of(tokens@));
    out
}

impl GitCommandState {
    /// The kind named by the first token of `command`, or an error when the
    /// token is not a known verb.
    pub fn extract_git_command(command: &str) -> (r: Result<CommandKind, NoCommandFound>)
        ensures
            r is Ok <==> !(classify_spec(command@) is Unrecognized),
            r is Ok ==> r->Ok_0 == classify_spec(command@),
    {
        let k = crate::kind::classify(command);
        match k {
            CommandKind::Unrecognized => Err(NoCommandFound),
            _ => Ok(k),
        }
    }

    /// The tokens of `command` that name existing paths, in line order, as
    /// typed; a token whose check fails is left out, and an empty token is
    /// never checked.
    pub fn process_affected_files(command: &str) -> (r: Vec<String>)
        ensures
            is_existing_selection(views_of(r@), tokens_of(command@)),
    {
        let toks = split_tokens(command);
        let flags = existence_flags(&toks);
        let r = keep_flagged(&toks, &flags);
        assert(is_check_outcome(flags@, tokens_of(command@)) && views_of(r@) == kept(
            tokens_of(command@),
            flags@,
        ));
        r
    }

    /// Builds the state of one invocation from its raw line, one existence
    /// answer per token of the line, and the tool's raw answers for the
    /// current branch and commit.
    pub fn from_checks(
        command: &str,
        exists: &Vec<bool>,
        branch_output: &str,
        commit_output: &str,
    ) -> (r: GitCommandState)
        requires
            exists@.len() == tokens_of(command@).len(),
        ensures
            r.command == classify_spec(command@),
            views_of(r.files_affected@) == kept(tokens_of(command@), exists@),
            r.current_branch@ == trimmed(branch_output@),
            r.current_commit@ == trimmed(commit_output@),
            r.raw_command@ == command@,
    {
        let git_command = match GitCommandState::extract_git_command(command) {
            Ok(k) => k,
            Err(_) => CommandKind::Unrecognized,
        };
        let toks = split_tokens(command);
        GitCommandState {
            command: git_command,
            files_affected: keep_flagged(&toks, exists),
            current_branch: trim_output(branch_output),
            current_commit: trim_output(commit_output),
            raw_command: String::from_str(command),
        }
    }

    /// Builds the state of one invocation from its raw line and the tool's
    /// raw answers for the current branch and commit, checking each token of
    /// the line against the disk; never fails.
    pub fn new(command: &str, branch_output: &str, commit_output: &str) -> (r: GitCommandState)
        ensures
            r.command == classify_spec(command@),
            is_existing_selection(views_of(r.files_affected@), tokens_of(command@)),
            r.current_branch@ == trimmed(branch_output@),
            r.current_commit@ == trimmed(commit_output@),
            r.raw_command@ == command@,
    {
        let toks = split_tokens(command);
        let flags = existence_flags(&toks);
        let r = GitCommandState::from_checks(command, &flags, branch_output, commit_output);
        assert(is_check_outcome(flags@, tokens_of(command@)) && views_of(r.files_affected@) == kept(
            tokens_of(command@),
            flags@,
        ));
        r
    }
}

/// Asks the disk about each non-empty token; an empty token names no path.
fn existence_flags(toks: &Vec<String>) -> (r: Vec<bool>)
    ensures
        is_check_outcome(r@, views_of(toks@)),
{
    let mut flags: Vec<bool> = Vec::new();
    let mut i: usize = 0;
    while i < toks.len()
        invariant
            i <= toks@.len(),
            flags@.len() == i,
            forall|k: int| 0 <= k < i && flags@[k] ==> #[trigger] toks@[k]@.len() > 0,
        decreases toks@.len() - i,
    {
        let e = if toks[i].as_str().unicode_len() == 0 {
            false
        } else {
            path_exists(toks[i].as_str())
        };
        flags.push(e);
        i = i + 1;
    }
    assert forall|k: int| 0 <= k < views_of(toks@).len() && flags@[k] implies #[trigger] views_of(toks@)[k].len() > 0 by {
        assert(toks@[k]@.len() > 0);
    }
    flags
}

/// The empty line names no affected file, whatever is on the disk.
pub proof fn law_empty_line_no_files(files: Seq<Seq<char>>)
    requires
        is_existing_selection(files, tokens_of(Seq::empty())),
    ensures
        files.len() == 0,
{
    let toks = tokens_of(Seq::<char>::empty());
    assert(toks == seq![Seq::<char>::empty()]);
    let flags = choose|flags: Seq<bool>| is_check_outcome(flags, toks) && files == #[trigger] kept(toks, flags);
    assert(toks[0].len() == 0);
    assert(!flags[0]);
    assert(toks.drop_last() =~= Seq::<Seq<char>>::empty());
    assert(kept(toks.drop_last(), flags).len() == 0);
    assert(kept(toks, flags) == kept(toks.drop_last(), flags));
}

impl HistoryRecord {
    /// A record of `state` whose identifier is the version-4 identifier made
    /// from `random` and whose creation time is `created_at`.
    pub fn create(state: GitCommandState, random: [u8; 16], created_at: i128) -> (r: HistoryRecord)
        ensures
            r.state == state,
            r.id@ == uuid_text_of(random@),
            r.created_at == created_at,
    {
        let id = record_id_from(random);
        HistoryRecord { id, state, created_at }
    }

    /// A record from its stored parts.
    pub fn from_parts(id: String, state: GitCommandState, created_at: i128) -> (r: HistoryRecord)
        ensures
            r.id == id,
            r.state == state,
            r.created_at == created_at,
    {
        HistoryRecord { id, state, created_at }
    }
}

/// The records whose kind mutates the repository, in their order.
pub fn filter_mutating(records: Vec<HistoryRecord>) -> (r: Vec<HistoryRecord>)
    ensures
        r@ == mutating_only(records@),
{
    let ghost orig = records@;
    let n = records.len();
    let mut rest = records;
    let mut out: Vec<HistoryRecord> = Vec::new();
    let mut i: usize = 0;
    assert(orig.subrange(0, 0) =~= Seq::<HistoryRecord>::empty());
    assert(orig.subrange(0, n as int) =~= orig);
    while i < n
        invariant
            n == orig.len(),
            i <= n,
            rest@ == orig.subrange(i as int, n as int),
            out@ == mutating_only(orig.subrange(0, i as int)),
        decreases n - i,
    {
        let x = rest.remove(0);
        assert(rest@ =~= orig.subrange(i + 1, n as int));
        let ghost p = orig.subrange(0, i + 1);
        assert(p.drop_last() =~= orig.subrange(0, i as int));
        if x.state.command.is_mutating() {
            out.push(x);
        }
        i = i + 1;
    }
    assert(orig.subrange(0, n as int) =~= orig);
    out
}

/// The number of set flags grows with the prefix.
pub proof fn lemma_count_set_monotone(flags: Seq<bool>, i: int, j: int)
    requires
        0 <= i <= j,
    ensures
        count_set(flags, i) <= count_set(flags, j),
    decreases j - i,
{
    if i < j {
        lemma_count_set_monotone(flags, i, j - 1);
    }
}

/// The kept entry at `j` is a token whose flag is set, of rank `j` among them.
pub open spec fn from_set_flag(toks: Seq<Seq<char>>, flags: Seq<bool>, j: int) -> bool {
    exists|i: int|
        0 <= i < toks.len() && flags[i] && #[trigger] count_set(flags, i) == j && kept(toks, flags)[j]
            == toks[i]
}

/// What the extractor keeps: one entry per set flag; a token whose flag is
/// set stands at its rank among the kept tokens; and every kept entry is a
/// token whose flag is set, at that rank.
pub proof fn law_kept_positions(toks: Seq<Seq<char>>, flags: Seq<bool>)
    requires
        flags.len() >= toks.len(),
    ensures
        kept(toks, flags).len() == count_set(flags, toks.len() as int),
        forall|i: int|
            0 <= i < toks.len() && flags[i] ==> kept(toks, flags)[#[trigger] count_set(flags, i) as int]
                == toks[i],
        forall|j: int| 0 <= j < kept(toks, flags).len() ==> #[trigger] from_set_flag(toks, flags, j),
    decreases toks.len(),
{
    if toks.len() > 0 {
        let n = toks.len() as int;
        let t = toks.drop_last();
        law_kept_positions(t, flags);
        let prev = kept(t, flags);
        assert forall|i: int| 0 <= i < toks.len() && flags[i] implies kept(toks, flags)[#[trigger] count_set(flags, i) as int] == toks[i] by {
            if i < n - 1 {
                lemma_count_set_monotone(flags, i + 1, n - 1);
                assert(t[i] == toks[i]);
            }
        }
        assert forall|j: int| 0 <= j < kept(toks, flags).len() implies #[trigger] from_set_flag(toks, flags, j) by {
            if j < prev.len() {
                assert(from_set_flag(t, flags, j));
                let i = choose|i: int|
                    0 <= i < t.len() && flags[i] && #[trigger] count_set(flags, i) == j
                        && prev[j] == t[i];
                assert(toks[i] == t[i]);
            } else {
                assert(count_set(flags, n - 1) == j);
            }
        }
    }
}

/// Every record that the filter keeps mutates the repository.
pub proof fn lemma_mutating_only_all_mutating(s: Seq<HistoryRecord>)
    ensures
        forall|i: int|
            0 <= i < mutating_only(s).len() ==> (#[trigger] mutating_only(s)[i]).state.command.mutating(),
    decreases s.len(),
{
    if s.len() > 0 {
        lemma_mutating_only_all_mutating(s.drop_last());
    }
}

/// Filtering a sequence of mutating records gives it back unchanged.
pub proof fn law_filter_keeps_mutating(s: Seq<HistoryRecord>)
    requires
        forall|i: int| 0 <= i < s.len() ==> (#[trigger] s[i]).state.command.mutating(),
    ensures
        mutating_only(s) == s,
    decreases s.len(),
{
    if s.len() > 0 {
        let t = s.drop_last();
        assert forall|i: int| 0 <= i < t.len() implies (#[trigger] t[i]).state.command.mutating() by {
            assert(t[i] == s[i]);
        }
        law_filter_keeps_mutating(t);
        assert(s.last().state.command.mutating());
        assert(t.push(s.last()) =~= s);
    }
}

/// The mutation filter is idempotent.
pub proof fn law_filter_idempotent(s: Seq<HistoryRecord>)
    ensures
        mutating_only(mutating_only(s)) == mutating_only(s),
{
    lemma_mutating_only_all_mutating(s);
    law_filter_keeps_mutating(mutating_only(s));
}

/// The records of `s` whose kind's verb `command_is_mutate` accepts, in order.
pub open spec fn with_mutating_verb(s: Seq<HistoryRecord>) -> Seq<HistoryRecord>
    decreases s.len(),
{
    if s.len() == 0 {
        Seq::empty()
    } else {
        let prev = with_mutating_verb(s.drop_last());
        if kind_of_verb(verb_of(s.last().state.command)).mutating() {
            prev.push(s.last())
        } else {
            prev
        }
    }
}

/// The record filter keeps exactly the records whose kind's verb
/// `command_is_mutate` accepts.
pub proof fn law_filter_by_verb(s: Seq<HistoryRecord>)
    ensures
        mutating_only(s) == with_mutating_verb(s),
    decreases s.len(),
{
    if s.len() > 0 {
        law_filter_by_verb(s.drop_last());
        law_verb_round_trip(s.last().state.command);
    }
}

} // verus!
