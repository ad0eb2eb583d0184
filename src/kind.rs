//! The closed set of command kinds and the classification of command lines.
use crate::text::{first_token, first_token_of, has_no_space, lemma_first_token_prefix, same_text};
use vstd::prelude::*;

verus! {

/// A verb of the underlying tool, or `Unrecognized` for anything else.
#[derive(Clone, Copy, Debug, PartialEq, Eq, Structural)]
pub enum CommandKind {
    Add,
    Apply,
    Bisect,
    Branch,
    Checkout,
    CherryPick,
    Clean,
    Clone,
    Commit,
    Fetch,
    FilterBranch,
    Fsck,
    Gc,
    Init,
    Merge,
    Mv,
    Pull,
    Push,
    Rebase,
    Remote,
    Reset,
    Restore,
    Rm,
    Stash,
    Submodule,
    Switch,
    Tag,
    UpdateIndex,
    UpdateRef,
    WriteTree,
    Unrecognized,
}

/// The table of known verbs.
pub open spec fn kind_of_verb(t: Seq<char>) -> CommandKind {
    if t == "add"@ {
        CommandKind::Add
    } else if t == "apply"@ {
        CommandKind::Apply
    } else if t == "bisect"@ {
        CommandKind::Bisect
    } else if t == "branch"@ {
        CommandKind::Branch
    } else if t == "checkout"@ {
        CommandKind::Checkout
    } else if t == "cherry-pick"@ {
        CommandKind::CherryPick
    } else if t == "clean"@ {
        CommandKind::Clean
    } else if t == "clone"@ {
        CommandKind::Clone
    } else if t == "commit"@ {
        CommandKind::Commit
    } else if t == "fetch"@ {
        CommandKind::Fetch
    } else if t == "filter-branch"@ {
        CommandKind::FilterBranch
    } else if t == "fsck"@ {
        CommandKind::Fsck
    } else if t == "gc"@ {
        CommandKind::Gc
    } else if t == "init"@ {
        CommandKind::Init
    } else if t == "merge"@ {
        CommandKind::Merge
    } else if t == "mv"@ {
        CommandKind::Mv
    } else if t == "pull"@ {
        CommandKind::Pull
    } else if t == "push"@ {
        CommandKind::Push
    } else if t == "rebase"@ {
        CommandKind::Rebase
    } else if t == "remote"@ {
        CommandKind::Remote
    } else if t == "reset"@ {
        CommandKind::Reset
    } else if t == "restore"@ {
        CommandKind::Restore
    } else if t == "rm"@ {
        CommandKind::Rm
    } else if t == "stash"@ {
        CommandKind::Stash
    } else if t == "submodule"@ {
        CommandKind::Submodule
    } else if t == "switch"@ {
        CommandKind::Switch
    } else if t == "tag"@ {
        CommandKind::Tag
    } else if t == "update-index"@ {
        CommandKind::UpdateIndex
    } else if t == "update-ref"@ {
        CommandKind::UpdateRef
    } else if t == "write-tree"@ {
        CommandKind::WriteTree
    } else {
        CommandKind::Unrecognized
    }
}

/// The kind of a raw command line: the table applied to its first token.
pub open spec fn classify_spec(command: Seq<char>) -> CommandKind {
    kind_of_verb(first_token_of(command))
}

impl CommandKind {
    /// Whether commands of this kind alter the repository's state.
    pub open spec fn mutating(self) -> bool {
        !(self is Unrecognized)
    }

    pub fn is_mutating(&self) -> (r: bool)
        ensures
            r == self.mutating(),
    {
        match self {
            CommandKind::Unrecognized => false,
            _ => true,
        }
    }
}

/// Looks a single verb up in the table.
pub fn kind_from_verb(t: &str) -> (r: CommandKind)
    ensures
        r == kind_of_verb(t@),
{
    if same_text(t, "add") {
        CommandKind::Add
    } else if same_text(t, "apply") {
        CommandKind::Apply
    } else if same_text(t, "bisect") {
        CommandKind::Bisect
    } else if same_text(t, "branch") {
        CommandKind::Branch
    } else if same_text(t, "checkout") {
        CommandKind::Checkout
    } else if same_text(t, "cherry-pick") {
        CommandKind::CherryPick
    } else if same_text(t, "clean") {
        CommandKind::Clean
    } else if same_text(t, "clone") {
        CommandKind::Clone
    } else if same_text(t, "commit") {
        CommandKind::Commit
    } else if same_text(t, "fetch") {
        CommandKind::Fetch
    } else if same_text(t, "filter-branch") {
        CommandKind::FilterBranch
    } else if same_text(t, "fsck") {
        CommandKind::Fsck
    } else if same_text(t, "gc") {
        CommandKind::Gc
    } else if same_text(t, "init") {
        CommandKind::Init
    } else if same_text(t, "merge") {
        CommandKind::Merge
    } else if same_text(t, "mv") {
        CommandKind::Mv
    } else if same_text(t, "pull") {
        CommandKind::Pull
    } else if same_text(t, "push") {
        CommandKind::Push
    } else if same_text(t, "rebase") {
        CommandKind::Rebase
    } else if same_text(t, "remote") {
        CommandKind::Remote
    } else if same_text(t, "reset") {
        CommandKind::Reset
    } else if same_text(t, "restore") {
        CommandKind::Restore
    } else if same_text(t, "rm") {
        CommandKind::Rm
    } else if same_text(t, "stash") {
        CommandKind::Stash
    } else if same_text(t, "submodule") {
        CommandKind::Submodule
    } else if same_text(t, "switch") {
        CommandKind::Switch
    } else if same_text(t, "tag") {
        CommandKind::Tag
    } else if same_text(t, "update-index") {
        CommandKind::UpdateIndex
    } else if same_text(t, "update-ref") {
        CommandKind::UpdateRef
    } else if same_text(t, "write-tree") {
        CommandKind::WriteTree
    } else {
        CommandKind::Unrecognized
    }
}

/// Classifies a raw command line by its first token; total, never fails.
pub fn classify(command: &str) -> (r: CommandKind)
    ensures
        r == classify_spec(command@),
{
    kind_from_verb(first_token(command))
}

/// Whether `command`, taken whole, is a verb of the table, all of which
/// alter the repository's state.
pub fn command_is_mutate(command: &str) -> (r: bool)
    ensures
        r == kind_of_verb(command@).mutating(),
{
    kind_from_verb(command).is_mutating()
}

/// A line that starts with a word free of separators, then a separator, is
/// classified by that word alone, whatever follows: a known verb gives its
/// kind, any other word gives `Unrecognized`.
pub proof fn law_leading_word(v: Seq<char>, rest: Seq<char>)
    requires
        has_no_space(v),
    ensures
        classify_spec(v + seq![' '] + rest) == kind_of_verb(v),
{
    let s = v + seq![' '] + rest;
    assert(s.subrange(0, v.len() as int) =~= v);
    assert(s[v.len() as int] == ' ');
    lemma_first_token_prefix(s, v.len() as int);
}

/// Every verb of the table is a non-empty word: it holds no separator.
pub proof fn law_known_verbs_shape(v: Seq<char>)
    requires
        !(kind_of_verb(v) is Unrecognized),
    ensures
        has_no_space(v),
        v.len() > 0,
{
    reveal_strlit("add");
    reveal_strlit("apply");
    reveal_strlit("bisect");
    reveal_strlit("branch");
    reveal_strlit("checkout");
    reveal_strlit("cherry-pick");
    reveal_strlit("clean");
    reveal_strlit("clone");
    reveal_strlit("commit");
    reveal_strlit("fetch");
    reveal_strlit("filter-branch");
    reveal_strlit("fsck");
    reveal_strlit("gc");
    reveal_strlit("init");
    reveal_strlit("merge");
    reveal_strlit("mv");
    reveal_strlit("pull");
    reveal_strlit("push");
    reveal_strlit("rebase");
    reveal_strlit("remote");
    reveal_strlit("reset");
    reveal_strlit("restore");
    reveal_strlit("rm");
    reveal_strlit("stash");
    reveal_strlit("submodule");
    reveal_strlit("switch");
    reveal_strlit("tag");
    reveal_strlit("update-index");
    reveal_strlit("update-ref");
    reveal_strlit("write-tree");
}

/// A line whose first token is not in the table is `Unrecognized`.
pub proof fn law_unknown_first_token(s: Seq<char>)
    requires
        kind_of_verb(first_token_of(s)) is Unrecognized,
    ensures
        classify_spec(s) is Unrecognized,
{
}

/// The empty line is `Unrecognized`.
pub proof fn law_empty_unrecognized()
    ensures
        classify_spec(Seq::empty()) is Unrecognized,
{
    assert(first_token_of(Seq::<char>::empty()) =~= Seq::<char>::empty());
    if !(kind_of_verb(Seq::<char>::empty()) is Unrecognized) {
        law_known_verbs_shape(Seq::<char>::empty());
    }
}

/// The strings of `s` that `command_is_mutate` accepts, in order.
pub open spec fn mutating_lines(s: Seq<Seq<char>>) -> Seq<Seq<char>>
    decreases s.len(),
{
    if s.len() == 0 {
        Seq::empty()
    } else {
        let prev = mutating_lines(s.drop_last());
        if kind_of_verb(s.last()).mutating() {
            prev.push(s.last())
        } else {
            prev
        }
    }
}

/// Every string that the filter keeps is accepted by `command_is_mutate`.
pub proof fn lemma_mutating_lines_all_mutating(s: Seq<Seq<char>>)
    ensures
        forall|i: int|
            0 <= i < mutating_lines(s).len() ==> kind_of_verb(#[trigger] mutating_lines(s)[i]).mutating(),
    decreases s.len(),
{
    if s.len() > 0 {
        lemma_mutating_lines_all_mutating(s.drop_last());
    }
}

/// Filtering strings that `command_is_mutate` all accepts gives them back unchanged.
pub proof fn law_mutating_lines_keeps_mutating(s: Seq<Seq<char>>)
    requires
        forall|i: int| 0 <= i < s.len() ==> kind_of_verb(#[trigger] s[i]).mutating(),
    ensures
        mutating_lines(s) == s,
    decreases s.len(),
{
    if s.len() > 0 {
        let t = s.drop_last();
        assert forall|i: int| 0 <= i < t.len() implies kind_of_verb(#[trigger] t[i]).mutating() by {
            assert(t[i] == s[i]);
        }
        law_mutating_lines_keeps_mutating(t);
        assert(kind_of_verb(s.last()).mutating());
        assert(t.push(s.last()) =~= s);
    }
}

/// Filtering strings by `command_is_mutate` is idempotent.
pub proof fn law_mutating_lines_idempotent(s: Seq<Seq<char>>)
    ensures
        mutating_lines(mutating_lines(s)) == mutating_lines(s),
{
    lemma_mutating_lines_all_mutating(s);
    law_mutating_lines_keeps_mutating(mutating_lines(s));
}

/// The verb of the table that names `k`; empty for `Unrecognized`.
pub open spec fn verb_of(k: CommandKind) -> Seq<char> {
    match k {
        CommandKind::Add => "add"@,
        CommandKind::Apply => "apply"@,
        CommandKind::Bisect => "bisect"@,
        CommandKind::Branch => "branch"@,
        CommandKind::Checkout => "checkout"@,
        CommandKind::CherryPick => "cherry-pick"@,
        CommandKind::Clean => "clean"@,
        CommandKind::Clone => "clone"@,
        CommandKind::Commit => "commit"@,
        CommandKind::Fetch => "fetch"@,
        CommandKind::FilterBranch => "filter-branch"@,
        CommandKind::Fsck => "fsck"@,
        CommandKind::Gc => "gc"@,
        CommandKind::Init => "init"@,
        CommandKind::Merge => "merge"@,
        CommandKind::Mv => "mv"@,
        CommandKind::Pull => "pull"@,
        CommandKind::Push => "push"@,
        CommandKind::Rebase => "rebase"@,
        CommandKind::Remote => "remote"@,
        CommandKind::Reset => "reset"@,
        CommandKind::Restore => "restore"@,
        CommandKind::Rm => "rm"@,
        CommandKind::Stash => "stash"@,
        CommandKind::Submodule => "submodule"@,
        CommandKind::Switch => "switch"@,
        CommandKind::Tag => "tag"@,
        CommandKind::UpdateIndex => "update-index"@,
        CommandKind::UpdateRef => "update-ref"@,
        CommandKind::WriteTree => "write-tree"@,
        CommandKind::Unrecognized => Seq::empty(),
    }
}

/// Looking up the verb of a kind gives the kind back.
pub proof fn law_verb_round_trip(k: CommandKind)
    ensures
        kind_of_verb(verb_of(k)) == k,
{
    reveal_strlit("add");
    assert("add"@ =~= seq!['a', 'd', 'd']);
    reveal_strlit("apply");
    assert("apply"@ =~= seq!['a', 'p', 'p', 'l', 'y']);
    reveal_strlit("bisect");
    assert("bisect"@ =~= seq!['b', 'i', 's', 'e', 'c', 't']);
    reveal_strlit("branch");
    assert("branch"@ =~= seq!['b', 'r', 'a', 'n', 'c', 'h']);
    reveal_strlit("checkout");
    assert("checkout"@ =~= seq!['c', 'h', 'e', 'c', 'k', 'o', 'u', 't']);
    reveal_strlit("cherry-pick");
    assert("cherry-pick"@ =~= seq!['c', 'h', 'e', 'r', 'r', 'y', '-', 'p', 'i', 'c', 'k']);
    reveal_strlit("clean");
    assert("clean"@ =~= seq!['c', 'l', 'e', 'a', 'n']);
    reveal_strlit("clone");
    assert("clone"@ =~= seq!['c', 'l', 'o', 'n', 'e']);
    reveal_strlit("commit");
    assert("commit"@ =~= seq!['c', 'o', 'm', 'm', 'i', 't']);
    reveal_strlit("fetch");
    assert("fetch"@ =~= seq!['f', 'e', 't', 'c', 'h']);
    reveal_strlit("filter-branch");
    assert("filter-branch"@ =~= seq!['f', 'i', 'l', 't', 'e', 'r', '-', 'b', 'r', 'a', 'n', 'c', 'h']);
    reveal_strlit("fsck");
    assert("fsck"@ =~= seq!['f', 's', 'c', 'k']);
    reveal_strlit("gc");
    assert("gc"@ =~= seq!['g', 'c']);
    reveal_strlit("init");
    assert("init"@ =~= seq!['i', 'n', 'i', 't']);
    reveal_strlit("merge");
    assert("merge"@ =~= seq!['m', 'e', 'r', 'g', 'e']);
    reveal_strlit("mv");
    assert("mv"@ =~= seq!['m', 'v']);
    reveal_strlit("pull");
    assert("pull"@ =~= seq!['p', 'u', 'l', 'l']);
    reveal_strlit("push");
    assert("push"@ =~= seq!['p', 'u', 's', 'h']);
    reveal_strlit("rebase");
    assert("rebase"@ =~= seq!['r', 'e', 'b', 'a', 's', 'e']);
    reveal_strlit("remote");
    assert("remote"@ =~= seq!['r', 'e', 'm', 'o', 't', 'e']);
    reveal_strlit("reset");
    assert("reset"@ =~= seq!['r', 'e', 's', 'e', 't']);
    reveal_strlit("restore");
    assert("restore"@ =~= seq!['r', 'e', 's', 't', 'o', 'r', 'e']);
    reveal_strlit("rm");
    assert("rm"@ =~= seq!['r', 'm']);
    reveal_strlit("stash");
    assert("stash"@ =~= seq!['s', 't', 'a', 's', 'h']);
    reveal_strlit("submodule");
    assert("submodule"@ =~= seq!['s', 'u', 'b', 'm', 'o', 'd', 'u', 'l', 'e']);
    reveal_strlit("switch");
    assert("switch"@ =~= seq!['s', 'w', 'i', 't', 'c', 'h']);
    reveal_strlit("tag");
    assert("tag"@ =~= seq!['t', 'a', 'g']);
    reveal_strlit("update-index");
    assert("update-index"@ =~= seq!['u', 'p', 'd', 'a', 't', 'e', '-', 'i', 'n', 'd', 'e', 'x']);
    reveal_strlit("update-ref");
    assert("update-ref"@ =~= seq!['u', 'p', 'd', 'a', 't', 'e', '-', 'r', 'e', 'f']);
    reveal_strlit("write-tree");
    assert("write-tree"@ =~= seq!['w', 'r', 'i', 't', 'e', '-', 't', 'r', 'e', 'e']);
    match k {
        CommandKind::Add => assert(kind_of_verb("add"@) == CommandKind::Add),
        CommandKind::Apply => assert(kind_of_verb("apply"@) == CommandKind::Apply),
        CommandKind::Bisect => assert(kind_of_verb("bisect"@) == CommandKind::Bisect),
        CommandKind::Branch => assert(kind_of_verb("branch"@) == CommandKind::Branch),
        CommandKind::Checkout => assert(kind_of_verb("checkout"@) == CommandKind::Checkout),
        CommandKind::CherryPick => assert(kind_of_verb("cherry-pick"@) == CommandKind::CherryPick),
        CommandKind::Clean => assert(kind_of_verb("clean"@) == CommandKind::Clean),
        CommandKind::Clone => assert(kind_of_verb("clone"@) == CommandKind::Clone),
        CommandKind::Commit => assert(kind_of_verb("commit"@) == CommandKind::Commit),
        CommandKind::Fetch => assert(kind_of_verb("fetch"@) == CommandKind::Fetch),
        CommandKind::FilterBranch => assert(kind_of_verb("filter-branch"@) == CommandKind::FilterBranch),
        CommandKind::Fsck => assert(kind_of_verb("fsck"@) == CommandKind::Fsck),
        CommandKind::Gc => assert(kind_of_verb("gc"@) == CommandKind::Gc),
        CommandKind::Init => assert(kind_of_verb("init"@) == CommandKind::Init),
        CommandKind::Merge => assert(kind_of_verb("merge"@) == CommandKind::Merge),
        CommandKind::Mv => assert(kind_of_verb("mv"@) == CommandKind::Mv),
        CommandKind::Pull => assert(kind_of_verb("pull"@) == CommandKind::Pull),
        CommandKind::Push => assert(kind_of_verb("push"@) == CommandKind::Push),
        CommandKind::Rebase => assert(kind_of_verb("rebase"@) == CommandKind::Rebase),
        CommandKind::Remote => assert(kind_of_verb("remote"@) == CommandKind::Remote),
        CommandKind::Reset => assert(kind_of_verb("reset"@) == CommandKind::Reset),
        CommandKind::Restore => assert(kind_of_verb("restore"@) == CommandKind::Restore),
        CommandKind::Rm => assert(kind_of_verb("rm"@) == CommandKind::Rm),
        CommandKind::Stash => assert(kind_of_verb("stash"@) == CommandKind::Stash),
        CommandKind::Submodule => assert(kind_of_verb("submodule"@) == CommandKind::Submodule),
        CommandKind::Switch => assert(kind_of_verb("switch"@) == CommandKind::Switch),
        CommandKind::Tag => assert(kind_of_verb("tag"@) == CommandKind::Tag),
        CommandKind::UpdateIndex => assert(kind_of_verb("update-index"@) == CommandKind::UpdateIndex),
        CommandKind::UpdateRef => assert(kind_of_verb("update-ref"@) == CommandKind::UpdateRef),
        CommandKind::WriteTree => assert(kind_of_verb("write-tree"@) == CommandKind::WriteTree),
        CommandKind::Unrecognized => assert(kind_of_verb(Seq::empty()) is Unrecognized),
    }
}

} // verus!
