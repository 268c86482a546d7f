//! Mapping of a repository status bitfield to a single status code.
use vstd::prelude::*;

verus! {

/// Bits of a file's status as reported by libgit2 (`git_status_t`).
pub const INDEX_NEW: u32 = 1;
pub const INDEX_MODIFIED: u32 = 2;
pub const INDEX_DELETED: u32 = 4;
pub const INDEX_RENAMED: u32 = 8;
pub const INDEX_TYPECHANGE: u32 = 16;
pub const WT_NEW: u32 = 128;
pub const WT_MODIFIED: u32 = 256;
pub const WT_DELETED: u32 = 512;
pub const WT_TYPECHANGE: u32 = 1024;
pub const WT_RENAMED: u32 = 2048;
pub const WT_UNREADABLE: u32 = 4096;
pub const IGNORED: u32 = 16384;
pub const CONFLICTED: u32 = 32768;

/// The single status code reported for a file.
#[derive(Clone, Copy, Debug, PartialEq, Eq, Structural)]
pub enum FileGitStatus {
    Modified,
    Current,
    New,
    Ignored,
    Conflict,
    Deleted,
    Renamed,
}

/// The one-letter code of a status.
pub open spec fn status_letter(s: FileGitStatus) -> Seq<char> {
    match s {
        FileGitStatus::Modified => "M"@,
        FileGitStatus::Current => "C"@,
        FileGitStatus::New => "N"@,
        FileGitStatus::Ignored => "I"@,
        FileGitStatus::Conflict => "!"@,
        FileGitStatus::Deleted => "D"@,
        FileGitStatus::Renamed => "R"@,
    }
}

impl FileGitStatus {
    /// The one-letter code of this status.
    pub fn code(&self) -> (r: &'static str)
        ensures
            r@ == status_letter(*self),
    {
        match self {
            FileGitStatus::Modified => "M",
            FileGitStatus::Current => "C",
            FileGitStatus::New => "N",
            FileGitStatus::Ignored => "I",
            FileGitStatus::Conflict => "!",
            FileGitStatus::Deleted => "D",
            FileGitStatus::Renamed => "R",
        }
    }
}

/// Whether any bit of `mask` is set in `bits`.
pub open spec fn has_any(bits: u32, mask: u32) -> bool {
    bits & mask != 0
}

/// The status of a bitfield, by the fixed priority order: the first bit
/// that is set decides; type changes and an unchanged file report nothing.
pub open spec fn status_of_bits(bits: u32) -> Option<FileGitStatus> {
    if has_any(bits, WT_NEW) {
        Some(FileGitStatus::New)
    } else if has_any(bits, IGNORED) {
        Some(FileGitStatus::Ignored)
    } else if has_any(bits, CONFLICTED) {
        Some(FileGitStatus::Conflict)
    } else if has_any(bits, INDEX_NEW) {
        Some(FileGitStatus::New)
    } else if has_any(bits, WT_DELETED) {
        Some(FileGitStatus::Deleted)
    } else if has_any(bits, WT_RENAMED) {
        Some(FileGitStatus::Renamed)
    } else if has_any(bits, WT_MODIFIED) {
        Some(FileGitStatus::Modified)
    } else if has_any(bits, INDEX_MODIFIED) {
        Some(FileGitStatus::Modified)
    } else if has_any(bits, INDEX_DELETED) {
        Some(FileGitStatus::Deleted)
    } else {
        None
    }
}

/// One row of the resolution table: a bit mask and the outcome when any of
/// its bits is set.
pub struct StatusRule {
    pub mask: u32,
    pub outcome: Option<FileGitStatus>,
}

/// The resolution table as a sequence of (mask, outcome) pairs, highest
/// priority first.
pub open spec fn rule_table() -> Seq<(u32, Option<FileGitStatus>)> {
    seq![
        (WT_NEW, Some(FileGitStatus::New)),
        (IGNORED, Some(FileGitStatus::Ignored)),
        (CONFLICTED, Some(FileGitStatus::Conflict)),
        (INDEX_NEW, Some(FileGitStatus::New)),
        (WT_DELETED, Some(FileGitStatus::Deleted)),
        (WT_RENAMED, Some(FileGitStatus::Renamed)),
        (WT_MODIFIED, Some(FileGitStatus::Modified)),
        (INDEX_MODIFIED, Some(FileGitStatus::Modified)),
        (INDEX_DELETED, Some(FileGitStatus::Deleted)),
        (WT_TYPECHANGE | INDEX_TYPECHANGE, None),
    ]
}

/// The outcome of the first row from `start` on whose mask meets `bits`;
/// nothing when no row does.
pub open spec fn first_match(rules: Seq<(u32, Option<FileGitStatus>)>, bits: u32, start: int) -> Option<FileGitStatus>
    decreases rules.len() - start,
{
    if start < 0 || start >= rules.len() {
        None
    } else if has_any(bits, rules[start].0) {
        rules[start].1
    } else {
        first_match(rules, bits, start + 1)
    }
}

/// The table as executable rows.
pub fn status_rules() -> (r: Vec<StatusRule>)
    ensures
        r@.len() == rule_table().len(),
        forall|i: int| 0 <= i < r@.len() ==> (#[trigger] r@[i]).mask == rule_table()[i].0
            && r@[i].outcome == rule_table()[i].1,
{
    let r = vec![
        StatusRule { mask: WT_NEW, outcome: Some(FileGitStatus::New) },
        StatusRule { mask: IGNORED, outcome: Some(FileGitStatus::Ignored) },
        StatusRule { mask: CONFLICTED, outcome: Some(FileGitStatus::Conflict) },
        StatusRule { mask: INDEX_NEW, outcome: Some(FileGitStatus::New) },
        StatusRule { mask: WT_DELETED, outcome: Some(FileGitStatus::Deleted) },
        StatusRule { mask: WT_RENAMED, outcome: Some(FileGitStatus::Renamed) },
        StatusRule { mask: WT_MODIFIED, outcome: Some(FileGitStatus::Modified) },
        StatusRule { mask: INDEX_MODIFIED, outcome: Some(FileGitStatus::Modified) },
        StatusRule { mask: INDEX_DELETED, outcome: Some(FileGitStatus::Deleted) },
        StatusRule { mask: WT_TYPECHANGE | INDEX_TYPECHANGE, outcome: None },
    ];
    r
}

/// The table read top to bottom gives the priority order.
pub proof fn lemma_table_is_priority_order(bits: u32)
    ensures
        first_match(rule_table(), bits, 0) == status_of_bits(bits),
{
    reveal_with_fuel(first_match, 11);
}

/// Maps a status bitfield to its status code by evaluating the resolution
/// table top to bottom, the first matching row winning.
pub fn status_from_bits(bits: u32) -> (r: Option<FileGitStatus>)
    ensures
        r == status_of_bits(bits),
{
    let rules = status_rules();
    let mut i: usize = 0;
    while i < rules.len()
        invariant
            0 <= i <= rules@.len(),
            rules@.len() == rule_table().len(),
            forall|j: int| 0 <= j < rules@.len() ==> (#[trigger] rules@[j]).mask == rule_table()[j].0
                && rules@[j].outcome == rule_table()[j].1,
            first_match(rule_table(), bits, i as int) == first_match(rule_table(), bits, 0),
        decreases rules@.len() - i,
    {
        if bits & rules[i].mask != 0 {
            proof {
                lemma_table_is_priority_order(bits);
            }
            return rules[i].outcome;
        }
        i = i + 1;
    }
    proof {
        lemma_table_is_priority_order(bits);
    }
    None
}

/// The mapping is a function of the bitfield alone: the same bits always
/// give the same status, and exactly one outcome (a code or none).
pub proof fn lemma_status_deterministic(a: u32, b: u32)
    requires
        a == b,
    ensures
        status_of_bits(a) == status_of_bits(b),
        status_of_bits(a) == first_match(rule_table(), b, 0),
{
    lemma_table_is_priority_order(b);
}

/// What a status lookup came back with. A missing repository and a failed
/// discovery or query are absorbed: they report no status and are never an
/// error of the run.
#[derive(Clone, Copy, Debug, PartialEq, Eq, Structural)]
pub enum StatusLookup {
    NoRepository,
    Failed,
    Bits(u32),
}

/// The status reported for a lookup's outcome.
pub open spec fn status_of_lookup(l: StatusLookup) -> Option<FileGitStatus> {
    match l {
        StatusLookup::Bits(bits) => status_of_bits(bits),
        _ => None,
    }
}

/// Resolves a lookup's outcome to the status that a record carries.
pub fn resolve_status(l: StatusLookup) -> (r: Option<FileGitStatus>)
    ensures
        r == status_of_lookup(l),
{
    match l {
        StatusLookup::Bits(bits) => status_from_bits(bits),
        StatusLookup::NoRepository => None,
        StatusLookup::Failed => None,
    }
}

} // verus!
