//! Directory entries: what is read of them, the records made from them, and
//! the failures that stop a listing.
use vstd::prelude::*;
use crate::status::{FileGitStatus, StatusLookup, status_of_lookup, resolve_status};
use crate::timestamp::{Timestamp, rfc3339_text};

verus! {

/// The kind of a directory entry.
#[derive(Clone, Copy, Debug, PartialEq, Eq, Structural)]
pub enum EntryType {
    File,
    Dir,
    Symlink,
}

/// What was read of one entry's metadata. A time that could not be read
/// holds the cause as text.
#[derive(Debug)]
pub struct EntryFacts {
    pub is_dir: bool,
    pub is_file: bool,
    pub is_symlink: bool,
    pub len: u64,
    pub accessed: Result<Timestamp, String>,
    pub modified: Result<Timestamp, String>,
}

/// One listed entry. Field order is the order of the encodings.
#[derive(Clone, Debug, PartialEq, Eq)]
pub struct EntryInfo {
    pub name: String,
    pub file_type: EntryType,
    pub size: u64,
    pub modified: String,
    pub file_git_status: Option<FileGitStatus>,
    pub accessed: String,
}

/// A failure that stops a listing. Each names the path concerned and, where
/// one is known, the cause.
#[derive(Clone, Debug, PartialEq, Eq)]
pub enum ListingError {
    DirContentsRead(String, String),
    FileTypeRetrieve(String),
    MetadataRetrieve(String, String),
    AccessTimeRetrieve(String, String),
    ModifiedTimeRetrieve(String, String),
    TimeOutOfRange(String),
    PathCanonicalize(String, String),
    TaskAborted(String, String),
}

/// A path and its cause, after a fixed lead.
pub open spec fn with_cause(lead: Seq<char>, path: Seq<char>, cause: Seq<char>) -> Seq<char> {
    lead + path + ": "@ + cause
}

/// The one-line diagnostic of a failure: what failed, the path, the cause.
pub open spec fn error_message(e: ListingError) -> Seq<char> {
    match e {
        ListingError::DirContentsRead(p, c) => with_cause(
            "Failed to read directory contents "@,
            p@,
            c@,
        ),
        ListingError::FileTypeRetrieve(p) => "Failed to retrieve file type for "@ + p@,
        ListingError::MetadataRetrieve(p, c) => with_cause(
            "Failed to retrieve file metadata for "@,
            p@,
            c@,
        ),
        ListingError::AccessTimeRetrieve(p, c) => with_cause(
            "Failed to retrieve file last access time for "@,
            p@,
            c@,
        ),
        ListingError::ModifiedTimeRetrieve(p, c) => with_cause(
            "Failed to retrieve file last modification time for "@,
            p@,
            c@,
        ),
        ListingError::TimeOutOfRange(p) => "File time out of calendar range for "@ + p@,
        ListingError::PathCanonicalize(p, c) => with_cause("Failed to canonicalize path "@, p@, c@),
        ListingError::TaskAborted(p, c) => with_cause("Failed to process "@, p@, c@),
    }
}

fn with_cause_string(lead: &str, path: &String, cause: &String) -> (r: String)
    ensures
        r@ == with_cause(lead@, path@, cause@),
{
    let mut s = String::from_str(lead);
    s.append(path.as_str());
    s.append(": ");
    s.append(cause.as_str());
    s
}

impl ListingError {
    /// The one-line diagnostic of this failure.
    pub fn message(&self) -> (r: String)
        ensures
            r@ == error_message(*self),
    {
        match self {
            ListingError::DirContentsRead(p, c) => with_cause_string(
                "Failed to read directory contents ",
                p,
                c,
            ),
            ListingError::FileTypeRetrieve(p) => {
                let mut s = String::from_str("Failed to retrieve file type for ");
                s.append(p.as_str());
                s
            },
            ListingError::MetadataRetrieve(p, c) => with_cause_string(
                "Failed to retrieve file metadata for ",
                p,
                c,
            ),
            ListingError::AccessTimeRetrieve(p, c) => with_cause_string(
                "Failed to retrieve file last access time for ",
                p,
                c,
            ),
            ListingError::ModifiedTimeRetrieve(p, c) => with_cause_string(
                "Failed to retrieve file last modification time for ",
                p,
                c,
            ),
            ListingError::TimeOutOfRange(p) => {
                let mut s = String::from_str("File time out of calendar range for ");
                s.append(p.as_str());
                s
            },
            ListingError::PathCanonicalize(p, c) => with_cause_string(
                "Failed to canonicalize path ",
                p,
                c,
            ),
            ListingError::TaskAborted(p, c) => with_cause_string("Failed to process ", p, c),
        }
    }
}

/// The kind of an entry: a directory first, then a file, then a link.
pub open spec fn entry_type_of(f: EntryFacts) -> Option<EntryType> {
    if f.is_dir {
        Some(EntryType::Dir)
    } else if f.is_file {
        Some(EntryType::File)
    } else if f.is_symlink {
        Some(EntryType::Symlink)
    } else {
        None
    }
}

/// The name shown for a path: the path without a leading `./`.
pub open spec fn display_name(p: Seq<char>) -> Seq<char> {
    if p.len() >= 2 && p[0] == '.' && p[1] == '/' {
        p.subrange(2, p.len() as int)
    } else {
        p
    }
}

/// Both times of an entry were read.
pub open spec fn times_read(f: EntryFacts) -> bool {
    f.accessed is Ok && f.modified is Ok
}

/// Both times of an entry were read and have calendar dates.
pub open spec fn times_representable(f: EntryFacts) -> bool {
    &&& f.accessed matches Ok(a) && a.representable()
    &&& f.modified matches Ok(m) && m.representable()
}

/// The size recorded for an entry: its length for a file, zero otherwise.
pub open spec fn recorded_size(t: EntryType, len: u64) -> u64 {
    if t == EntryType::File {
        len
    } else {
        0
    }
}

impl EntryInfo {
    /// A record as the listing makes it: no size but for files, and no
    /// status for directories.
    pub open spec fn wf(&self) -> bool {
        &&& self.file_type != EntryType::File ==> self.size == 0
        &&& self.file_type == EntryType::Dir ==> self.file_git_status.is_none()
    }
}

/// Classifies an entry from its metadata.
pub fn classify(f: &EntryFacts) -> (r: Option<EntryType>)
    ensures
        r == entry_type_of(*f),
{
    if f.is_dir {
        Some(EntryType::Dir)
    } else if f.is_file {
        Some(EntryType::File)
    } else if f.is_symlink {
        Some(EntryType::Symlink)
    } else {
        None
    }
}

/// The name shown for a path.
pub fn entry_name(path: &str) -> (r: String)
    ensures
        r@ == display_name(path@),
{
    let n = path.unicode_len();
    if n >= 2 && path.get_char(0) == '.' && path.get_char(1) == '/' {
        String::from_str(path.substring_char(2, n))
    } else {
        String::from_str(path)
    }
}

/// The RFC 3339 text of a file time that was read; the failure when it has
/// no calendar date.
fn time_text(path: &str, ts: &Timestamp) -> (r: Result<String, ListingError>)
    ensures
        ts.representable() ==> r.is_ok(),
        r matches Ok(s) ==> s@ == rfc3339_text(ts.secs, ts.nanos),
        r matches Err(e) ==> (e matches ListingError::TimeOutOfRange(p) && p@ == path@ && !ts.representable()),
{
    match ts.to_rfc3339() {
        Some(s) => Ok(s),
        None => Err(ListingError::TimeOutOfRange(String::from_str(path))),
    }
}

/// Builds the record of the entry at `path` from its metadata, before any
/// status lookup. Fails, in this order, when no kind can be established,
/// when the access time and then the modification time cannot be read, and
/// when a time that was read has no calendar date.
pub fn describe_entry(path: &str, facts: &EntryFacts) -> (r: Result<EntryInfo, ListingError>)
    ensures
        entry_type_of(*facts) is None ==> (r matches Err(ListingError::FileTypeRetrieve(p)) && p@ == path@),
        entry_type_of(*facts) is Some ==> (facts.accessed matches Err(c) ==> (r matches Err(
            ListingError::AccessTimeRetrieve(p, c2),
        ) && p@ == path@ && c2@ == c@)),
        entry_type_of(*facts) is Some && facts.accessed is Ok ==> (facts.modified matches Err(c) ==> (
        r matches Err(ListingError::ModifiedTimeRetrieve(p, c2)) && p@ == path@ && c2@ == c@)),
        entry_type_of(*facts) is Some ==> (facts.accessed matches Ok(a) ==> (facts.modified matches Ok(m)
            ==> (a.representable() && m.representable() ==> r.is_ok()))),
        r matches Err(e) ==> (e is FileTypeRetrieve || e is AccessTimeRetrieve
            || e is ModifiedTimeRetrieve || e is TimeOutOfRange),
        r matches Err(ListingError::TimeOutOfRange(p)) ==> p@ == path@ && times_read(*facts)
            && !times_representable(*facts),
        r matches Ok(rec) ==> {
            &&& entry_type_of(*facts) == Some(rec.file_type)
            &&& rec.name@ == display_name(path@)
            &&& rec.size == recorded_size(rec.file_type, facts.len)
            &&& facts.accessed matches Ok(a) && rec.accessed@ == rfc3339_text(a.secs, a.nanos)
            &&& facts.modified matches Ok(m) && rec.modified@ == rfc3339_text(m.secs, m.nanos)
            &&& rec.file_git_status.is_none()
            &&& rec.wf()
        },
{
    let file_type = match classify(facts) {
        Some(t) => t,
        None => {
            return Err(ListingError::FileTypeRetrieve(String::from_str(path)));
        },
    };
    let (a, m) = match (&facts.accessed, &facts.modified) {
        (Err(cause), _) => {
            return Err(ListingError::AccessTimeRetrieve(String::from_str(path), cause.clone()));
        },
        (Ok(_), Err(cause)) => {
            return Err(ListingError::ModifiedTimeRetrieve(String::from_str(path), cause.clone()));
        },
        (Ok(a), Ok(m)) => (a, m),
    };
    let accessed = match time_text(path, a) {
        Ok(s) => s,
        Err(e) => {
            return Err(e);
        },
    };
    let modified = match time_text(path, m) {
        Ok(s) => s,
        Err(e) => {
            return Err(e);
        },
    };
    let size = match file_type {
        EntryType::File => facts.len,
        _ => 0,
    };
    Ok(EntryInfo {
        name: entry_name(path),
        file_type,
        size,
        modified,
        file_git_status: None,
        accessed,
    })
}

impl EntryInfo {
    /// Whether the entry's status is looked up: every kind but directories.
    pub fn needs_status(&self) -> (r: bool)
        ensures
            r == (self.file_type != EntryType::Dir),
    {
        match self.file_type {
            EntryType::Dir => false,
            _ => true,
        }
    }

    /// Records the outcome of the entry's status lookup. A directory keeps
    /// no status; a failed or empty lookup leaves none.
    pub fn set_status(&mut self, lookup: StatusLookup)
        ensures
            final(self).name == old(self).name,
            final(self).file_type == old(self).file_type,
            final(self).size == old(self).size,
            final(self).modified == old(self).modified,
            final(self).accessed == old(self).accessed,
            final(self).file_git_status == (if old(self).file_type == EntryType::Dir {
                None
            } else {
                status_of_lookup(lookup)
            }),
            old(self).wf() ==> final(self).wf(),
    {
        if self.needs_status() {
            self.file_git_status = resolve_status(lookup);
        } else {
            self.file_git_status = None;
        }
    }
}

} // verus!
