use lsx::status::{
    resolve_status, status_from_bits, FileGitStatus, StatusLookup, CONFLICTED, IGNORED,
    INDEX_DELETED, INDEX_MODIFIED, INDEX_NEW, INDEX_RENAMED, INDEX_TYPECHANGE, WT_DELETED,
    WT_MODIFIED, WT_NEW, WT_RENAMED, WT_TYPECHANGE, WT_UNREADABLE,
};

#[test]
fn bits_agree_with_git2() {
    assert_eq!(INDEX_NEW, git2::Status::INDEX_NEW.bits());
    assert_eq!(INDEX_MODIFIED, git2::Status::INDEX_MODIFIED.bits());
    assert_eq!(INDEX_DELETED, git2::Status::INDEX_DELETED.bits());
    assert_eq!(INDEX_RENAMED, git2::Status::INDEX_RENAMED.bits());
    assert_eq!(INDEX_TYPECHANGE, git2::Status::INDEX_TYPECHANGE.bits());
    assert_eq!(WT_NEW, git2::Status::WT_NEW.bits());
    assert_eq!(WT_MODIFIED, git2::Status::WT_MODIFIED.bits());
    assert_eq!(WT_DELETED, git2::Status::WT_DELETED.bits());
    assert_eq!(WT_TYPECHANGE, git2::Status::WT_TYPECHANGE.bits());
    assert_eq!(WT_RENAMED, git2::Status::WT_RENAMED.bits());
    assert_eq!(WT_UNREADABLE, git2::Status::WT_UNREADABLE.bits());
    assert_eq!(IGNORED, git2::Status::IGNORED.bits());
    assert_eq!(CONFLICTED, git2::Status::CONFLICTED.bits());
}

#[test]
fn uncommitted_edit_is_modified() {
    let s = status_from_bits(WT_MODIFIED);
    assert_eq!(s, Some(FileGitStatus::Modified));
    assert_eq!(s.unwrap().code(), "M");
}

#[test]
fn untracked_file_is_new() {
    let s = status_from_bits(WT_NEW);
    assert_eq!(s, Some(FileGitStatus::New));
    assert_eq!(s.unwrap().code(), "N");
}

#[test]
fn merge_conflict_is_conflict() {
    let s = status_from_bits(CONFLICTED);
    assert_eq!(s, Some(FileGitStatus::Conflict));
    assert_eq!(s.unwrap().code(), "!");
}

#[test]
fn current_reports_nothing() {
    assert_eq!(status_from_bits(0), None);
    assert_eq!(status_from_bits(git2::Status::CURRENT.bits()), None);
}

#[test]
fn typechange_reports_nothing() {
    assert_eq!(status_from_bits(WT_TYPECHANGE), None);
    assert_eq!(status_from_bits(INDEX_TYPECHANGE), None);
    assert_eq!(status_from_bits(INDEX_RENAMED), None);
    assert_eq!(status_from_bits(WT_UNREADABLE), None);
}

#[test]
fn priority_order_first_match_wins() {
    assert_eq!(status_from_bits(WT_NEW | IGNORED | CONFLICTED), Some(FileGitStatus::New));
    assert_eq!(status_from_bits(IGNORED | CONFLICTED), Some(FileGitStatus::Ignored));
    assert_eq!(status_from_bits(CONFLICTED | INDEX_NEW), Some(FileGitStatus::Conflict));
    assert_eq!(status_from_bits(INDEX_NEW | WT_DELETED), Some(FileGitStatus::New));
    assert_eq!(status_from_bits(WT_DELETED | WT_RENAMED), Some(FileGitStatus::Deleted));
    assert_eq!(status_from_bits(WT_RENAMED | WT_MODIFIED), Some(FileGitStatus::Renamed));
    assert_eq!(status_from_bits(WT_MODIFIED | INDEX_DELETED), Some(FileGitStatus::Modified));
    assert_eq!(status_from_bits(INDEX_MODIFIED | INDEX_DELETED), Some(FileGitStatus::Modified));
    assert_eq!(status_from_bits(INDEX_DELETED | WT_TYPECHANGE), Some(FileGitStatus::Deleted));
    assert_eq!(status_from_bits(WT_TYPECHANGE | INDEX_TYPECHANGE), None);
}

#[test]
fn same_bits_same_status() {
    for bits in 0u32..65536 {
        assert_eq!(status_from_bits(bits), status_from_bits(bits));
    }
}

#[test]
fn absorbed_lookup_failures_report_nothing() {
    assert_eq!(resolve_status(StatusLookup::NoRepository), None);
    assert_eq!(resolve_status(StatusLookup::Failed), None);
    assert_eq!(resolve_status(StatusLookup::Bits(WT_NEW)), Some(FileGitStatus::New));
}

#[test]
fn status_letters() {
    assert_eq!(FileGitStatus::Modified.code(), "M");
    assert_eq!(FileGitStatus::Current.code(), "C");
    assert_eq!(FileGitStatus::New.code(), "N");
    assert_eq!(FileGitStatus::Ignored.code(), "I");
    assert_eq!(FileGitStatus::Conflict.code(), "!");
    assert_eq!(FileGitStatus::Deleted.code(), "D");
    assert_eq!(FileGitStatus::Renamed.code(), "R");
}
