use lsx::encode::{decimal_string, needs_quotes, serialize_entry_info, OutputEncoding};
use lsx::entry::{EntryInfo, EntryType, ListingError};
use lsx::run::ListingRun;
use lsx::schedule::{OrderedScheduler, SchedulerAction};
use lsx::status::FileGitStatus;
use lsx::stream::RecordStream;

fn record(name: &str, file_type: EntryType, size: u64, git: Option<FileGitStatus>) -> EntryInfo {
    EntryInfo {
        name: name.to_string(),
        file_type,
        size,
        modified: "2015-05-15T00:00:00+00:00".to_string(),
        file_git_status: git,
        accessed: "1970-01-01T00:00:00+00:00".to_string(),
    }
}

const JSON_A: &str = "{\"name\":\"a.txt\",\"type\":\"file\",\"size\":42,\"modified\":\"2015-05-15T00:00:00+00:00\",\"git\":\"M\",\"accessed\":\"1970-01-01T00:00:00+00:00\"}";
const JSON_D: &str = "{\"name\":\"d\",\"type\":\"dir\",\"size\":0,\"modified\":\"2015-05-15T00:00:00+00:00\",\"git\":null,\"accessed\":\"1970-01-01T00:00:00+00:00\"}";

#[test]
fn decimal_text() {
    assert_eq!(decimal_string(0), "0");
    assert_eq!(decimal_string(7), "7");
    assert_eq!(decimal_string(10), "10");
    assert_eq!(decimal_string(4096), "4096");
    assert_eq!(decimal_string(u64::MAX), "18446744073709551615");
}

#[test]
fn json_object_fields_in_order() {
    let a = record("a.txt", EntryType::File, 42, Some(FileGitStatus::Modified));
    assert_eq!(serialize_entry_info(&a, OutputEncoding::Json), JSON_A);
    assert_eq!(serialize_entry_info(&a, OutputEncoding::Jsonl), JSON_A);
    let d = record("d", EntryType::Dir, 0, None);
    assert_eq!(serialize_entry_info(&d, OutputEncoding::Json), JSON_D);
}

#[test]
fn json_escapes_names() {
    let q = record("say \"hi\"\\\n", EntryType::Symlink, 0, None);
    let text = serialize_entry_info(&q, OutputEncoding::Json);
    assert!(text.starts_with("{\"name\":\"say \\\"hi\\\"\\\\\\n\",\"type\":\"symlink\""));
    let v: serde_json::Value = serde_json::from_str(&text).unwrap();
    assert_eq!(v["name"].as_str().unwrap(), "say \"hi\"\\\n");
    assert!(v["git"].is_null());
}

#[test]
fn json_escapes_control_characters() {
    let q = record("a\u{1}\u{1f}\t\r\u{8}\u{c}\u{7f}é", EntryType::File, 0, None);
    let text = serialize_entry_info(&q, OutputEncoding::Jsonl);
    assert!(text.starts_with("{\"name\":\"a\\u0001\\u001f\\t\\r\\b\\f\u{7f}é\","));
    assert!(!text.contains('\n'));
    let v: serde_json::Value = serde_json::from_str(&text).unwrap();
    assert_eq!(v["name"].as_str().unwrap(), q.name);
}

#[test]
fn jsonl_record_is_one_line() {
    let q = record("two\nlines", EntryType::File, 3, Some(FileGitStatus::New));
    let doc = write_all(OutputEncoding::Jsonl, vec![q.clone(), q]);
    assert_eq!(doc.lines().count(), 2);
    assert!(doc.ends_with('\n'));
}

#[test]
fn same_record_same_text() {
    let a = record("a.txt", EntryType::File, 42, Some(FileGitStatus::Modified));
    assert_eq!(serialize_entry_info(&a, OutputEncoding::Json), serialize_entry_info(&a, OutputEncoding::Json));
    assert_eq!(serialize_entry_info(&a, OutputEncoding::Json), serialize_entry_info(&a, OutputEncoding::Jsonl));
}

#[test]
fn table_rows() {
    let a = record("a.txt", EntryType::File, 42, Some(FileGitStatus::Conflict));
    assert_eq!(
        serialize_entry_info(&a, OutputEncoding::Nuon),
        "[a.txt, File, 42, 2015-05-15T00:00:00+00:00, !, 1970-01-01T00:00:00+00:00]"
    );
    let d = record("d", EntryType::Dir, 0, None);
    assert_eq!(
        serialize_entry_info(&d, OutputEncoding::Nuon),
        "[d, Dir, 0, 2015-05-15T00:00:00+00:00, \"\", 1970-01-01T00:00:00+00:00]"
    );
}

#[test]
fn table_quotes_names_that_need_it() {
    for (name, cell) in [
        ("my file.txt", "\"my file.txt\""),
        ("a, b", "\"a, b\""),
        ("x]", "\"x]\""),
        ("[x", "\"[x\""),
        ("say \"hi\"", "\"say \\\"hi\\\"\""),
        ("back\\slash", "\"back\\\\slash\""),
        ("tab\there", "\"tab\\there\""),
        ("", "\"\""),
        ("plain-name_1.é", "plain-name_1.é"),
    ] {
        let r = record(name, EntryType::File, 5, None);
        let row = serialize_entry_info(&r, OutputEncoding::Nuon);
        assert_eq!(
            row,
            format!("[{}, File, 5, 2015-05-15T00:00:00+00:00, \"\", 1970-01-01T00:00:00+00:00]", cell)
        );
    }
    assert!(needs_quotes("a b"));
    assert!(!needs_quotes("a.txt"));
}

fn write_all(enc: OutputEncoding, recs: Vec<EntryInfo>) -> String {
    let (mut s, mut out) = RecordStream::open(enc);
    for r in recs {
        out.push_str(&s.accept(Ok(r)).unwrap());
    }
    out.push_str(&s.close());
    out
}

#[test]
fn empty_directory_documents() {
    assert_eq!(write_all(OutputEncoding::Json, vec![]), "[]");
    assert_eq!(write_all(OutputEncoding::Jsonl, vec![]), "");
    assert_eq!(
        write_all(OutputEncoding::Nuon, vec![]),
        "[[name, type, size, modified, git, accessed]; ]"
    );
}

#[test]
fn documents_of_two_records() {
    let a = record("a.txt", EntryType::File, 42, Some(FileGitStatus::Modified));
    let d = record("d", EntryType::Dir, 0, None);
    assert_eq!(
        write_all(OutputEncoding::Json, vec![a.clone(), d.clone()]),
        format!("[{},{}]", JSON_A, JSON_D)
    );
    assert_eq!(
        write_all(OutputEncoding::Jsonl, vec![a.clone(), d.clone()]),
        format!("{}\n{}\n", JSON_A, JSON_D)
    );
    assert_eq!(
        write_all(OutputEncoding::Nuon, vec![a, d]),
        "[[name, type, size, modified, git, accessed]; [a.txt, File, 42, 2015-05-15T00:00:00+00:00, M, 1970-01-01T00:00:00+00:00], [d, Dir, 0, 2015-05-15T00:00:00+00:00, \"\", 1970-01-01T00:00:00+00:00]]"
    );
    let v: serde_json::Value = serde_json::from_str(&write_all(
        OutputEncoding::Json,
        vec![record("x", EntryType::File, 1, None)],
    ))
    .unwrap();
    assert_eq!(v.as_array().unwrap().len(), 1);
}

/// Drives a run as the program does, the tasks finishing in reverse order of
/// submission; returns the document, the failure if any, and the order in
/// which entries were started and handed over.
fn drive(
    enc: OutputEncoding,
    limit: usize,
    results: Vec<Result<EntryInfo, ListingError>>,
) -> (String, Option<ListingError>, Vec<usize>, Vec<usize>) {
    let (mut run, mut out) = ListingRun::start(results.len(), limit, enc);
    let mut in_flight: std::collections::VecDeque<usize> = std::collections::VecDeque::new();
    let mut started = Vec::new();
    let mut handed = Vec::new();
    let mut failure = None;
    loop {
        match run.next_action() {
            SchedulerAction::Submit(i) => {
                assert!(in_flight.len() < limit.max(1));
                in_flight.push_back(i);
                started.push(i);
                run.submitted();
            }
            SchedulerAction::AwaitOldest(i) => {
                assert_eq!(in_flight.pop_front(), Some(i));
                handed.push(i);
                match run.deliver(results[i].clone()) {
                    Ok(t) => out.push_str(&t),
                    Err(e) => failure = Some(e),
                }
            }
            SchedulerAction::Finish => {
                out.push_str(&run.finish());
                break;
            }
        }
    }
    assert_eq!(run.failed(), failure.is_some());
    (out, failure, started, handed)
}

#[test]
fn run_lists_every_entry_in_scan_order() {
    let names = ["e0", "e1", "e2", "e3", "e4"];
    let results: Vec<_> =
        names.iter().map(|n| Ok(record(n, EntryType::File, 1, None))).collect();
    let (out, failure, started, handed) = drive(OutputEncoding::Jsonl, 2, results);
    assert!(failure.is_none());
    assert_eq!(started, vec![0, 1, 2, 3, 4]);
    assert_eq!(handed, vec![0, 1, 2, 3, 4]);
    let lines: Vec<&str> = out.lines().collect();
    assert_eq!(lines.len(), 5);
    for (i, line) in lines.iter().enumerate() {
        let v: serde_json::Value = serde_json::from_str(line).unwrap();
        assert_eq!(v["name"].as_str().unwrap(), names[i]);
    }
}

#[test]
fn empty_run_is_empty_array() {
    let (out, failure, started, handed) = drive(OutputEncoding::Json, 4, vec![]);
    assert_eq!(out, "[]");
    assert!(failure.is_none());
    assert!(started.is_empty() && handed.is_empty());
}

#[test]
fn failing_entry_stops_after_earlier_records() {
    let err = ListingError::MetadataRetrieve("./b".to_string(), "permission denied".to_string());
    let results = vec![
        Ok(record("a.txt", EntryType::File, 42, Some(FileGitStatus::Modified))),
        Err(err.clone()),
        Ok(record("c", EntryType::File, 1, None)),
        Ok(record("d", EntryType::Dir, 0, None)),
    ];
    let (out, failure, started, handed) = drive(OutputEncoding::Json, 2, results);
    assert_eq!(failure, Some(err));
    assert_eq!(out, format!("[{}]", JSON_A));
    assert_eq!(handed, vec![0, 1]);
    assert!(!started.contains(&3));
    let v: serde_json::Value = serde_json::from_str(&out).unwrap();
    assert_eq!(v.as_array().unwrap().len(), 1);
}

#[test]
fn scheduler_keeps_limit_and_order() {
    let mut s = OrderedScheduler::new(3, 0);
    assert_eq!(s.next_action(), SchedulerAction::Submit(0));
    s.on_submitted();
    assert_eq!(s.next_action(), SchedulerAction::AwaitOldest(0));
    s.on_completed(true);
    assert_eq!(s.next_action(), SchedulerAction::Submit(1));
    s.on_submitted();
    assert_eq!(s.next_action(), SchedulerAction::AwaitOldest(1));
    s.on_completed(false);
    assert!(s.is_failed());
    assert_eq!(s.next_action(), SchedulerAction::Finish);
}
