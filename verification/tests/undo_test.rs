use ripsed::undo::{UndoEntry, UndoLog, UndoRecord};

fn record(i: usize) -> UndoRecord {
    UndoRecord {
        timestamp: format!("2026-01-0{i}T00:00:00Z"),
        file_path: format!("file{i}.txt"),
        entry: UndoEntry { original_text: format!("content{i}") },
    }
}

#[test]
fn test_push_and_pop() {
    let mut log = UndoLog::new(100);
    log.push(UndoRecord {
        timestamp: "2026-01-01T00:00:00Z".to_string(),
        file_path: "test.txt".to_string(),
        entry: UndoEntry { original_text: "hello".to_string() },
    });
    assert_eq!(log.len(), 1);
    let popped = log.pop(1);
    assert_eq!(popped.len(), 1);
    assert_eq!(popped[0].file_path, "test.txt");
    assert!(log.is_empty());
}

#[test]
fn test_pruning() {
    let mut log = UndoLog::new(2);
    for i in 0..5 {
        log.push(record(i));
    }
    assert_eq!(log.len(), 2);
}

#[test]
fn pruning_keeps_most_recent() {
    let mut log = UndoLog::new(2);
    for i in 0..5 {
        log.push(record(i));
    }
    let kept: Vec<&str> = log.records().iter().map(|r| r.file_path.as_str()).collect();
    assert_eq!(kept, vec!["file3.txt", "file4.txt"]);
}

#[test]
fn pop_returns_most_recent_first() {
    let mut log = UndoLog::new(10);
    for i in 0..4 {
        log.push(record(i));
    }
    let popped = log.pop(2);
    let names: Vec<&str> = popped.iter().map(|r| r.file_path.as_str()).collect();
    assert_eq!(names, vec!["file3.txt", "file2.txt"]);
    assert_eq!(log.len(), 2);
}

#[test]
fn pop_more_than_present_takes_all() {
    let mut log = UndoLog::new(10);
    log.push(record(1));
    log.push(record(2));
    let popped = log.pop(5);
    assert_eq!(popped.len(), 2);
    assert_eq!(popped[0].file_path, "file2.txt");
    assert!(log.is_empty());
}

#[test]
fn recent_returns_last_entries_oldest_first() {
    let mut log = UndoLog::new(10);
    for i in 0..4 {
        log.push(record(i));
    }
    let recent = log.recent(3);
    let names: Vec<&str> = recent.iter().map(|r| r.file_path.as_str()).collect();
    assert_eq!(names, vec!["file1.txt", "file2.txt", "file3.txt"]);
    assert_eq!(log.recent(20).len(), 4);
}

#[test]
fn from_records_is_not_pruned_until_push() {
    let log = UndoLog::from_records(vec![record(1), record(2), record(3)], 1);
    assert_eq!(log.len(), 3);
    let mut log = log;
    log.push(record(4));
    assert_eq!(log.len(), 1);
    assert_eq!(log.records()[0].file_path, "file4.txt");
}
