use ripsed::lock::lock_path_for;
use ripsed::writer::{backup_candidate, backup_path_for};

#[test]
fn lock_path_for_file_with_extension() {
    assert_eq!(lock_path_for("/tmp/data.txt"), "/tmp/data.txt.ripsed.lock");
}

#[test]
fn lock_path_for_file_without_extension() {
    assert_eq!(lock_path_for("/tmp/Makefile"), "/tmp/Makefile.ripsed.lock");
}

#[test]
fn lock_path_for_file_with_multiple_extensions() {
    assert_eq!(lock_path_for("/tmp/archive.tar.gz"), "/tmp/archive.tar.gz.ripsed.lock");
}

#[test]
fn lock_path_for_dotfile() {
    assert_eq!(lock_path_for("/tmp/.gitignore"), "/tmp/.gitignore.ripsed.lock");
}

#[test]
fn backup_path_names() {
    assert_eq!(backup_path_for("/d/data.txt"), "/d/data.txt.ripsed.bak");
    assert_eq!(backup_path_for("/d/Makefile"), "/d/Makefile.ripsed.bak");
}

#[test]
fn backup_candidates_are_numbered() {
    assert_eq!(backup_candidate("/d/data.txt.ripsed.bak", 0), "/d/data.txt.ripsed.bak");
    assert_eq!(backup_candidate("/d/data.txt.ripsed.bak", 1), "/d/data.txt.ripsed.bak.1");
    assert_eq!(backup_candidate("/d/data.txt.ripsed.bak", 12), "/d/data.txt.ripsed.bak.12");
}

#[test]
fn backslash_in_extension_is_appended_to() {
    assert_eq!(lock_path_for("/tmp/a.b\\c"), "/tmp/a.b\\c.ripsed.lock");
    assert_eq!(backup_path_for("/tmp/a.b\\c"), "/tmp/a.b\\c.ripsed.bak");
}
