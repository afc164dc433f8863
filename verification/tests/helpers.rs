use cargo_gen::helpers::FileAction;
use cargo_gen::helpers::FileHelper;
use cargo_gen::text::chars_of;
use cargo_gen::text::copy_texts;
use cargo_gen::text::cut_before;
use cargo_gen::text::decimal_text;
use cargo_gen::text::join;
use cargo_gen::text::quote;
use cargo_gen::text::same_text;
use cargo_gen::text::text_of;

#[test]
fn it_creates_a_file_for_real() {
    for exists in [false, true] {
        let decision =
            FileHelper::new(false).create_file("cargo-gen-test/file.rs", "pub fn foo() {}", exists);
        assert!(matches!(decision, Ok(FileAction::Write { path, content })
            if path == "cargo-gen-test/file.rs" && content == "pub fn foo() {}"));
    }
}

#[test]
fn it_skips_file_creation_on_dry_run() {
    let decision =
        FileHelper::new(true).create_file("cargo-gen-test/file.rs", "pub fn foo() {}", false);
    assert!(matches!(decision, Ok(FileAction::Nothing)));
}

#[test]
fn it_fails_if_file_already_exists_on_dry_run() {
    let decision =
        FileHelper::new(true).create_file("cargo-gen-test/file.rs", "pub fn foo() {}", true);
    assert!(decision.is_err());
    assert_eq!("cargo-gen-test/file.rs already exists", decision.unwrap_err());
}

#[test]
fn it_leaves_the_file_alone_without_new_content() {
    assert!(matches!(FileHelper::new(false).modify_file("f", None), FileAction::Nothing));
    assert!(matches!(FileHelper::new(true).modify_file("f", None), FileAction::Nothing));
}

#[test]
fn it_writes_new_content_for_real() {
    let action = FileHelper::new(false).modify_file("f", Some("New content.".to_string()));
    assert!(matches!(action, FileAction::Write { path, content }
        if path == "f" && content == "New content."));
}

#[test]
fn it_skips_file_modification_on_dry_run() {
    let action = FileHelper::new(true).modify_file("f", Some("New content.".to_string()));
    assert!(matches!(action, FileAction::Probe { path } if path == "f"));
}

#[test]
fn a_helper_knows_whether_it_only_checks() {
    assert!(FileHelper::new(true).dry_run());
    assert!(!FileHelper::new(false).dry_run());
}

#[test]
fn the_complaints_name_the_file() {
    assert_eq!("a/b.rs could not be created", FileHelper::not_created_message("a/b.rs"));
    assert_eq!("a/b.rs could not be written", FileHelper::not_written_message("a/b.rs"));
    assert_eq!("Writing to a/b.rs failed", FileHelper::writing_failed_message("a/b.rs"));
}

#[test]
fn numbers_are_written_in_decimal() {
    assert_eq!("0", decimal_text(0));
    assert_eq!("7", decimal_text(7));
    assert_eq!("10", decimal_text(10));
    assert_eq!("1204", decimal_text(1204));
    assert_eq!("9090909", decimal_text(9090909));
    assert_eq!(usize::MAX.to_string(), decimal_text(usize::MAX));
}

#[test]
fn texts_are_joined_compared_and_cut() {
    assert_eq!("ab", join("a", "b"));
    assert_eq!("a", join("a", ""));
    assert!(same_text("é", "é"));
    assert!(!same_text("a", "A"));
    assert_eq!("a.b", cut_before("a.b:c:d", ':'));
    assert_eq!("", cut_before(":", ':'));
    assert_eq!("héllo", cut_before("héllo", ':'));
}

#[test]
fn texts_are_taken_apart_and_put_together() {
    assert_eq!(vec!['h', 'é', '✓'], chars_of("hé✓"));
    assert!(chars_of("").is_empty());
    assert_eq!("hé✓", text_of(&vec!['h', 'é', '✓']));
    assert_eq!("", text_of(&vec![]));
    let texts = vec!["a".to_string(), "".to_string(), "c".to_string()];
    assert_eq!(texts, copy_texts(&texts));
}

#[test]
fn texts_are_quoted() {
    assert_eq!("\"\"", quote(""));
    assert_eq!("\"plain\"", quote("plain"));
    assert_eq!("\"a\\\"b\"", quote("a\"b"));
    assert_eq!("\"a\\\\b\"", quote("a\\b"));
    assert_eq!("\"\\\\\\\"\"", quote("\\\""));
}
