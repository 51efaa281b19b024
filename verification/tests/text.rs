use vfs_tree::text::{file_notice, folder_notice, folder_text, link_notice, link_text, same_text};

#[test]
fn same_text_compares_characters() {
    assert!(same_text("", ""));
    assert!(same_text("file1", "file1"));
    assert!(!same_text("file1", "file2"));
    assert!(!same_text("file", "file1"));
    assert!(!same_text("file1", "file"));
    assert!(!same_text("File1", "file1"));
    assert!(same_text("d\u{e9}j\u{e0}", "d\u{e9}j\u{e0}"));
    assert!(!same_text("d\u{e9}j\u{e0}", "deja"));
    assert!(!same_text("\u{e9}", "\u{e8}"));
}

#[test]
fn folder_text_wraps_items_in_a_block() {
    assert_eq!(folder_text("N", &vec![]), "{ N: }");
    assert_eq!(folder_text("N", &vec!["a".to_string()]), "{ N: a,  }");
    assert_eq!(folder_text("\"n\"", &vec!["a".to_string(), "{ b: }".to_string()]), "{ \"n\": a,  { b: },  }");
}

#[test]
fn link_text_puts_an_arrow_between() {
    assert_eq!(link_text("\"a\"", "\"b\""), "\"a\" -> \"b\"");
    assert_eq!(link_text("", ""), " -> ");
}

#[test]
fn notice_lines() {
    assert_eq!(file_notice("file1"), "deleted file file1");
    assert_eq!(folder_notice("folder3/"), "deleted folder folder3/");
    assert_eq!(link_notice("link1", "file1"), "deleted symbolic link link1 to the file file1");
    assert_eq!(file_notice(""), "deleted file ");
}
