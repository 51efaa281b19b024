use vfs_tree::{Entity, ErrorKind, File, Folder};

fn sample_root<'a>() -> Entity<'a> {
    let mut root = Folder::new("/", 1);
    root.add(Entity::File(File::new("file1", 2)));
    let mut folder2 = Folder::new("folder2/", 3);
    folder2.add(Entity::File(File::new("file2", 4)));
    root.add(Entity::Folder(folder2));
    let mut folder3 = Folder::new("folder3/", 6);
    folder3.add(Entity::File(File::new("file3", 5)));
    root.add(Entity::Folder(folder3));
    Entity::Folder(root)
}

#[test]
fn root_finds_direct_file() {
    let root = sample_root();
    match root.get("file1") {
        Some(Entity::File(file)) => {
            assert_eq!(file.id(), 2);
            assert_eq!(file.name(), "file1");
        }
        _ => panic!("file1 is a direct child of the root"),
    }
}

#[test]
fn root_does_not_find_grandchild() {
    let root = sample_root();
    assert!(root.get("file2").is_none());
    assert!(root.get("file3").is_none());
}

#[test]
fn root_finds_itself_by_its_own_name() {
    let root = sample_root();
    let found = root.get("/").expect("the root is called /");
    assert_eq!(found.id(), 1);
    assert!(matches!(found, Entity::Folder(_)));
}

#[test]
fn delete_id_removes_folder_and_reports_its_subtree() {
    let mut root = sample_root();
    let mut log: Vec<String> = Vec::new();
    assert_eq!(root.delete_id(6, &mut log), Ok(6));
    assert_eq!(log, vec!["deleted file file3".to_string(), "deleted folder folder3/".to_string()]);
    assert!(root.get("folder3/").is_none());
    assert!(root.get("file1").is_some());
    assert!(root.get("folder2/").is_some());
    assert_eq!(root.to_string(), "{ \"/\": \"file1\",  { \"folder2/\": \"file2\",  },  }");
}

#[test]
fn two_step_descent_reaches_grandchild() {
    let mut root = sample_root();
    let folder2 = root.get_mut("folder2/").expect("folder2/ is a direct child");
    match folder2.get("file2") {
        Some(Entity::File(file)) => assert_eq!(file.id(), 4),
        _ => panic!("file2 is a direct child of folder2/"),
    }
}

#[test]
fn delete_id_of_a_file_child() {
    let mut root = sample_root();
    let mut log: Vec<String> = Vec::new();
    assert_eq!(root.delete_id(2, &mut log), Ok(2));
    assert_eq!(log, vec!["deleted file file1".to_string()]);
    assert!(root.get("file1").is_none());
}

#[test]
fn delete_id_through_get_mut_changes_the_tree() {
    let mut root = sample_root();
    let mut log: Vec<String> = Vec::new();
    {
        let folder3 = root.get_mut("folder3/").expect("folder3/ is a direct child");
        assert_eq!(folder3.delete_id(5, &mut log), Ok(5));
        assert!(folder3.get("file3").is_none());
    }
    assert_eq!(log, vec!["deleted file file3".to_string()]);
    assert_eq!(
        root.to_string(),
        "{ \"/\": \"file1\",  { \"folder2/\": \"file2\",  },  { \"folder3/\": },  }"
    );
}

#[test]
fn delete_id_does_not_reach_grandchildren() {
    let mut root = sample_root();
    let mut log: Vec<String> = Vec::new();
    let before = root.to_string();
    assert_eq!(root.delete_id(4, &mut log), Err(ErrorKind::NotFound));
    assert_eq!(root.delete_id(5, &mut log), Err(ErrorKind::NotFound));
    assert!(log.is_empty());
    assert_eq!(root.to_string(), before);
}

#[test]
fn delete_id_missing_leaves_tree_unmodified() {
    let mut root = sample_root();
    let mut log: Vec<String> = Vec::new();
    let before = root.to_string();
    assert_eq!(root.delete_id(999, &mut log), Err(ErrorKind::NotFound));
    assert!(log.is_empty());
    assert_eq!(root.to_string(), before);
    assert!(root.get("file1").is_some());
}

#[test]
fn delete_id_on_the_root_itself_is_not_a_match() {
    let mut root = sample_root();
    let mut log: Vec<String> = Vec::new();
    assert_eq!(root.delete_id(1, &mut log), Err(ErrorKind::NotFound));
    assert!(log.is_empty());
}

#[test]
fn full_delete_is_post_order_last_child_first() {
    let mut root = sample_root();
    let mut log: Vec<String> = Vec::new();
    root.delete(&mut log);
    assert_eq!(
        log,
        vec![
            "deleted file file3".to_string(),
            "deleted folder folder3/".to_string(),
            "deleted file file2".to_string(),
            "deleted folder folder2/".to_string(),
            "deleted file file1".to_string(),
            "deleted folder /".to_string(),
        ]
    );
    assert!(root.get("file1").is_none());
    assert!(root.get("/").is_some());
    assert_eq!(root.to_string(), "{ \"/\": }");
}

#[test]
fn render_nests_folder_blocks() {
    let mut root = Folder::new("/", 1);
    root.add(Entity::File(File::new("file1", 2)));
    let mut folder2 = Folder::new("folder2/", 3);
    folder2.add(Entity::File(File::new("file2", 4)));
    root.add(Entity::Folder(folder2));
    let text = root.to_string();
    assert_eq!(text, "{ \"/\": \"file1\",  { \"folder2/\": \"file2\",  },  }");
    let inner = "{ \"folder2/\": \"file2\",  }";
    let at = text.find(inner).expect("the block of folder2/ stands in the text");
    assert!(at > text.find('{').unwrap());
    assert!(at + inner.len() < text.rfind('}').unwrap());
    assert!(text.contains("\"file1\""));
}

#[test]
fn render_of_sample_root() {
    let root = sample_root();
    assert_eq!(
        root.to_string(),
        "{ \"/\": \"file1\",  { \"folder2/\": \"file2\",  },  { \"folder3/\": \"file3\",  },  }"
    );
}
