use robo_notes::note::{Note, NoteError, NoteName};
use robo_notes::path::{join, parent};
use robo_notes::vault::Vault;

#[test]
fn test_name() {
    let name = NoteName::new("example".to_string());

    assert_eq!(name.base(), &"example".to_string());
    assert_eq!(name.extension(), &"md".to_string());
    assert_ne!(
        name.to_string(),
        "example.md".to_string(),
        "NoteName.to_string() should not never be equal to default values without random"
    );
}

#[test]
fn rendered_name_has_random_part() {
    let name = NoteName::new("example".to_string());
    let s = name.to_string();
    assert_eq!(s.len(), "example_".len() + 7 + ".md".len());
    assert!(s.starts_with("example_"));
    assert!(s.ends_with(".md"));
    let random = &s["example_".len().."example_".len() + 7];
    assert!(random.chars().all(|c| c.is_ascii_alphanumeric()));
    assert_eq!(random, name.random().as_str());
}

#[test]
fn names_from_same_base_differ() {
    let mut seen = std::collections::HashSet::new();
    for _ in 0..10_000 {
        assert!(seen.insert(NoteName::new("same".to_string()).to_string()));
    }
}

#[test]
fn note_copies_content_and_tags() {
    let tags = Some(vec!["a".to_string(), "b".to_string()]);
    let note = Note::new(&"n".to_string(), &Some("text".to_string()), &tags);
    assert_eq!(note.content, Some("text".to_string()));
    assert_eq!(note.tags(), &tags);
    assert_eq!(note.name().base(), &"n".to_string());
}

#[test]
fn save_without_content_fails() {
    let note = Note::new(&"empty".to_string(), &None, &None);
    assert!(matches!(note.save(&"/vault".to_string()), Err(NoteError::NoContent)));
    let vault = Vault::new("/vault".to_string());
    assert!(matches!(vault.add_note(note), Err(NoteError::NoContent)));
}

#[test]
fn save_writes_under_root() {
    let note = Note::new(&"note".to_string(), &Some("body".to_string()), &None);
    let file = note.name().to_string();
    let w = note.save(&"/vault".to_string()).unwrap();
    assert_eq!(w.target.path, format!("/vault/{}", file));
    assert_eq!(w.target.dir, "/vault".to_string());
    assert_eq!(w.content, "body".to_string());
}

#[test]
fn save_nested_name_creates_subdirectory() {
    let note = Note::new(&"sub/note".to_string(), &Some("x".to_string()), &None);
    let file = note.name().to_string();
    let vault = Vault::new("/vault".to_string());
    let w = vault.add_note(note).unwrap();
    assert_eq!(w.target.dir, "/vault/sub".to_string());
    assert_eq!(w.target.path, format!("/vault/{}", file));
    assert!(w.target.path.starts_with("/vault/sub/note_"));
}

#[test]
fn tmp_path_is_under_tool_folder() {
    let note = Note::new(&"t".to_string(), &None, &None);
    let t = note.get_tmp_path();
    assert_eq!(t.dir, "/tmp/robo-notes".to_string());
    assert_eq!(t.path, format!("/tmp/robo-notes/{}", note.name().to_string()));
}

#[test]
fn join_cases() {
    assert_eq!(join(&"a".to_string(), &"b".to_string()), "a/b");
    assert_eq!(join(&"a/".to_string(), &"b".to_string()), "a/b");
    assert_eq!(join(&"".to_string(), &"b".to_string()), "b");
    assert_eq!(join(&"a".to_string(), &"/b".to_string()), "/b");
}

#[test]
fn parent_cases() {
    assert_eq!(parent(&"a/b/c.md".to_string()), "a/b");
    assert_eq!(parent(&"/c.md".to_string()), "/");
    assert_eq!(parent(&"c.md".to_string()), "");
}

#[test]
fn vault_renders_as_path() {
    let v = Vault::new("/some/where".to_string());
    assert_eq!(v.to_string(), "/some/where");
    assert_eq!(v.path(), "/some/where");
}
