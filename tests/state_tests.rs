use robo_notes::cli::{Commands, VaultCommands};
use robo_notes::vault::Vault;
use robo_notes::{state_folder_from, RoboNote, StateDocument};

fn pre_create_state() -> RoboNote {
    let path = "target/test/state".to_string();
    let mut rn = RoboNote::new(&path);
    rn.create_vault("target/test/vault1".to_string());
    rn
}

#[test]
fn load_state() {
    let rn = pre_create_state();
    let (target, doc) = rn.save();
    assert_eq!(target.path, "target/test/state/state.json");
    assert_eq!(target.dir, "target/test/state");

    let path = "target/test/state".to_string();
    let mut rn = RoboNote::from_state(doc, &path);
    assert_eq!(rn.get_current().is_some(), true);
    assert_eq!(rn.list_vaults().len(), 1, "Vaults len should be one");
}

#[test]
fn round_trip_keeps_vaults_and_active() {
    let mut rn = RoboNote::new(&"/state".to_string());
    rn.create_vault("/v1".to_string());
    rn.create_vault("/v2".to_string());
    rn.create_vault("/v3".to_string());
    rn.active_vault = Some(1);
    let (_, doc) = rn.save();
    let back = RoboNote::from_state(doc, &"/state".to_string());
    assert_eq!(back.active_vault, Some(1));
    assert_eq!(back.list_vaults(), rn.list_vaults());
    assert_eq!(back.state_folder(), "/state");
}

#[test]
fn current_of_empty_is_none() {
    let mut rn = RoboNote::new(&"/state".to_string());
    assert!(rn.get_current().is_none());
}

#[test]
fn current_without_active_is_first() {
    let doc = StateDocument {
        active_vault: None,
        vaults: vec![Vault::new("/a".to_string()), Vault::new("/b".to_string())],
    };
    let mut rn = RoboNote::from_state(doc, &"/state".to_string());
    assert_eq!(rn.get_current().unwrap().path(), "/a");
}

#[test]
fn current_out_of_range_is_none() {
    let doc = StateDocument { active_vault: Some(2), vaults: vec![Vault::new("/a".to_string())] };
    let mut rn = RoboNote::from_state(doc, &"/state".to_string());
    assert!(rn.get_current().is_none());
}

#[test]
fn create_vault_makes_it_current() {
    let mut rn = RoboNote::new(&"/state".to_string());
    rn.create_vault("/p1".to_string());
    rn.create_vault("/p2".to_string());
    assert_eq!(rn.active_vault, Some(1));
    assert_eq!(rn.get_current().unwrap().path(), "/p2");
}

#[test]
fn list_marks_active() {
    let mut rn = RoboNote::new(&"/state".to_string());
    rn.create_vault("/p1".to_string());
    rn.create_vault("/p2".to_string());
    assert_eq!(rn.list_vaults(), vec![(false, "/p1".to_string()), (true, "/p2".to_string())]);
    rn.active_vault = None;
    assert_eq!(rn.list_vaults(), vec![(true, "/p1".to_string()), (false, "/p2".to_string())]);
}

#[test]
fn state_folder_resolution() {
    assert_eq!(
        state_folder_from(&Some("/x".to_string()), &Some("/home/u".to_string())),
        Some("/x/robo-notes".to_string())
    );
    assert_eq!(
        state_folder_from(&None, &Some("/home/u".to_string())),
        Some("/home/u/.local/state/robo-notes".to_string())
    );
    assert_eq!(state_folder_from(&None, &None), None);
}

#[test]
fn editor_decision() {
    let add = |content: Option<String>, edit: bool| Commands::Add {
        name: "n".to_string(),
        content,
        tags: None,
        edit,
    };
    assert!(add(None, false).opens_editor());
    assert!(add(Some("c".to_string()), true).opens_editor());
    assert!(!add(Some("c".to_string()), false).opens_editor());
    assert!(!Commands::Vault(VaultCommands::List).opens_editor());
}
