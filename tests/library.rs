use ovt::{
    copy_step, create_new_vault, generate_vault_id, join_path, manifest_path, open_uri,
    plan_new_vault, provision_dirs, set_obsidian_path, set_template_path, set_vault_dir,
    vault_id_from_uuid, vault_settings_path, CopyStep, DirEntry, MyConfig, ObsidianConfig,
    ProvisionDirs, ProvisionError, Vault, VaultConfig,
};

fn is_lower_hex_id(s: &str) -> bool {
    s.len() == 16 && s.chars().all(|c| c.is_ascii_digit() || ('a'..='f').contains(&c))
}

fn scenario_settings() -> MyConfig {
    let cfg = MyConfig::default();
    let cfg = set_vault_dir(cfg, "/v".to_string());
    let cfg = set_template_path(cfg, "/t".to_string());
    set_obsidian_path(cfg, "/c".to_string())
}

fn entry(name: &str, is_dir: bool) -> DirEntry {
    DirEntry { name: name.to_string(), is_dir }
}

#[test]
fn default_settings_are_empty() {
    let cfg = MyConfig::default();
    assert!(cfg.template_path.is_none());
    assert!(cfg.vault_dir.is_none());
    assert!(cfg.obsidian_config.is_none());
}

#[test]
fn setters_change_one_path_each() {
    let cfg = scenario_settings();
    assert_eq!(cfg.vault_dir.as_deref(), Some("/v"));
    assert_eq!(cfg.template_path.as_deref(), Some("/t"));
    assert_eq!(cfg.obsidian_config.as_deref(), Some("/c"));
    let cfg = set_vault_dir(cfg, "/w".to_string());
    assert_eq!(cfg.vault_dir.as_deref(), Some("/w"));
    assert_eq!(cfg.template_path.as_deref(), Some("/t"));
    assert_eq!(cfg.obsidian_config.as_deref(), Some("/c"));
}

#[test]
fn join_inserts_one_separator() {
    assert_eq!(join_path(&"/v".to_string(), "MyNotes"), "/v/MyNotes");
    assert_eq!(join_path(&"/v/".to_string(), "MyNotes"), "/v/MyNotes");
    assert_eq!(join_path(&"".to_string(), "MyNotes"), "MyNotes");
    assert_eq!(join_path(&"/v".to_string(), "/abs"), "/abs");
}

#[test]
fn open_uri_encodes_spaces_only() {
    assert_eq!(open_uri(&"/v/My Notes".to_string()), "obsidian://open?path=/v/My%20Notes");
    assert_eq!(open_uri(&"/v/a  b#?".to_string()), "obsidian://open?path=/v/a%20%20b#?");
    assert_eq!(open_uri(&"".to_string()), "obsidian://open?path=");
}

#[test]
fn vault_id_is_first_half_of_simple_hex() {
    let u: u128 = 0xa1a2a3a4b1b2c1c2d1d2d3d4d5d6d7d8;
    assert_eq!(vault_id_from_uuid(u), "a1a2a3a4b1b2c1c2");
    assert_eq!(vault_id_from_uuid(0), "0000000000000000");
    assert_eq!(vault_id_from_uuid(u128::MAX), "ffffffffffffffff");
}

#[test]
fn generated_ids_are_sixteen_lower_hex() {
    for _ in 0..50 {
        let id = generate_vault_id();
        assert!(is_lower_hex_id(&id), "{}", id);
    }
}

#[test]
fn provision_dirs_reports_missing_settings() {
    let cfg = MyConfig::default();
    assert!(matches!(provision_dirs(&cfg), Err(ProvisionError::MissingVaultDir)));
    let cfg = set_vault_dir(cfg, "/v".to_string());
    assert!(matches!(provision_dirs(&cfg), Err(ProvisionError::MissingTemplatePath)));
    let cfg = set_template_path(cfg, "/t".to_string());
    let dirs = provision_dirs(&cfg).unwrap();
    assert_eq!(dirs.vault_dir, "/v");
    assert_eq!(dirs.template_path, "/t");
}

#[test]
fn manifest_path_needs_config_dir() {
    let cfg = MyConfig::default();
    assert!(matches!(manifest_path(&cfg), Err(ProvisionError::MissingAppConfigPath)));
    let cfg = set_obsidian_path(cfg, "/c".to_string());
    assert_eq!(manifest_path(&cfg).unwrap(), "/c/obsidian.json");
}

#[test]
fn settings_file_named_after_id() {
    let p = vault_settings_path(&"/c".to_string(), &"0123456789abcdef".to_string());
    assert_eq!(p, "/c/0123456789abcdef.json");
}

#[test]
fn name_conflict_only_for_directories() {
    let dirs = ProvisionDirs { vault_dir: "/v".to_string(), template_path: "/t".to_string() };
    let name = "MyNotes".to_string();
    let children = vec![entry("MyNotes", true)];
    assert!(matches!(plan_new_vault(&name, &dirs, &children), Err(ProvisionError::NameConflict)));
    let children = vec![entry("MyNotes", false), entry("mynotes", true), entry("Other", true)];
    assert_eq!(plan_new_vault(&name, &dirs, &children).unwrap(), "/v/MyNotes");
}

#[test]
fn copy_step_descends_into_directories() {
    let dest = "/v/MyNotes".to_string();
    match copy_step(&dest, &entry("b", true)) {
        CopyStep::Descend(p) => assert_eq!(p, "/v/MyNotes/b"),
        other => panic!("unexpected {:?}", other),
    }
    match copy_step(&dest, &entry("a.md", false)) {
        CopyStep::CopyFile(p) => assert_eq!(p, "/v/MyNotes/a.md"),
        other => panic!("unexpected {:?}", other),
    }
}

#[test]
fn copy_step_target_is_the_same_each_time() {
    let dest = "/d".to_string();
    let a = copy_step(&dest, &entry("f.txt", false));
    let b = copy_step(&dest, &entry("f.txt", false));
    match (a, b) {
        (CopyStep::CopyFile(x), CopyStep::CopyFile(y)) => assert_eq!(x, y),
        other => panic!("unexpected {:?}", other),
    }
}

#[test]
fn register_vault_replaces_same_id() {
    let mut m = ObsidianConfig::new("x".to_string());
    m.register_vault("aaaaaaaaaaaaaaaa".to_string(), Vault { path: "/p".to_string(), ts: 1 });
    m.register_vault("bbbbbbbbbbbbbbbb".to_string(), Vault { path: "/q".to_string(), ts: 2 });
    m.register_vault("aaaaaaaaaaaaaaaa".to_string(), Vault { path: "/r".to_string(), ts: 3 });
    assert_eq!(m.vaults.len(), 2);
    let a = m.vaults.iter().find(|(k, _)| k == "aaaaaaaaaaaaaaaa").unwrap();
    assert_eq!(a.1.path, "/r");
    assert_eq!(a.1.ts, 3);
    assert_eq!(m.frame, "x");
}

#[test]
fn new_vault_keeps_existing_entries() {
    let mut m = ObsidianConfig::new("frame".to_string());
    m.register_vault("0123456789abcdef".to_string(), Vault { path: "/old".to_string(), ts: 7 });
    let id = create_new_vault(&mut m, &"/v/New".to_string(), 99);
    assert!(is_lower_hex_id(&id));
    assert_eq!(m.vaults.len(), 2);
    let old = m.vaults.iter().find(|(k, _)| k == "0123456789abcdef").unwrap();
    assert_eq!(old.1.path, "/old");
    assert_eq!(old.1.ts, 7);
    let new = m.vaults.iter().find(|(k, _)| *k == id).unwrap();
    assert_eq!(new.1.path, "/v/New");
    assert_eq!(new.1.ts, 99);
    assert_eq!(m.frame, "frame");
}

#[test]
fn default_window_settings() {
    let c = VaultConfig::default();
    assert_eq!(c.x, 0);
    assert_eq!(c.y, 0);
    assert_eq!(c.width, 1024);
    assert_eq!(c.height, 800);
    assert!(c.isMaximized);
    assert!(!c.devTools);
    assert_eq!(c.zoom, 0);
}

#[test]
fn provision_into_empty_vault_dir() {
    let cfg = scenario_settings();
    let dirs = provision_dirs(&cfg).unwrap();
    let name = "MyNotes".to_string();
    let new_path = plan_new_vault(&name, &dirs, &Vec::new()).unwrap();
    assert_eq!(new_path, "/v/MyNotes");
    match copy_step(&new_path, &entry("a.md", false)) {
        CopyStep::CopyFile(p) => assert_eq!(p, "/v/MyNotes/a.md"),
        other => panic!("unexpected {:?}", other),
    }
    match copy_step(&new_path, &entry("b", true)) {
        CopyStep::Descend(sub) => match copy_step(&sub, &entry("c.md", false)) {
            CopyStep::CopyFile(p) => assert_eq!(p, "/v/MyNotes/b/c.md"),
            other => panic!("unexpected {:?}", other),
        },
        other => panic!("unexpected {:?}", other),
    }
    assert_eq!(manifest_path(&cfg).unwrap(), "/c/obsidian.json");
    let mut m = ObsidianConfig::new("x".to_string());
    let id = create_new_vault(&mut m, &new_path, 1_700_000_000_000);
    assert!(is_lower_hex_id(&id));
    assert_eq!(m.vaults.len(), 1);
    assert_eq!(m.vaults[0].0, id);
    assert_eq!(m.vaults[0].1.path, "/v/MyNotes");
    assert_eq!(m.frame, "x");
    let settings_file = vault_settings_path(&"/c".to_string(), &id);
    assert_eq!(settings_file, format!("/c/{}.json", id));
    assert_eq!(open_uri(&new_path), "obsidian://open?path=/v/MyNotes");
}

#[test]
fn provision_refused_when_vault_exists() {
    let cfg = scenario_settings();
    let dirs = provision_dirs(&cfg).unwrap();
    let name = "MyNotes".to_string();
    let children = vec![entry("MyNotes", true)];
    let r = plan_new_vault(&name, &dirs, &children);
    assert!(matches!(r, Err(ProvisionError::NameConflict)));
}

#[test]
fn copy_targets_differ_for_different_names() {
    let dest = "/v/MyNotes".to_string();
    let targets: Vec<String> = ["a.md", "b", "a.md.bak", "A.md"]
        .iter()
        .map(|n| match copy_step(&dest, &entry(n, false)) {
            CopyStep::CopyFile(p) => p,
            CopyStep::Descend(p) => p,
        })
        .collect();
    for i in 0..targets.len() {
        for j in 0..targets.len() {
            assert_eq!(i == j, targets[i] == targets[j]);
        }
    }
}

#[test]
fn open_uri_leaves_other_characters() {
    assert_eq!(open_uri(&"C:/a%b/ü".to_string()), "obsidian://open?path=C:/a%b/ü");
}
