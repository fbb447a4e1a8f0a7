use vstd::prelude::*;

verus! {

/// The three user-configurable paths kept between invocations: where the
/// template vault is, the directory that new vaults go into, and the
/// directory that holds the note application's configuration. Each is
/// absent until it is set.
#[derive(Debug, Clone)]
pub struct MyConfig {
    pub template_path: Option<String>,
    pub vault_dir: Option<String>,
    pub obsidian_config: Option<String>,
}

impl Default for MyConfig {
    fn default() -> (r: Self)
        ensures
            r.template_path is None,
            r.vault_dir is None,
            r.obsidian_config is None,
    {
        MyConfig { template_path: None, vault_dir: None, obsidian_config: None }
    }
}

/// The settings with the vault directory replaced by `new_path`; the other
/// two paths are kept.
pub fn set_vault_dir(config: MyConfig, new_path: String) -> (r: MyConfig)
    ensures
        r.vault_dir == Some(new_path),
        r.template_path == config.template_path,
        r.obsidian_config == config.obsidian_config,
{
    MyConfig { vault_dir: Some(new_path), ..config }
}

/// The settings with the template path replaced by `new_path`; the other two
/// paths are kept.
pub fn set_template_path(config: MyConfig, new_path: String) -> (r: MyConfig)
    ensures
        r.template_path == Some(new_path),
        r.vault_dir == config.vault_dir,
        r.obsidian_config == config.obsidian_config,
{
    MyConfig { template_path: Some(new_path), ..config }
}

/// The settings with the application configuration directory replaced by
/// `new_path`; the other two paths are kept.
pub fn set_obsidian_path(config: MyConfig, new_path: String) -> (r: MyConfig)
    ensures
        r.obsidian_config == Some(new_path),
        r.template_path == config.template_path,
        r.vault_dir == config.vault_dir,
{
    MyConfig { obsidian_config: Some(new_path), ..config }
}

} // verus!
