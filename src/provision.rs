use vstd::prelude::*;
use vstd::string::StringExecFns;

use crate::paths::{join_path, path_join};
use crate::settings::MyConfig;

verus! {

/// Name of the manifest file inside the application's configuration
/// directory.
pub const OBSIDIAN_CONFIG_FILE: &'static str = "obsidian.json";

/// Why provisioning a vault stopped before any file was touched.
#[derive(Debug, Clone, Copy, PartialEq, Eq, Structural)]
pub enum ProvisionError {
    /// No vault directory is set.
    MissingVaultDir,
    /// No template path is set.
    MissingTemplatePath,
    /// No application configuration directory is set.
    MissingAppConfigPath,
    /// The vault directory already holds a directory of the requested name.
    NameConflict,
}

/// One child of a directory, as a directory listing reports it.
#[derive(Debug, Clone)]
pub struct DirEntry {
    pub name: String,
    pub is_dir: bool,
}

/// The two directories that provisioning needs from the settings.
#[derive(Debug, Clone)]
pub struct ProvisionDirs {
    pub vault_dir: String,
    pub template_path: String,
}

/// Some child of the listing is a directory named exactly `name`.
pub open spec fn has_dir_named(children: Seq<DirEntry>, name: Seq<char>) -> bool {
    exists|i: int| 0 <= i < children.len() && #[trigger] children[i].is_dir && children[i].name@ == name
}

/// The vault directory and the template path from the settings. The vault
/// directory is looked at first.
pub fn provision_dirs(cfg: &MyConfig) -> (r: Result<ProvisionDirs, ProvisionError>)
    ensures
        cfg.vault_dir is None ==> r == Err::<ProvisionDirs, ProvisionError>(
            ProvisionError::MissingVaultDir,
        ),
        cfg.vault_dir is Some && cfg.template_path is None ==> r == Err::<
            ProvisionDirs,
            ProvisionError,
        >(ProvisionError::MissingTemplatePath),
        cfg.vault_dir is Some && cfg.template_path is Some ==> r is Ok && r->Ok_0.vault_dir
            == cfg.vault_dir->Some_0 && r->Ok_0.template_path == cfg.template_path->Some_0,
{
    let vault_dir = match &cfg.vault_dir {
        Some(p) => p.clone(),
        None => return Err(ProvisionError::MissingVaultDir),
    };
    let template_path = match &cfg.template_path {
        Some(p) => p.clone(),
        None => return Err(ProvisionError::MissingTemplatePath),
    };
    Ok(ProvisionDirs { vault_dir, template_path })
}

/// Decides where the vault `name` goes, given the children of the vault
/// directory: the name is refused when a directory of exactly that name is
/// already there (files of that name do not count); otherwise the new vault's
/// path is the vault directory joined with the name.
pub fn plan_new_vault(name: &String, dirs: &ProvisionDirs, children: &Vec<DirEntry>) -> (r: Result<
    String,
    ProvisionError,
>)
    ensures
        has_dir_named(children@, name@) ==> r == Err::<String, ProvisionError>(
            ProvisionError::NameConflict,
        ),
        !has_dir_named(children@, name@) ==> r is Ok && r->Ok_0@ == path_join(
            dirs.vault_dir@,
            name@,
        ),
{
    let n = children.len();
    let mut i: usize = 0;
    while i < n
        invariant
            n == children.len(),
            i <= n,
            forall|j: int| 0 <= j < i ==> !(#[trigger] children@[j].is_dir && children@[j].name@ == name@),
        decreases n - i,
    {
        if children[i].is_dir && children[i].name == *name {
            return Err(ProvisionError::NameConflict);
        }
        i = i + 1;
    }
    Ok(join_path(&dirs.vault_dir, name.as_str()))
}

/// The path of the manifest file: the application configuration directory
/// joined with the manifest's file name.
pub fn manifest_path(cfg: &MyConfig) -> (r: Result<String, ProvisionError>)
    ensures
        cfg.obsidian_config is None ==> r == Err::<String, ProvisionError>(
            ProvisionError::MissingAppConfigPath,
        ),
        cfg.obsidian_config is Some ==> r is Ok && r->Ok_0@ == path_join(
            cfg.obsidian_config->Some_0@,
            OBSIDIAN_CONFIG_FILE@,
        ),
{
    match &cfg.obsidian_config {
        Some(dir) => Ok(join_path(dir, OBSIDIAN_CONFIG_FILE)),
        None => Err(ProvisionError::MissingAppConfigPath),
    }
}

/// The path of the window-settings file of the vault `id`: `<id>.json` in the
/// application configuration directory `dir`.
pub fn vault_settings_path(dir: &String, id: &String) -> (r: String)
    ensures
        r@ == path_join(dir@, id@ + ".json"@),
{
    let mut file = id.clone();
    proof {
        reveal_strlit(".json");
    }
    file.append(".json");
    join_path(dir, file.as_str())
}

} // verus!
