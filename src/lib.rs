//! Provisions note vaults from a template directory and registers them in the
//! note application's manifest.
//!
//! The library holds the decisions and data transformations: path building,
//! the launch URI, settings updates, vault identifiers and manifest edits.
//! Reading and writing files, JSON and launching processes are left to the
//! caller.

mod copier;
mod manifest;
mod paths;
mod provision;
mod settings;
mod vault_id;

pub use copier::{copy_step, lemma_copy_targets_distinct, CopyStep};
pub use manifest::{
    create_new_vault, entries_map, keys_unique, lemma_register_adds_one_entry, ObsidianConfig,
    Vault, VaultConfig,
};
pub use paths::{encode_spaces, join_path, open_uri, path_join, OPEN_URI_PREFIX};
pub use provision::{
    has_dir_named, manifest_path, plan_new_vault, provision_dirs, vault_settings_path, DirEntry,
    ProvisionDirs, ProvisionError, OBSIDIAN_CONFIG_FILE,
};
pub use settings::{set_obsidian_path, set_template_path, set_vault_dir, MyConfig};
pub use vault_id::{
    generate_vault_id, hex_digit, hex_digits, is_lower_hex_char, is_vault_id,
    lemma_hex_digits_are_lower_hex, vault_id_from_uuid, vault_id_of,
};
