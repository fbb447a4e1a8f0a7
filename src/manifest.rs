use vstd::prelude::*;

use crate::vault_id::{generate_vault_id, is_vault_id};

verus! {

/// One vault as the application's manifest records it.
#[derive(Debug, Clone)]
pub struct Vault {
    /// Absolute path of the vault directory.
    pub path: String,
    /// When the vault was created, in milliseconds since the Unix epoch.
    pub ts: u64,
}

impl View for Vault {
    type V = (Seq<char>, u64);

    open spec fn view(&self) -> (Seq<char>, u64) {
        (self.path@, self.ts)
    }
}

/// The application's manifest: its vaults by identifier, and a frame setting
/// that is carried through untouched.
///
/// The vaults are held as a list of identifier and vault pairs in which no
/// identifier occurs twice; `vault_map` is the mapping that the list stands
/// for.
#[derive(Debug, Clone)]
pub struct ObsidianConfig {
    pub vaults: Vec<(String, Vault)>,
    pub frame: String,
}

/// No identifier occurs twice in `s`.
pub open spec fn keys_unique(s: Seq<(String, Vault)>) -> bool {
    forall|i: int, j: int| 0 <= i < j < s.len() ==> #[trigger] s[i].0@ != #[trigger] s[j].0@
}

/// The mapping from identifier to vault that the pairs of `s` stand for.
pub open spec fn entries_map(s: Seq<(String, Vault)>) -> Map<Seq<char>, (Seq<char>, u64)>
    decreases s.len(),
{
    if s.len() == 0 {
        Map::empty()
    } else {
        entries_map(s.drop_last()).insert(s.last().0@, s.last().1@)
    }
}

proof fn lemma_entries_map_finite(s: Seq<(String, Vault)>)
    ensures
        entries_map(s).dom().finite(),
    decreases s.len(),
{
    if s.len() > 0 {
        lemma_entries_map_finite(s.drop_last());
    }
}

proof fn lemma_entries_map_push(s: Seq<(String, Vault)>, e: (String, Vault))
    ensures
        entries_map(s.push(e)) == entries_map(s).insert(e.0@, e.1@),
{
    assert(s.push(e).drop_last() =~= s);
}

proof fn lemma_entries_map_update(s: Seq<(String, Vault)>, i: int, e: (String, Vault))
    requires
        keys_unique(s),
        0 <= i < s.len(),
        s[i].0@ == e.0@,
    ensures
        entries_map(s.update(i, e)) == entries_map(s).insert(e.0@, e.1@),
    decreases s.len(),
{
    let t = s.update(i, e);
    if i == s.len() - 1 {
        assert(t.drop_last() =~= s.drop_last());
        assert(entries_map(t) =~= entries_map(s).insert(e.0@, e.1@));
    } else {
        assert(t.drop_last() =~= s.drop_last().update(i, e));
        lemma_entries_map_update(s.drop_last(), i, e);
        assert(s[i].0@ != s[s.len() - 1].0@);
        assert(entries_map(t) =~= entries_map(s).insert(e.0@, e.1@));
    }
}

impl ObsidianConfig {
    /// The identifiers of the vault list are distinct.
    pub open spec fn wf(&self) -> bool {
        keys_unique(self.vaults@)
    }

    /// The vaults by identifier.
    pub open spec fn vault_map(&self) -> Map<Seq<char>, (Seq<char>, u64)> {
        entries_map(self.vaults@)
    }

    /// A manifest with no vaults and the given frame setting.
    pub fn new(frame: String) -> (r: Self)
        ensures
            r.wf(),
            r.vault_map() == Map::<Seq<char>, (Seq<char>, u64)>::empty(),
            r.frame == frame,
    {
        ObsidianConfig { vaults: Vec::new(), frame }
    }

    /// Records `vault` under `id`, replacing what was recorded under `id`
    /// before; every other vault and the frame setting are kept.
    pub fn register_vault(&mut self, id: String, vault: Vault)
        requires
            old(self).wf(),
        ensures
            final(self).wf(),
            final(self).vault_map() == old(self).vault_map().insert(id@, vault@),
            final(self).frame == old(self).frame,
    {
        let n = self.vaults.len();
        let mut i: usize = 0;
        while i < n
            invariant
                n == self.vaults.len(),
                i <= n,
                self.vaults@ == old(self).vaults@,
                self.frame == old(self).frame,
                keys_unique(self.vaults@),
                forall|j: int| 0 <= j < i ==> (#[trigger] self.vaults@[j]).0@ != id@,
            decreases n - i,
        {
            if self.vaults[i].0 == id {
                let ghost before = self.vaults@;
                let e = (id, vault);
                self.vaults.set(i, e);
                proof {
                    assert(self.vaults@ == before.update(i as int, e));
                    lemma_entries_map_update(before, i as int, e);
                    assert forall|a: int, b: int| 0 <= a < b < self.vaults@.len() implies
                        #[trigger] self.vaults@[a].0@ != #[trigger] self.vaults@[b].0@ by {
                        if a != i && b != i {
                            assert(before[a].0@ != before[b].0@);
                        }
                    }
                }
                return;
            }
            i = i + 1;
        }
        let ghost before = self.vaults@;
        let e = (id, vault);
        self.vaults.push(e);
        proof {
            lemma_entries_map_push(before, e);
            assert forall|a: int, b: int| 0 <= a < b < self.vaults@.len() implies
                #[trigger] self.vaults@[a].0@ != #[trigger] self.vaults@[b].0@ by {
                if b == n {
                    assert(before[a].0@ != e.0@);
                } else {
                    assert(before[a].0@ != before[b].0@);
                }
            }
        }
    }
}

/// Registering an entry under an identifier that the manifest does not hold
/// yet keeps every entry that was there, unchanged, and adds exactly one: the
/// new one.
pub proof fn lemma_register_adds_one_entry(m: ObsidianConfig, id: Seq<char>, v: (Seq<char>, u64))
    requires
        m.wf(),
        !m.vault_map().contains_key(id),
    ensures
        m.vault_map().insert(id, v).dom() == m.vault_map().dom().insert(id),
        m.vault_map().insert(id, v).dom().len() == m.vault_map().dom().len() + 1,
        m.vault_map().insert(id, v)[id] == v,
        forall|k: Seq<char>| #[trigger] m.vault_map().contains_key(k) ==>
            m.vault_map().insert(id, v)[k] == m.vault_map()[k],
{
    lemma_entries_map_finite(m.vaults@);
}

/// Registers a new vault at `path`, created at `ts`, under a freshly
/// generated identifier, and returns that identifier.
pub fn create_new_vault(manifest: &mut ObsidianConfig, path: &String, ts: u64) -> (id: String)
    requires
        old(manifest).wf(),
    ensures
        is_vault_id(id@),
        final(manifest).wf(),
        final(manifest).vault_map() == old(manifest).vault_map().insert(id@, (path@, ts)),
        final(manifest).frame == old(manifest).frame,
{
    let id = generate_vault_id();
    let vault = Vault { path: path.clone(), ts };
    manifest.register_vault(id.clone(), vault);
    id
}

/// Window settings of one vault, written once when the vault is created.
/// The field names are those of the application's settings file.
#[allow(non_snake_case)]
#[derive(Debug, Clone, Copy, PartialEq, Eq, Structural)]
pub struct VaultConfig {
    pub x: i32,
    pub y: i32,
    pub width: i32,
    pub height: i32,
    pub isMaximized: bool,
    pub devTools: bool,
    pub zoom: i32,
}

impl Default for VaultConfig {
    /// A maximised 1024 by 800 window at the origin, without developer tools
    /// and without zoom.
    fn default() -> (r: Self)
        ensures
            r.x == 0,
            r.y == 0,
            r.width == 1024,
            r.height == 800,
            r.isMaximized,
            !r.devTools,
            r.zoom == 0,
    {
        VaultConfig { x: 0, y: 0, width: 1024, height: 800, isMaximized: true, devTools: false, zoom: 0 }
    }
}

} // verus!
