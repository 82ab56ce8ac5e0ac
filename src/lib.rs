//! Notes kept in vaults, with the list of vaults and the active one kept as
//! state between runs.
use vstd::prelude::*;

pub mod cli;
pub mod note;
pub mod path;
pub mod vault;

use crate::note::{option_view, FileTarget};
use crate::path::{join, join_path};
use crate::vault::Vault;

verus! {

/// The registered vaults, the active one, and the folder of the state file.
pub ghost struct RoboNoteModel {
    pub active_vault: Option<usize>,
    pub vaults: Seq<Seq<char>>,
    pub state_folder: Seq<char>,
}

/// What the state file records: the active vault and the vaults' roots.
pub ghost struct StateModel {
    pub active_vault: Option<usize>,
    pub vaults: Seq<Seq<char>>,
}

/// The vault that is current: the active one when it is set (none when the
/// index is out of range), else the first one, else none.
pub open spec fn current_index(s: RoboNoteModel) -> Option<int> {
    match s.active_vault {
        Some(i) => if (i as int) < s.vaults.len() {
            Some(i as int)
        } else {
            None
        },
        None => if s.vaults.len() > 0 {
            Some(0)
        } else {
            None
        },
    }
}

/// The state after a vault rooted at `p` is registered: it is appended and
/// becomes the active one.
pub open spec fn with_vault(s: RoboNoteModel, p: Seq<char>) -> RoboNoteModel {
    RoboNoteModel {
        active_vault: Some(s.vaults.len() as usize),
        vaults: s.vaults.push(p),
        state_folder: s.state_folder,
    }
}

/// What is written to the state file: everything but the state folder.
pub open spec fn document_of(s: RoboNoteModel) -> StateModel {
    StateModel { active_vault: s.active_vault, vaults: s.vaults }
}

/// The state read back from a document found in `state_folder`.
pub open spec fn restored(d: StateModel, state_folder: Seq<char>) -> RoboNoteModel {
    RoboNoteModel { active_vault: d.active_vault, vaults: d.vaults, state_folder }
}

/// The state file within a state folder.
pub open spec fn state_file(state_folder: Seq<char>) -> Seq<char> {
    join_path(state_folder, "state.json"@)
}

/// The folder of the state, from `XDG_STATE_HOME` when it is set, else from
/// `HOME` as `.local/state`; either way in a subfolder named for this tool.
pub open spec fn state_folder_of(xdg_state_home: Option<Seq<char>>, home: Option<Seq<char>>) -> Option<Seq<char>> {
    match xdg_state_home {
        Some(x) => Some(join_path(x, "robo-notes"@)),
        None => match home {
            Some(h) => Some(join_path(join_path(h, ".local/state"@), "robo-notes"@)),
            None => None,
        },
    }
}

/// Resolves the state folder from the values of `XDG_STATE_HOME` and `HOME`;
/// none when neither is set.
pub fn state_folder_from(xdg_state_home: &Option<String>, home: &Option<String>) -> (r: Option<String>)
    ensures
        option_view(r) == state_folder_of(option_view(*xdg_state_home), option_view(*home)),
{
    let app = String::from_str("robo-notes");
    match xdg_state_home {
        Some(x) => Some(join(x, &app)),
        None => match home {
            Some(h) => {
                let local = String::from_str(".local/state");
                Some(join(&join(h, &local), &app))
            },
            None => None,
        },
    }
}

/// The state file within `state_folder`.
pub fn state_file_of(state_folder: &String) -> (r: String)
    ensures
        r@ == state_file(state_folder@),
{
    let name = String::from_str("state.json");
    join(state_folder, &name)
}

/// The contents of the state file.
#[derive(Debug)]
pub struct StateDocument {
    pub active_vault: Option<usize>,
    pub vaults: Vec<Vault>,
}

impl View for StateDocument {
    type V = StateModel;

    open spec fn view(&self) -> StateModel {
        StateModel { active_vault: self.active_vault, vaults: self.vaults@.map_values(|v: Vault| v@) }
    }
}

/// The registered vaults and which of them is active.
#[derive(Debug)]
pub struct RoboNote {
    /// Currently active vault
    pub active_vault: Option<usize>,
    /// All registered vaults
    vaults: Vec<Vault>,
    /// Folder of the state file; not part of the file itself
    state_folder: String,
}

impl View for RoboNote {
    type V = RoboNoteModel;

    closed spec fn view(&self) -> RoboNoteModel {
        RoboNoteModel {
            active_vault: self.active_vault,
            vaults: vault_views(self.vaults@),
            state_folder: self.state_folder@,
        }
    }
}

/// The roots of a sequence of vaults.
pub open spec fn vault_views(vs: Seq<Vault>) -> Seq<Seq<char>> {
    vs.map_values(|v: Vault| v@)
}

proof fn lemma_update_views(vs: Seq<Vault>, i: int)
    requires
        0 <= i < vs.len(),
    ensures
        forall|x: Vault| #[trigger] vault_views(vs.update(i, x)) == vault_views(vs).update(i, x@),
{
    assert forall|x: Vault| #[trigger] vault_views(vs.update(i, x)) == vault_views(vs).update(i, x@) by {
        assert(vault_views(vs.update(i, x)) =~= vault_views(vs).update(i, x@));
    }
}

fn copy_vaults(vaults: &Vec<Vault>) -> (r: Vec<Vault>)
    ensures
        r@.map_values(|v: Vault| v@) == vaults@.map_values(|v: Vault| v@),
{
    let mut out: Vec<Vault> = Vec::new();
    let mut i: usize = 0;
    while i < vaults.len()
        invariant
            i <= vaults.len(),
            out@.len() == i,
            forall|j: int| 0 <= j < i ==> (#[trigger] out@[j])@ == vaults@[j]@,
        decreases vaults.len() - i,
    {
        out.push(Vault::new(vaults[i].path().clone()));
        i = i + 1;
    }
    assert(out@.map_values(|v: Vault| v@) =~= vaults@.map_values(|v: Vault| v@));
    out
}

impl RoboNote {
    /// An empty state, with no vault and none active, kept in `state_folder`.
    pub fn new(state_folder: &String) -> (r: Self)
        ensures
            r@ == (RoboNoteModel { active_vault: None, vaults: Seq::empty(), state_folder: state_folder@ }),
    {
        let r = RoboNote { active_vault: None, vaults: Vec::new(), state_folder: state_folder.clone() };
        assert(r@.vaults =~= Seq::<Seq<char>>::empty());
        r
    }

    /// The state read from a state document found in `state_folder`.
    pub fn from_state(state: StateDocument, state_folder: &String) -> (r: Self)
        ensures
            r@ == restored(state@, state_folder@),
    {
        RoboNote { active_vault: state.active_vault, vaults: state.vaults, state_folder: state_folder.clone() }
    }

    /// Registers a vault rooted at `path` and makes it the active one.
    pub fn create_vault(&mut self, path: String)
        requires
            old(self)@.vaults.len() < usize::MAX,
        ensures
            final(self)@ == with_vault(old(self)@, path@),
    {
        self.vaults.push(Vault::new(path));
        self.active_vault = Some(self.vaults.len() - 1);
        assert(self@.vaults =~= old(self)@.vaults.push(path@));
    }

    /// The current vault, to add notes to: the active one, or the first one
    /// when none is active; none when there is no such vault.
    pub fn get_current(&mut self) -> (r: Option<&mut Vault>)
        ensures
            r is Some <==> current_index(old(self)@) is Some,
            r is None ==> final(self)@ == old(self)@,
            match r {
                Some(v) => {
                    let i = current_index(old(self)@)->Some_0;
                    &&& v@ == old(self)@.vaults[i]
                    &&& final(self)@ == (RoboNoteModel { vaults: old(self)@.vaults.update(i, final(v)@), ..old(self)@ })
                },
                None => true,
            },
    {
        let len = self.vaults.len();
        let i: usize = match self.active_vault {
            Some(i) => i,
            None => 0,
        };
        if i < len {
            proof {
                lemma_update_views(self.vaults@, i as int);
            }
            Some(&mut self.vaults[i])
        } else {
            None
        }
    }

    /// The vaults in the order they were registered, each with whether it is
    /// the active one (the first when none is set).
    pub fn list_vaults(&self) -> (r: Vec<(bool, String)>)
        ensures
            r@.len() == self@.vaults.len(),
            forall|i: int| 0 <= i < r@.len() ==> {
                &&& (#[trigger] r@[i]).1@ == self@.vaults[i]
                &&& r@[i].0 == (i == match self@.active_vault {
                    Some(a) => a as int,
                    None => 0,
                })
            },
    {
        let active: usize = match self.active_vault {
            Some(a) => a,
            None => 0,
        };
        let mut out: Vec<(bool, String)> = Vec::new();
        let mut i: usize = 0;
        while i < self.vaults.len()
            invariant
                i <= self.vaults.len(),
                out@.len() == i,
                forall|j: int| 0 <= j < i ==> {
                    &&& (#[trigger] out@[j]).1@ == self@.vaults[j]
                    &&& out@[j].0 == (j == active as int)
                },
            decreases self.vaults.len() - i,
        {
            out.push((i == active, self.vaults[i].to_string()));
            i = i + 1;
        }
        out
    }

    /// The folder of the state file.
    pub fn state_folder(&self) -> (r: &String)
        ensures
            r@ == self@.state_folder,
    {
        &self.state_folder
    }

    /// What saving the state writes: the document, and the state file with
    /// its folder, which must exist first.
    pub fn save(&self) -> (r: (FileTarget, StateDocument))
        ensures
            r.0.dir@ == self@.state_folder,
            r.0.path@ == state_file(self@.state_folder),
            r.1@ == document_of(self@),
    {
        let path = state_file_of(&self.state_folder);
        let doc = StateDocument { active_vault: self.active_vault, vaults: copy_vaults(&self.vaults) };
        (FileTarget { dir: self.state_folder.clone(), path }, doc)
    }
}

/// Saving a state and reading it back from the same folder gives the same
/// vaults, in the same order, and the same active vault.
pub proof fn lemma_state_round_trip(s: RoboNoteModel)
    ensures
        restored(document_of(s), s.state_folder) == s,
        restored(document_of(s), s.state_folder).vaults.len() == s.vaults.len(),
        restored(document_of(s), s.state_folder).active_vault == s.active_vault,
{
}

/// Registering a vault always makes it the current one: after two
/// registrations, the vault current is the second.
pub proof fn lemma_new_vault_is_current(s: RoboNoteModel, p1: Seq<char>, p2: Seq<char>)
    requires
        s.vaults.len() + 2 <= usize::MAX,
    ensures
        current_index(with_vault(with_vault(s, p1), p2)) == Some(s.vaults.len() + 1int),
        with_vault(with_vault(s, p1), p2).vaults[s.vaults.len() + 1int] == p2,
{
}

} // verus!
