//! Workspaces: named tab collections with one active at a time.
//!
//! The library owns the rules — identifier uniqueness, protection of the last
//! and the active workspace, case-insensitive name conflicts — while the
//! surrounding application reads and writes the state file.

use vstd::prelude::*;

use crate::text::{lower_of, lowercase};
use vstd::string::StringExecFns;

verus! {

/// One workspace: an identifier, a display name, and the directory its tabs
/// live in.
#[derive(Debug, Clone, PartialEq, Eq)]
pub struct Workspace {
    /// Identifier, unique within a state.
    pub id: String,
    /// Display name.
    pub name: String,
    /// Directory the workspace's tabs are stored in.
    pub path: String,
}

/// Every workspace, and which one is active.
#[derive(Debug, Clone, PartialEq, Eq)]
pub struct WorkspaceState {
    /// The identifier of the active workspace, if one is set.
    pub active_workspace: Option<String>,
    /// All workspaces, in creation order.
    pub workspaces: Vec<Workspace>,
}

/// Why a workspace operation was refused.
#[derive(Debug, Clone, PartialEq, Eq)]
pub enum WorkspaceError {
    /// A workspace with this name (or identifier) already exists.
    AlreadyExists(String),
    /// The last remaining workspace cannot be deleted.
    LastWorkspace,
    /// The active workspace cannot be deleted.
    ActiveWorkspace,
    /// No workspace has this identifier.
    NotFound(String),
}

impl WorkspaceError {
    /// The user-facing description of the refusal.
    pub fn message(&self) -> (r: String)
        ensures
            self matches WorkspaceError::AlreadyExists(n) ==> r@ == "Workspace with name '"@ + n@
                + "' already exists"@,
            self matches WorkspaceError::LastWorkspace ==> r@ == "Cannot delete the last workspace"@,
            self matches WorkspaceError::ActiveWorkspace ==> r@
                == "Cannot delete the active workspace"@,
            self matches WorkspaceError::NotFound(id) ==> r@ == "Workspace '"@ + id@
                + "' not found"@,
    {
        match self {
            WorkspaceError::AlreadyExists(n) => {
                let mut s = "Workspace with name '".to_owned();
                s.append(n.as_str());
                s.append("' already exists");
                s
            },
            WorkspaceError::LastWorkspace => "Cannot delete the last workspace".to_owned(),
            WorkspaceError::ActiveWorkspace => "Cannot delete the active workspace".to_owned(),
            WorkspaceError::NotFound(id) => {
                let mut s = "Workspace '".to_owned();
                s.append(id.as_str());
                s.append("' not found");
                s
            },
        }
    }
}

/// Whether some workspace of `ws` has the identifier `id`.
pub open spec fn spec_has_id(ws: Seq<Workspace>, id: Seq<char>) -> bool {
    exists|i: int| 0 <= i < ws.len() && #[trigger] ws[i].id@ == id
}

/// Look an identifier up in a workspace list.
pub fn has_id(ws: &Vec<Workspace>, id: &str) -> (r: bool)
    ensures
        r == spec_has_id(ws@, id@),
{
    let wanted = id.to_owned();
    let mut i: usize = 0;
    while i < ws.len()
        invariant
            i <= ws@.len(),
            wanted@ == id@,
            forall|j: int| 0 <= j < i ==> #[trigger] ws@[j].id@ != id@,
        decreases ws@.len() - i,
    {
        let w = &ws[i];
        if w.id == wanted {
            return true;
        }
        i = i + 1;
    }
    false
}

/// `ws` with every workspace whose identifier is `id` taken out, order kept.
pub open spec fn spec_without_id(ws: Seq<Workspace>, id: Seq<char>) -> Seq<Workspace>
    decreases ws.len(),
{
    if ws.len() == 0 {
        Seq::empty()
    } else if ws[0].id@ == id {
        spec_without_id(ws.skip(1), id)
    } else {
        seq![ws[0]] + spec_without_id(ws.skip(1), id)
    }
}

fn retain_without_id(ws: &mut Vec<Workspace>, id: &str)
    ensures
        final(ws)@ == spec_without_id(old(ws)@, id@),
{
    let wanted = id.to_owned();
    let mut i: usize = 0;
    proof {
        assert(ws@.subrange(0, 0) =~= Seq::<Workspace>::empty());
        assert(ws@.skip(0) =~= ws@);
        assert(Seq::<Workspace>::empty() + spec_without_id(ws@, id@) =~= spec_without_id(
            ws@,
            id@,
        ));
    }
    while i < ws.len()
        invariant
            i <= ws@.len(),
            wanted@ == id@,
            spec_without_id(old(ws)@, id@) == ws@.subrange(0, i as int) + spec_without_id(
                ws@.skip(i as int),
                id@,
            ),
        decreases ws@.len() - i,
    {
        let ghost prev = ws@;
        proof {
            assert(prev.skip(i as int)[0] == prev[i as int]);
            assert(prev.skip(i as int).skip(1) =~= prev.skip(i + 1));
        }
        let hit = ws[i].id == wanted;
        if hit {
            ws.remove(i);
            proof {
                assert(spec_without_id(prev.skip(i as int), id@) == spec_without_id(
                    prev.skip(i + 1),
                    id@,
                ));
                assert(ws@ =~= prev.subrange(0, i as int) + prev.skip(i + 1));
                assert(ws@.subrange(0, i as int) =~= prev.subrange(0, i as int));
                assert(ws@.skip(i as int) =~= prev.skip(i + 1));
            }
        } else {
            proof {
                assert(spec_without_id(prev.skip(i as int), id@) == seq![prev[i as int]]
                    + spec_without_id(prev.skip(i + 1), id@));
                assert(prev.subrange(0, i as int) + (seq![prev[i as int]] + spec_without_id(
                    prev.skip(i + 1),
                    id@,
                )) =~= (prev.subrange(0, i as int) + seq![prev[i as int]]) + spec_without_id(
                    prev.skip(i + 1),
                    id@,
                ));
                assert(prev.subrange(0, i as int) + seq![prev[i as int]] =~= prev.subrange(
                    0,
                    i + 1,
                ));
            }
            i = i + 1;
        }
    }
    proof {
        assert(ws@.skip(i as int) =~= Seq::<Workspace>::empty());
        assert(spec_without_id(Seq::<Workspace>::empty(), id@) == Seq::<Workspace>::empty());
        assert(ws@.subrange(0, i as int) =~= ws@);
        assert(ws@ + Seq::<Workspace>::empty() =~= ws@);
    }
}

/// Add `workspace` to the state. Refused, with the state unchanged, when a
/// workspace with the same identifier already exists; the refusal carries the
/// new workspace's display name. Otherwise the workspace is appended and the
/// active workspace is untouched.
pub fn add_workspace(state: &mut WorkspaceState, workspace: Workspace) -> (r: Result<
    (),
    WorkspaceError,
>)
    ensures
        spec_has_id(old(state).workspaces@, workspace.id@) ==> (r matches Err(
            WorkspaceError::AlreadyExists(n),
        ) && n@ == workspace.name@ && *final(state) == *old(state)),
        !spec_has_id(old(state).workspaces@, workspace.id@) ==> (r is Ok && final(state).workspaces@ == old(state).workspaces@.push(workspace) && final(state).active_workspace
            == old(state).active_workspace),
{
    if has_id(&state.workspaces, workspace.id.as_str()) {
        Err(WorkspaceError::AlreadyExists(workspace.name))
    } else {
        state.workspaces.push(workspace);
        Ok(())
    }
}

/// Delete the workspace with identifier `workspace_id`. Refused, with the
/// state unchanged, when only one workspace is left or when the identifier
/// names the active workspace. Otherwise every workspace carrying the
/// identifier is removed; deleting an unknown identifier is a no-op, as a
/// second delete of the same identifier would be.
pub fn delete_workspace(state: &mut WorkspaceState, workspace_id: &str) -> (r: Result<
    (),
    WorkspaceError,
>)
    ensures
        old(state).workspaces@.len() <= 1 ==> (r matches Err(WorkspaceError::LastWorkspace) && *final(state) == *old(state)),
        old(state).workspaces@.len() > 1 && (old(state).active_workspace matches Some(a) && a@
            == workspace_id@) ==> (r matches Err(WorkspaceError::ActiveWorkspace) && *final(state)
            == *old(state)),
        old(state).workspaces@.len() > 1 && !(old(state).active_workspace matches Some(a) && a@
            == workspace_id@) ==> (r is Ok && final(state).workspaces@ == spec_without_id(
            old(state).workspaces@,
            workspace_id@,
        ) && final(state).active_workspace == old(state).active_workspace),
{
    if state.workspaces.len() <= 1 {
        return Err(WorkspaceError::LastWorkspace);
    }
    let wanted = workspace_id.to_owned();
    let is_active = match &state.active_workspace {
        Some(a) => *a == wanted,
        None => false,
    };
    if is_active {
        return Err(WorkspaceError::ActiveWorkspace);
    }
    retain_without_id(&mut state.workspaces, workspace_id);
    Ok(())
}

/// Make `workspace_id` the active workspace. Refused, with the state
/// unchanged and the refusal carrying the identifier, when no workspace has
/// it.
pub fn set_active_workspace(state: &mut WorkspaceState, workspace_id: &str) -> (r: Result<
    (),
    WorkspaceError,
>)
    ensures
        !spec_has_id(old(state).workspaces@, workspace_id@) ==> (r matches Err(
            WorkspaceError::NotFound(id),
        ) && id@ == workspace_id@ && *final(state) == *old(state)),
        spec_has_id(old(state).workspaces@, workspace_id@) ==> (r is Ok && final(state).workspaces
            == old(state).workspaces && (final(state).active_workspace matches Some(a) && a@
            == workspace_id@)),
{
    if has_id(&state.workspaces, workspace_id) {
        state.active_workspace = Some(workspace_id.to_owned());
        Ok(())
    } else {
        Err(WorkspaceError::NotFound(workspace_id.to_owned()))
    }
}

/// Whether some workspace other than `id` already uses `name_lower` as its
/// name, compared case-insensitively.
pub open spec fn spec_name_conflict(ws: Seq<Workspace>, name_lower: Seq<char>, id: Seq<char>) -> bool {
    exists|i: int|
        0 <= i < ws.len() && lower_of(#[trigger] ws[i].name@) == name_lower && ws[i].id@ != id
}

fn find_name_conflict(ws: &Vec<Workspace>, new_name: &str, id: &str) -> (r: bool)
    ensures
        r == spec_name_conflict(ws@, lower_of(new_name@), id@),
{
    let wanted_name = lowercase(new_name);
    let wanted_id = id.to_owned();
    let mut i: usize = 0;
    while i < ws.len()
        invariant
            i <= ws@.len(),
            wanted_name@ == lower_of(new_name@),
            wanted_id@ == id@,
            forall|j: int| 0 <= j < i ==> !(lower_of(#[trigger] ws@[j].name@) == lower_of(new_name@)
                && ws@[j].id@ != id@),
        decreases ws@.len() - i,
    {
        let candidate = lowercase(ws[i].name.as_str());
        let same_name = candidate == wanted_name;
        let same_id = ws[i].id == wanted_id;
        if same_name && !same_id {
            return true;
        }
        i = i + 1;
    }
    false
}

/// Give the workspace with identifier `workspace_id` the display name
/// `new_name`. Refused, with the state unchanged, when another workspace
/// already carries the name (compared case-insensitively), or when no
/// workspace has the identifier. On success exactly the first workspace with
/// the identifier is renamed and everything else is untouched.
pub fn rename_workspace(state: &mut WorkspaceState, workspace_id: &str, new_name: String) -> (r:
    Result<(), WorkspaceError>)
    ensures
        spec_name_conflict(old(state).workspaces@, lower_of(new_name@), workspace_id@)
            ==> (r matches Err(WorkspaceError::AlreadyExists(n)) && n@ == new_name@ && *final(state)
            == *old(state)),
        !spec_name_conflict(old(state).workspaces@, lower_of(new_name@), workspace_id@)
            && !spec_has_id(old(state).workspaces@, workspace_id@) ==> (r matches Err(
            WorkspaceError::NotFound(id),
        ) && id@ == workspace_id@ && *final(state) == *old(state)),
        !spec_name_conflict(old(state).workspaces@, lower_of(new_name@), workspace_id@)
            && spec_has_id(old(state).workspaces@, workspace_id@) ==> (r is Ok && final(state).active_workspace == old(state).active_workspace && exists|i: int|
            {
                &&& 0 <= i < old(state).workspaces@.len()
                &&& (#[trigger] old(state).workspaces@[i]).id@ == workspace_id@
                &&& (forall|j: int| 0 <= j < i ==> old(state).workspaces@[j].id@ != workspace_id@)
                &&& final(state).workspaces@ == old(state).workspaces@.update(
                    i,
                    Workspace {
                        id: old(state).workspaces@[i].id,
                        name: new_name,
                        path: old(state).workspaces@[i].path,
                    },
                )
            }),
{
    if find_name_conflict(&state.workspaces, new_name.as_str(), workspace_id) {
        return Err(WorkspaceError::AlreadyExists(new_name));
    }
    let wanted = workspace_id.to_owned();
    let mut i: usize = 0;
    while i < state.workspaces.len()
        invariant
            i <= state.workspaces@.len(),
            state == old(state),
            !spec_name_conflict(old(state).workspaces@, lower_of(new_name@), workspace_id@),
            forall|j: int| 0 <= j < i ==> #[trigger] state.workspaces@[j].id@ != workspace_id@,
            wanted@ == workspace_id@,
        decreases state.workspaces@.len() - i,
    {
        let hit = state.workspaces[i].id == wanted;
        if hit {
            let found = state.workspaces.remove(i);
            let renamed = Workspace { id: found.id, name: new_name, path: found.path };
            proof {
                assert(old(state).workspaces@.remove(i as int).insert(i as int, renamed)
                    =~= old(state).workspaces@.update(i as int, renamed));
            }
            state.workspaces.insert(i, renamed);
            return Ok(());
        }
        i = i + 1;
    }
    Err(WorkspaceError::NotFound(workspace_id.to_owned()))
}

/// `s` with every space replaced by a hyphen.
pub open spec fn spec_hyphenated(s: Seq<char>) -> Seq<char>
    decreases s.len(),
{
    if s.len() == 0 {
        Seq::empty()
    } else {
        (if s[0] == ' ' {
            seq!['-']
        } else {
            seq![s[0]]
        }) + spec_hyphenated(s.skip(1))
    }
}

/// The identifier derived from a workspace's display name: the name
/// lowercased, each space replaced by a hyphen.
pub fn derive_workspace_id(name: &str) -> (r: String)
    ensures
        r@ == spec_hyphenated(lower_of(name@)),
{
    let lower = lowercase(name);
    let n = lower.as_str().unicode_len();
    let mut out = String::new();
    let mut i: usize = 0;
    proof {
        assert(lower@.skip(0) =~= lower@);
        assert(Seq::<char>::empty() + spec_hyphenated(lower@) =~= spec_hyphenated(lower@));
    }
    while i < n
        invariant
            i <= n,
            n == lower@.len(),
            lower@ == lower_of(name@),
            spec_hyphenated(lower@) == out@ + spec_hyphenated(lower@.skip(i as int)),
        decreases n - i,
    {
        let ghost rest = lower@.skip(i as int);
        let ghost before = out@;
        proof {
            assert(rest[0] == lower@[i as int]);
            assert(rest.skip(1) =~= lower@.skip(i + 1));
            reveal_strlit("-");
        }
        let c = lower.as_str().get_char(i);
        if c == ' ' {
            out.append("-");
        } else {
            let piece = lower.as_str().substring_char(i, i + 1);
            out.append(piece);
        }
        proof {
            let piece_seq = if lower@[i as int] == ' ' {
                seq!['-']
            } else {
                seq![lower@[i as int]]
            };
            assert("-"@ =~= seq!['-']);
            assert(lower@.subrange(i as int, i + 1) =~= seq![lower@[i as int]]);
            assert(out@ =~= before + piece_seq);
            assert(spec_hyphenated(rest) == piece_seq + spec_hyphenated(lower@.skip(i + 1)));
            assert(before + (piece_seq + spec_hyphenated(lower@.skip(i + 1))) =~= (before
                + piece_seq) + spec_hyphenated(lower@.skip(i + 1)));
        }
        i = i + 1;
    }
    proof {
        assert(lower@.skip(i as int) =~= Seq::<char>::empty());
        assert(spec_hyphenated(Seq::<char>::empty()) == Seq::<char>::empty());
        assert(out@ + Seq::<char>::empty() =~= out@);
    }
    out
}

/// The path of the workspace state file under the configuration directory
/// `base`.
pub fn get_workspace_state_file(base: &str) -> (r: String)
    ensures
        r@ == base@ + "/com.comet.dev/workspaces/state.json"@,
{
    let mut s = base.to_owned();
    s.append("/com.comet.dev/workspaces/state.json");
    s
}

/// The directory the tabs of workspace `workspace_id` are stored in, under
/// the configuration directory `base`.
pub fn get_workspace_tabs_dir(base: &str, workspace_id: &str) -> (r: String)
    ensures
        r@ == base@ + "/com.comet.dev/workspaces/"@ + workspace_id@ + "/tabs"@,
{
    let mut s = base.to_owned();
    s.append("/com.comet.dev/workspaces/");
    s.append(workspace_id);
    s.append("/tabs");
    s
}

/// The state a fresh installation starts with: one workspace named
/// `Default`, active.
pub fn default_workspace_state(base: &str) -> (r: WorkspaceState)
    ensures
        r.active_workspace matches Some(a) && a@ == "default"@,
        r.workspaces@.len() == 1,
        r.workspaces@[0].id@ == "default"@,
        r.workspaces@[0].name@ == "Default"@,
        r.workspaces@[0].path@ == base@ + "/com.comet.dev/workspaces/"@ + "default"@ + "/tabs"@,
{
    let path = get_workspace_tabs_dir(base, "default");
    let workspace = Workspace { id: "default".to_owned(), name: "Default".to_owned(), path };
    let mut workspaces: Vec<Workspace> = Vec::new();
    workspaces.push(workspace);
    WorkspaceState { active_workspace: Some("default".to_owned()), workspaces }
}

} // verus!
