//! Session-authorized, read-only access to workspace artifacts.
use vstd::prelude::*;

use crate::adjacent_sessions::SessionWorkspace;
use crate::text::same;
use crate::types::RpcError;

verus! {

/// The first of the session's workspaces with this directory.
pub open spec fn workspace_at(workspaces: Seq<SessionWorkspace>, dir: Seq<char>) -> Option<
    SessionWorkspace,
>
    decreases workspaces.len(),
{
    if workspaces.len() == 0 {
        None
    } else if workspaces[0].workspace_dir@ == dir {
        Some(workspaces[0])
    } else {
        workspace_at(workspaces.skip(1), dir)
    }
}

/// Only a workspace of the session is read.
pub fn workspace<'a>(workspaces: &'a Vec<SessionWorkspace>, workspace_dir: &str) -> (r: Result<
    &'a SessionWorkspace,
    RpcError,
>)
    ensures
        match workspace_at(workspaces@, workspace_dir@) {
            Some(w) => r matches Ok(found) && *found == w,
            None => r matches Err(e) && e@ == (
                "workspace_not_found"@,
                "workspace is not a member of the session"@,
            ),
        },
{
    let mut i: usize = 0;
    assert(workspaces@.skip(0) == workspaces@);
    while i < workspaces.len()
        invariant
            i <= workspaces.len(),
            workspace_at(workspaces@, workspace_dir@) == workspace_at(
                workspaces@.skip(i as int),
                workspace_dir@,
            ),
        decreases workspaces.len() - i,
    {
        let ghost rest = workspaces@.skip(i as int);
        assert(rest[0] == workspaces@[i as int]);
        assert(rest.skip(1) == workspaces@.skip(i + 1));
        if same(workspaces[i].workspace_dir.as_str(), workspace_dir) {
            return Ok(&workspaces[i]);
        }
        i += 1;
    }
    Err(RpcError::new("workspace_not_found", "workspace is not a member of the session"))
}

/// A workspace is found exactly when the session has one with that very
/// directory, and then it is the first of them.
pub proof fn law_workspaces_are_found_by_directory(
    workspaces: Seq<SessionWorkspace>,
    dir: Seq<char>,
    i: int,
)
    ensures
        0 <= i < workspaces.len() && workspaces[i].workspace_dir@ == dir && (forall|j: int|
            0 <= j < i ==> (#[trigger] workspaces[j]).workspace_dir@ != dir) ==> workspace_at(
            workspaces,
            dir,
        ) == Some(workspaces[i]),
        (forall|j: int|
            0 <= j < workspaces.len() ==> (#[trigger] workspaces[j]).workspace_dir@ != dir)
            ==> workspace_at(workspaces, dir) is None,
    decreases workspaces.len(),
{
    if workspaces.len() > 0 {
        let rest = workspaces.skip(1);
        assert forall|j: int| 0 <= j < rest.len() implies #[trigger] rest[j] == workspaces[j + 1] by {
        }
        law_workspaces_are_found_by_directory(rest, dir, i - 1);
    }
}

} // verus!
