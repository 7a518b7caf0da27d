//! Workspaces: creating them, importing and writing the portable snapshot kept
//! at a sync path, and the rule that protects the default workspace.
use crate::model::{SavedRequest, StoreError, Workspace, WorkspaceFile};
use vstd::prelude::*;

verus! {

/// Relies on uuid's `Uuid::new_v4` and its `Display`, which writes the
/// lower-case hyphenated form of a version 4, RFC variant identifier.
#[verifier::external_body]
fn fresh_id() -> (r: String)
    ensures
        is_fresh_id(r@),
{
    uuid::Uuid::new_v4().to_string()
}

/// Relies on chrono's `Utc::now` and `DateTime::to_rfc3339`: the current time
/// as text.
#[verifier::external_body]
pub(crate) fn now_rfc3339() -> (r: String) {
    chrono::Utc::now().to_rfc3339()
}

/// The snapshot format version written by this library.
pub open spec fn snapshot_version() -> Seq<char> {
    "1.0.0"@
}

/// A lower-case hexadecimal digit.
pub open spec fn is_lower_hex(c: char) -> bool {
    ('0' <= c && c <= '9') || ('a' <= c && c <= 'f')
}

/// An identifier as handed out to a new or imported workspace: a random
/// UUID in hyphenated form, `xxxxxxxx-xxxx-4xxx-Vxxx-xxxxxxxxxxxx` with `V`
/// one of `8`, `9`, `a`, `b`. Such an identifier is never the reserved
/// `"default"`.
pub open spec fn is_fresh_id(id: Seq<char>) -> bool {
    &&& id.len() == 36
    &&& forall|i: int|
        0 <= i < 36 ==> if i == 8 || i == 13 || i == 18 || i == 23 {
            #[trigger] id[i] == '-'
        } else {
            is_lower_hex(id[i])
        }
    &&& id[14] == '4'
    &&& (id[19] == '8' || id[19] == '9' || id[19] == 'a' || id[19] == 'b')
}

/// `f` is the snapshot of `w` holding `requests` and `selected`.
pub open spec fn is_snapshot_of(
    f: WorkspaceFile,
    w: Workspace,
    requests: Seq<SavedRequest>,
    selected: Option<i64>,
) -> bool {
    &&& f.name == w.name
    &&& f.created_at == w.created_at
    &&& f.requests@ == requests
    &&& f.selected_request_id == selected
    &&& f.version@ == snapshot_version()
}

/// `r` is the outcome of importing from `path`, where `file` is what was
/// read there: nothing, a read or decode failure, or a snapshot.
pub open spec fn is_import_of(
    r: Result<Workspace, StoreError>,
    path: String,
    file: Option<Result<WorkspaceFile, StoreError>>,
) -> bool {
    match file {
        None => r matches Err(StoreError::WorkspaceNotFound),
        Some(Err(e)) => r == Err::<Workspace, StoreError>(e),
        Some(Ok(f)) => match r {
            Ok(w) => {
                &&& is_fresh_id(w.id@)
                &&& w.name == f.name
                &&& w.created_at == f.created_at
                &&& w.sync_path == Some(path)
            },
            Err(_) => false,
        },
    }
}

/// A new workspace, and the snapshot to write at its sync path, if it has one.
#[derive(Debug)]
pub struct CreatedWorkspace {
    pub workspace: Workspace,
    pub snapshot: Option<WorkspaceFile>,
}

/// The workspace header of a creation outcome.
pub open spec fn header_of(r: Result<CreatedWorkspace, StoreError>) -> Result<Workspace, StoreError> {
    match r {
        Ok(c) => Ok(c.workspace),
        Err(e) => Err(e),
    }
}

/// `r` is the outcome of creating a workspace named `name` at `sync_path`,
/// where `existing` is what was read from a snapshot already there.
pub open spec fn is_creation_of(
    r: Result<CreatedWorkspace, StoreError>,
    name: String,
    sync_path: Option<String>,
    existing: Option<Result<WorkspaceFile, StoreError>>,
) -> bool {
    match sync_path {
        Some(p) if existing is Some => {
            &&& is_import_of(header_of(r), p, existing)
            &&& r matches Ok(c) ==> c.snapshot is None
        },
        _ => match r {
            Ok(c) => {
                &&& is_fresh_id(c.workspace.id@)
                &&& c.workspace.name == name
                &&& c.workspace.sync_path == sync_path
                &&& match sync_path {
                    Some(_) => c.snapshot matches Some(f) && is_snapshot_of(
                        f,
                        c.workspace,
                        Seq::empty(),
                        None,
                    ),
                    None => c.snapshot is None,
                }
            },
            Err(_) => false,
        },
    }
}

/// A new workspace under a fresh identifier, created now, with no sync path.
pub fn create_workspace(name: String) -> (r: Workspace)
    ensures
        is_fresh_id(r.id@),
        r.id@ != "default"@,
        r.name == name,
        r.sync_path is None,
{
    let id = fresh_id();
    proof {
        reveal_strlit("default");
    }
    Workspace { id, name, created_at: now_rfc3339(), sync_path: None }
}

/// The workspace described by the snapshot read at `path`, under a fresh
/// identifier; fails when no snapshot was there or it could not be read.
pub fn import_workspace_from_path(
    path: String,
    file: Option<Result<WorkspaceFile, StoreError>>,
) -> (r: Result<Workspace, StoreError>)
    ensures
        is_import_of(r, path, file),
{
    match file {
        None => Err(StoreError::WorkspaceNotFound),
        Some(Err(e)) => Err(e),
        Some(Ok(f)) => {
            let WorkspaceFile { name, created_at, .. } = f;
            Ok(Workspace { id: fresh_id(), name, created_at, sync_path: Some(path) })
        },
    }
}

/// The snapshot of `workspace` holding `requests` and `selected_request_id`.
pub fn workspace_snapshot(
    workspace: &Workspace,
    requests: Vec<SavedRequest>,
    selected_request_id: Option<i64>,
) -> (f: WorkspaceFile)
    ensures
        is_snapshot_of(f, *workspace, requests@, selected_request_id),
{
    WorkspaceFile {
        name: workspace.name.clone(),
        requests,
        selected_request_id,
        created_at: workspace.created_at.clone(),
        version: String::from_str("1.0.0"),
    }
}

/// Creates a workspace, or imports the one already at `sync_path`: a
/// snapshot found there takes precedence over a blank workspace. A new
/// workspace with a sync path comes with an empty snapshot to write there.
/// `existing` is what was read at the sync path; without a sync path it is
/// not looked at.
pub fn create_workspace_with_path(
    name: String,
    sync_path: Option<String>,
    existing: Option<Result<WorkspaceFile, StoreError>>,
) -> (r: Result<CreatedWorkspace, StoreError>)
    ensures
        is_creation_of(r, name, sync_path, existing),
{
    if sync_path.is_some() && existing.is_some() {
        let path = sync_path.unwrap();
        match import_workspace_from_path(path, existing) {
            Ok(w) => Ok(CreatedWorkspace { workspace: w, snapshot: None }),
            Err(e) => Err(e),
        }
    } else {
        let mut workspace = create_workspace(name);
        workspace.sync_path = sync_path;
        let snapshot = if workspace.sync_path.is_some() {
            Some(workspace_snapshot(&workspace, Vec::new(), None))
        } else {
            None
        };
        Ok(CreatedWorkspace { workspace, snapshot })
    }
}

/// Creating at a path that already holds a snapshot gives what importing
/// that path gives: the same failure, or the same name, creation time and
/// sync path under a fresh identifier, and nothing to write.
pub proof fn create_at_existing_path_imports(
    name: String,
    path: String,
    existing: Option<Result<WorkspaceFile, StoreError>>,
    created: Result<CreatedWorkspace, StoreError>,
    imported: Result<Workspace, StoreError>,
)
    requires
        existing is Some,
        is_creation_of(created, name, Some(path), existing),
        is_import_of(imported, path, existing),
    ensures
        match (created, imported) {
            (Ok(c), Ok(w)) => {
                &&& c.snapshot is None
                &&& is_fresh_id(c.workspace.id@)
                &&& is_fresh_id(w.id@)
                &&& c.workspace.name == w.name
                &&& c.workspace.created_at == w.created_at
                &&& c.workspace.sync_path == w.sync_path
            },
            (Err(e1), Err(e2)) => e1 == e2,
            _ => false,
        },
{
}

/// Deletes a workspace; the default workspace cannot be deleted. Removing the
/// workspace's records from the stores is left to the caller.
pub fn delete_workspace(workspace_id: &String) -> (r: Result<(), StoreError>)
    ensures
        r is Err <==> workspace_id@ == "default"@,
        r is Err ==> r matches Err(StoreError::CannotDeleteDefault),
{
    let reserved = String::from_str("default");
    if *workspace_id == reserved {
        Err(StoreError::CannotDeleteDefault)
    } else {
        Ok(())
    }
}

} // verus!
