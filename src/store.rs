//! Where the two stores live and what a load returns: the saved requests and
//! the workspace registry, with their defaults when no file exists yet.
use crate::model::{RequestsData, StoreError, Workspace, WorkspaceData};
use crate::workspace::now_rfc3339;
use std::collections::HashMap;
use std::path::PathBuf;
use vstd::prelude::*;

verus! {

#[verifier::external_type_specification]
#[verifier::external_body]
pub struct ExPathBuf(PathBuf);

/// Relies on `dirs::data_dir`: the per-user data directory of the platform,
/// if it has one.
#[verifier::external_body]
fn data_root() -> (r: Option<PathBuf>) {
    dirs::data_dir()
}

/// What `Path::join` makes of a directory and a relative component.
pub uninterp spec fn joined(dir: PathBuf, file: Seq<char>) -> PathBuf;

/// What `PathBuf::from` makes of a text.
pub uninterp spec fn path_from(s: Seq<char>) -> PathBuf;

/// Relies on `Path::join`: `dir` followed by the component `file`; the result
/// depends on the two arguments alone.
#[verifier::external_body]
fn join_path(dir: &PathBuf, file: &str) -> (r: PathBuf)
    ensures
        r == joined(*dir, file@),
{
    dir.join(file)
}

/// Relies on `PathBuf::from`: the path spelled by a text.
#[verifier::external_body]
fn path_of(s: &str) -> (r: PathBuf)
    ensures
        r == path_from(s@),
{
    PathBuf::from(s)
}

/// The directory of this application under the platform's data directory;
/// without a data directory there is none.
pub fn app_data_dir_in(data_root: Option<PathBuf>) -> (r: Result<PathBuf, StoreError>)
    ensures
        data_root is None <==> r is Err,
        data_root matches Some(root) ==> r == Ok::<PathBuf, StoreError>(joined(root, "BATHTTP"@)),
        r is Err ==> r matches Err(StoreError::DirectoryUnavailable),
{
    match data_root {
        Some(root) => Ok(join_path(&root, "BATHTTP")),
        None => Err(StoreError::DirectoryUnavailable),
    }
}

/// Locates the directory of this application, `BATHTTP` under the platform's
/// data directory when there is one; creating it is left to the caller.
pub fn locate_app_data_dir() -> (r: Result<PathBuf, StoreError>)
    ensures
        r is Err ==> r matches Err(StoreError::DirectoryUnavailable),
        r matches Ok(d) ==> exists|root: PathBuf| d == joined(root, "BATHTTP"@),
{
    app_data_dir_in(data_root())
}

/// The file of the workspace registry in the application's directory.
pub fn get_workspaces_file_path(app_data_dir: Result<PathBuf, StoreError>) -> (r: Result<PathBuf, StoreError>)
    ensures
        r is Ok <==> app_data_dir is Ok,
        app_data_dir matches Err(e) ==> r == Err::<PathBuf, StoreError>(e),
        app_data_dir matches Ok(d) ==> r == Ok::<PathBuf, StoreError>(joined(d, "workspaces.json"@)),
{
    match app_data_dir {
        Ok(dir) => Ok(join_path(&dir, "workspaces.json")),
        Err(e) => Err(e),
    }
}

/// The file of the saved requests in the application's directory.
pub fn get_requests_file_path(app_data_dir: Result<PathBuf, StoreError>) -> (r: Result<PathBuf, StoreError>)
    ensures
        r is Ok <==> app_data_dir is Ok,
        app_data_dir matches Err(e) ==> r == Err::<PathBuf, StoreError>(e),
        app_data_dir matches Ok(d) ==> r == Ok::<PathBuf, StoreError>(joined(d, "requests.json"@)),
{
    match app_data_dir {
        Ok(dir) => Ok(join_path(&dir, "requests.json")),
        Err(e) => Err(e),
    }
}

/// The snapshot file kept in a sync directory.
pub fn workspace_file_path(sync_path: &String) -> (r: PathBuf)
    ensures
        r == joined(path_from(sync_path@), "workspace.json"@),
{
    join_path(&path_of(sync_path.as_str()), "workspace.json")
}

/// The saved requests, given what was read from their file: nothing when the
/// file is absent, which yields an empty collection with no selection.
pub fn load_requests(stored: Option<Result<RequestsData, StoreError>>) -> (r: Result<RequestsData, StoreError>)
    ensures
        match stored {
            None => r matches Ok(d) && d.requests@.len() == 0 && d.selected_request_id is None,
            Some(s) => r == s,
        },
{
    match stored {
        None => Ok(RequestsData { requests: Vec::new(), selected_request_id: None }),
        Some(s) => s,
    }
}

/// `d` is the registry made on first use: the one default workspace, current,
/// created at `created_at`, with no requests and no selections.
pub open spec fn is_default_data(d: WorkspaceData, created_at: String) -> bool {
    &&& d.workspaces@.len() == 1
    &&& d.workspaces@[0].id@ == "default"@
    &&& d.workspaces@[0].name@ == "Mon Workspace"@
    &&& d.workspaces@[0].created_at == created_at
    &&& d.workspaces@[0].sync_path is None
    &&& d.current_workspace_id@ == "default"@
    &&& d.requests_by_workspace@ == Map::<String, Vec<crate::model::SavedRequest>>::empty()
    &&& d.selected_request_id_by_workspace@ == Map::<String, Option<i64>>::empty()
}

/// The registry made on first use.
pub fn default_workspace_data(created_at: String) -> (d: WorkspaceData)
    ensures
        is_default_data(d, created_at),
{
    let workspace = Workspace {
        id: String::from_str("default"),
        name: String::from_str("Mon Workspace"),
        created_at,
        sync_path: None,
    };
    let mut workspaces = Vec::new();
    workspaces.push(workspace);
    WorkspaceData {
        workspaces,
        current_workspace_id: String::from_str("default"),
        requests_by_workspace: HashMap::new(),
        selected_request_id_by_workspace: HashMap::new(),
    }
}

/// The registry to return from a load: the stored one, or a default one that
/// must be saved before it is returned.
#[derive(Debug)]
pub enum WorkspacesLoad {
    Stored(WorkspaceData),
    CreatedDefault(WorkspaceData),
}

/// The registry, given what was read from its file. When the file is absent a
/// default registry is made now, to be saved at once; a stored registry is
/// returned as it is.
pub fn load_workspaces(stored: Option<Result<WorkspaceData, StoreError>>) -> (r: Result<WorkspacesLoad, StoreError>)
    ensures
        match stored {
            None => r matches Ok(WorkspacesLoad::CreatedDefault(d))
                && is_default_data(d, d.workspaces@[0].created_at),
            Some(Ok(s)) => r == Ok::<WorkspacesLoad, StoreError>(WorkspacesLoad::Stored(s)),
            Some(Err(e)) => r == Err::<WorkspacesLoad, StoreError>(e),
        },
{
    match stored {
        None => Ok(WorkspacesLoad::CreatedDefault(default_workspace_data(now_rfc3339()))),
        Some(Ok(s)) => Ok(WorkspacesLoad::Stored(s)),
        Some(Err(e)) => Err(e),
    }
}

} // verus!
