//! The records the backend exchanges with its front end and stores on disk.
use std::collections::HashMap;
use vstd::prelude::*;

verus! {

/// One HTTP call as the front end describes it.
#[derive(Debug)]
pub struct HttpRequest {
    pub url: String,
    pub method: String,
    pub headers: HashMap<String, String>,
    pub body: Option<String>,
}

/// The normalised result of one HTTP call.
#[derive(Debug)]
pub struct HttpResponse {
    pub status: u16,
    pub status_text: String,
    pub headers: HashMap<String, String>,
    pub body: String,
    pub time_ms: u128,
    pub size: usize,
}

/// A failed HTTP call: a summary and an optional detail.
#[derive(Debug)]
pub struct HttpError {
    pub error: String,
    pub details: Option<String>,
}

/// A request saved by the user in a collection.
#[derive(Clone, Debug)]
pub struct SavedRequest {
    pub id: i64,
    pub name: String,
    pub method: String,
    pub url: String,
    pub headers: HashMap<String, String>,
    pub body: String,
    pub params: HashMap<String, String>,
    pub favorite: bool,
    pub created_at: String,
}

/// The saved requests and the one currently selected, if any.
#[derive(Clone, Debug)]
pub struct RequestsData {
    pub requests: Vec<SavedRequest>,
    pub selected_request_id: Option<i64>,
}

/// The header of a workspace: a named scope for saved requests.
#[derive(Clone, Debug)]
pub struct Workspace {
    pub id: String,
    pub name: String,
    pub created_at: String,
    pub sync_path: Option<String>,
}

/// The registry of all workspaces and of their requests.
#[derive(Clone, Debug)]
pub struct WorkspaceData {
    pub workspaces: Vec<Workspace>,
    pub current_workspace_id: String,
    pub requests_by_workspace: HashMap<String, Vec<SavedRequest>>,
    pub selected_request_id_by_workspace: HashMap<String, Option<i64>>,
}

/// The portable snapshot of one workspace written at its sync path.
#[derive(Clone, Debug)]
pub struct WorkspaceFile {
    pub name: String,
    pub requests: Vec<SavedRequest>,
    pub selected_request_id: Option<i64>,
    pub created_at: String,
    pub version: String,
}

/// Why a persistence or workspace operation failed; the strings carry the
/// detail reported by the file system or the JSON codec.
#[derive(Debug)]
pub enum StoreError {
    DirectoryUnavailable,
    DirectoryCreateError(String),
    SerializationError(String),
    DeserializationError(String),
    WriteError(String),
    ReadError(String),
    WorkspaceNotFound,
    CannotDeleteDefault,
}

} // verus!
