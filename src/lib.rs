//! Backend of a desktop HTTP client: the request/response adapter and the
//! workspace-scoped persistence and sync rules, verified with Verus.
pub mod http;
pub mod model;
pub mod store;
pub mod workspace;

pub use model::{
    HttpError, HttpRequest, HttpResponse, RequestsData, SavedRequest, StoreError, Workspace,
    WorkspaceData, WorkspaceFile,
};
