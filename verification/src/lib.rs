//! A manageable, restartable static-content HTTP server core.
//!
//! The crate owns the logic of such a server: the configure/start/stop
//! state machine, the routing of one request to a file body, a directory
//! listing or a not-found page, the extension-to-MIME table, and the
//! renderer that turns a folder's entries into an HTML listing. A host
//! binds the socket, reads the disk and pumps the accept loop, handing
//! this crate plain values and sending back what it returns.

pub mod dispatch;
pub mod errors;
pub mod listing;
pub mod mime;
pub mod manager;

pub use dispatch::HttpResponse;
pub use dispatch::handle_request;
pub use dispatch::ResolvedTarget;
pub use dispatch::ResponseBody;
pub use errors::ServerError;
pub use listing::DirEntry;
pub use manager::FileServerConfig;
pub use manager::FileServerManager;
pub use manager::FileServerStatus;
