//! The server manager: configuration plus the start/stop state machine.
//!
//! The manager itself never touches the network or the disk. The host
//! probes the configured folder and attempts the bind, and hands the
//! outcomes in as plain booleans; every decision the manager takes is
//! stated by the model functions below and proved of the executable code.

use crate::errors::ServerError;
use vstd::prelude::*;

verus! {

/// The desired configuration: where to serve from and on which port.
#[derive(Debug, PartialEq)]
pub struct FileServerConfig {
    pub folder_path: String,
    pub port: u16,
}

/// A snapshot of the manager: the running flag beside the configuration.
#[derive(Debug, PartialEq)]
pub struct FileServerStatus {
    pub running: bool,
    pub folder_path: String,
    pub port: u16,
}

/// Owns the configuration, the running flag, and whether a shutdown
/// handle for the active instance is held.
pub struct FileServerManager {
    config: FileServerConfig,
    running: bool,
    has_shutdown_handle: bool,
}

/// The mathematical value of a configuration.
pub struct ConfigModel {
    pub folder_path: Seq<char>,
    pub port: u16,
}

/// The mathematical value of a status snapshot.
pub struct StatusModel {
    pub running: bool,
    pub folder_path: Seq<char>,
    pub port: u16,
}

/// The mathematical value of a manager.
pub struct ManagerModel {
    pub config: ConfigModel,
    pub running: bool,
    pub has_shutdown_handle: bool,
}

impl View for FileServerConfig {
    type V = ConfigModel;

    open spec fn view(&self) -> ConfigModel {
        ConfigModel { folder_path: self.folder_path@, port: self.port }
    }
}

impl View for FileServerStatus {
    type V = StatusModel;

    open spec fn view(&self) -> StatusModel {
        StatusModel { running: self.running, folder_path: self.folder_path@, port: self.port }
    }
}

impl View for FileServerManager {
    type V = ManagerModel;

    closed spec fn view(&self) -> ManagerModel {
        ManagerModel {
            config: self.config@,
            running: self.running,
            has_shutdown_handle: self.has_shutdown_handle,
        }
    }
}

/// The registrable/dynamic port range that `update_config` accepts.
pub open spec fn valid_port(p: u16) -> bool {
    1024 <= p <= 65535
}

/// Every reachable manager state keeps its port in range and holds a
/// shutdown handle exactly while an instance is running.
pub open spec fn wf(m: ManagerModel) -> bool {
    valid_port(m.config.port) && m.has_shutdown_handle == m.running
}

/// The state a freshly constructed manager is in: no folder, the default
/// port, nothing running.
pub open spec fn initial_model() -> ManagerModel {
    ManagerModel {
        config: ConfigModel { folder_path: Seq::empty(), port: 8080u16 },
        running: false,
        has_shutdown_handle: false,
    }
}

/// The snapshot `get_status` derives from a manager state.
pub open spec fn status_model(m: ManagerModel) -> StatusModel {
    StatusModel { running: m.running, folder_path: m.config.folder_path, port: m.config.port }
}

/// What `update_config` does: a supplied out-of-range port is rejected
/// before anything changes; otherwise each supplied field replaces the
/// old one and the new configuration is returned.
pub open spec fn update_config_model(
    m: ManagerModel,
    folder_path: Option<Seq<char>>,
    port: Option<u16>,
) -> (ManagerModel, Result<ConfigModel, ServerError>) {
    if port matches Some(p) && !valid_port(p) {
        (m, Err(ServerError::InvalidPort))
    } else {
        let new_config = ConfigModel {
            folder_path: match folder_path {
                Some(f) => f,
                None => m.config.folder_path,
            },
            port: match port {
                Some(p) => p,
                None => m.config.port,
            },
        };
        (ManagerModel { config: new_config, ..m }, Ok(new_config))
    }
}

/// What `start_server` does, given what the host observed: whether the
/// configured path names a directory, and whether the bind succeeded.
/// Checks run in order; only when all pass does the state change.
pub open spec fn start_model(m: ManagerModel, folder_is_dir: bool, bind_ok: bool) -> (
    ManagerModel,
    Result<StatusModel, ServerError>,
) {
    if m.running {
        (m, Err(ServerError::AlreadyRunning))
    } else if m.config.folder_path.len() == 0 {
        (m, Err(ServerError::MissingFolder))
    } else if !folder_is_dir {
        (m, Err(ServerError::FolderNotFound))
    } else if !bind_ok {
        (m, Err(ServerError::BindFailed))
    } else {
        let started = ManagerModel { running: true, has_shutdown_handle: true, ..m };
        (started, Ok(status_model(started)))
    }
}

/// What `stop_server` does: with no active instance it is rejected;
/// otherwise the shutdown handle is consumed, the running flag cleared,
/// and a stopped snapshot returned.
pub open spec fn stop_model(m: ManagerModel) -> (ManagerModel, Result<StatusModel, ServerError>) {
    if !m.running {
        (m, Err(ServerError::NotRunning))
    } else {
        let stopped = ManagerModel { running: false, has_shutdown_handle: false, ..m };
        (stopped, Ok(status_model(stopped)))
    }
}

impl FileServerManager {
    /// A manager with an empty folder path, the default port, and no
    /// running instance.
    pub fn new() -> (r: FileServerManager)
        ensures
            r@ == initial_model(),
            wf(r@),
    {
        FileServerManager {
            config: FileServerConfig { folder_path: String::new(), port: 8080 },
            running: false,
            has_shutdown_handle: false,
        }
    }

    /// Partial update of the configuration: fields not supplied keep
    /// their value. A supplied port outside [1024, 65535] yields
    /// `InvalidPort` and leaves the whole configuration unchanged.
    pub fn update_config(&mut self, folder_path: Option<String>, port: Option<u16>) -> (r: Result<
        FileServerConfig,
        ServerError,
    >)
        ensures
            final(self)@ == update_config_model(old(self)@, opt_view(folder_path), port).0,
            (match update_config_model(old(self)@, opt_view(folder_path), port).1 {
                Ok(c) => r matches Ok(rc) && rc@ == c,
                Err(e) => r == Err::<FileServerConfig, ServerError>(e),
            }),
            wf(old(self)@) ==> wf(final(self)@),
    {
        if let Some(p) = port {
            if p < 1024 {
                return Err(ServerError::InvalidPort);
            }
            self.config.port = p;
        }
        if let Some(path) = folder_path {
            self.config.folder_path = path;
        }
        Ok(FileServerConfig { folder_path: self.config.folder_path.clone(), port: self.config.port })
    }

    /// Starts an instance, given the host's observations: `folder_is_dir`
    /// says whether the configured path names an existing directory, and
    /// `bind_ok` whether binding `127.0.0.1:<port>` succeeded. The checks
    /// run in order — `AlreadyRunning`, `MissingFolder`, `FolderNotFound`,
    /// `BindFailed` — and only when all pass is the running flag set.
    pub fn start_server(&mut self, folder_is_dir: bool, bind_ok: bool) -> (r: Result<
        FileServerStatus,
        ServerError,
    >)
        ensures
            final(self)@ == start_model(old(self)@, folder_is_dir, bind_ok).0,
            (match start_model(old(self)@, folder_is_dir, bind_ok).1 {
                Ok(s) => r matches Ok(rs) && rs@ == s,
                Err(e) => r == Err::<FileServerStatus, ServerError>(e),
            }),
            wf(old(self)@) ==> wf(final(self)@),
    {
        if self.running {
            return Err(ServerError::AlreadyRunning);
        }
        if self.config.folder_path.as_str().is_empty() {
            return Err(ServerError::MissingFolder);
        }
        if !folder_is_dir {
            return Err(ServerError::FolderNotFound);
        }
        if !bind_ok {
            return Err(ServerError::BindFailed);
        }
        self.running = true;
        self.has_shutdown_handle = true;
        Ok(FileServerStatus {
            running: true,
            folder_path: self.config.folder_path.clone(),
            port: self.config.port,
        })
    }

    /// Stops the active instance: consumes the one-shot shutdown handle
    /// and clears the running flag, or reports `NotRunning` if there is
    /// no instance to stop.
    pub fn stop_server(&mut self) -> (r: Result<FileServerStatus, ServerError>)
        ensures
            final(self)@ == stop_model(old(self)@).0,
            (match stop_model(old(self)@).1 {
                Ok(s) => r matches Ok(rs) && rs@ == s,
                Err(e) => r == Err::<FileServerStatus, ServerError>(e),
            }),
            wf(old(self)@) ==> wf(final(self)@),
    {
        if !self.running {
            return Err(ServerError::NotRunning);
        }
        self.running = false;
        self.has_shutdown_handle = false;
        Ok(FileServerStatus {
            running: false,
            folder_path: self.config.folder_path.clone(),
            port: self.config.port,
        })
    }

    /// A side-effect-free snapshot of the current state.
    pub fn get_status(&self) -> (r: FileServerStatus)
        ensures
            r@ == status_model(self@),
    {
        FileServerStatus {
            running: self.running,
            folder_path: self.config.folder_path.clone(),
            port: self.config.port,
        }
    }
}

/// The view of an optional folder-path argument.
pub open spec fn opt_view(o: Option<String>) -> Option<Seq<char>> {
    match o {
        Some(s) => Some(s@),
        None => None,
    }
}

/// Law: configuring a port outside [1024, 65535] always yields
/// `InvalidPort` and leaves the whole prior configuration unchanged,
/// whatever folder path is supplied alongside it.
pub proof fn lemma_invalid_port_rejected(
    m: ManagerModel,
    folder_path: Option<Seq<char>>,
    p: u16,
)
    requires
        !valid_port(p),
    ensures
        update_config_model(m, folder_path, Some(p)) == (m, Err::<ConfigModel, ServerError>(
            ServerError::InvalidPort,
        )),
{
}

/// Law: starting with an empty folder path configured always yields
/// `MissingFolder` and changes nothing, whatever the host observed.
pub proof fn lemma_start_missing_folder(m: ManagerModel, folder_is_dir: bool, bind_ok: bool)
    requires
        !m.running,
        m.config.folder_path.len() == 0,
    ensures
        start_model(m, folder_is_dir, bind_ok) == (m, Err::<StatusModel, ServerError>(
            ServerError::MissingFolder,
        )),
{
}

/// Law: starting with a configured path that does not name a directory
/// (a plain file, or nothing at all) yields `FolderNotFound` and changes
/// nothing.
pub proof fn lemma_start_folder_not_dir(m: ManagerModel, bind_ok: bool)
    requires
        !m.running,
        m.config.folder_path.len() != 0,
    ensures
        start_model(m, false, bind_ok) == (m, Err::<StatusModel, ServerError>(
            ServerError::FolderNotFound,
        )),
{
}

/// Law: after a successful start, the status reports running, and a
/// second start without an intervening stop is rejected with
/// `AlreadyRunning`, leaving the state as it was.
pub proof fn lemma_second_start_rejected(
    m: ManagerModel,
    d1: bool,
    b1: bool,
    d2: bool,
    b2: bool,
)
    requires
        start_model(m, d1, b1).1 is Ok,
    ensures
        status_model(start_model(m, d1, b1).0).running,
        start_model(start_model(m, d1, b1).0, d2, b2) == (start_model(m, d1, b1).0, Err::<
            StatusModel,
            ServerError,
        >(ServerError::AlreadyRunning)),
{
}

/// Law: stopping with no active instance always yields `NotRunning` and
/// changes nothing.
pub proof fn lemma_stop_without_start(m: ManagerModel)
    requires
        !m.running,
    ensures
        stop_model(m) == (m, Err::<StatusModel, ServerError>(ServerError::NotRunning)),
{
}

/// Law: well-formedness — the port in range, the shutdown handle held
/// exactly while running — holds of the initial state and is preserved
/// by every operation.
pub proof fn lemma_operations_preserve_wf(
    m: ManagerModel,
    folder_path: Option<Seq<char>>,
    port: Option<u16>,
    folder_is_dir: bool,
    bind_ok: bool,
)
    requires
        wf(m),
    ensures
        wf(initial_model()),
        wf(update_config_model(m, folder_path, port).0),
        wf(start_model(m, folder_is_dir, bind_ok).0),
        wf(stop_model(m).0),
{
}

/// Law: a successful start followed by a stop succeeds, reports a
/// snapshot that is not running, leaves the configuration untouched, and
/// a subsequent start under the same observations succeeds again.
pub proof fn lemma_start_stop_restart(m: ManagerModel, d1: bool, b1: bool)
    requires
        start_model(m, d1, b1).1 is Ok,
    ensures
        stop_model(start_model(m, d1, b1).0).1 is Ok,
        !stop_model(start_model(m, d1, b1).0).1->Ok_0.running,
        !status_model(stop_model(start_model(m, d1, b1).0).0).running,
        stop_model(start_model(m, d1, b1).0).0.config == m.config,
        start_model(stop_model(start_model(m, d1, b1).0).0, d1, b1).1 is Ok,
{
}

} // verus!
