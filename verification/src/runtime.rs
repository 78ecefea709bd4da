//! Runtime information of the application.
//!
//! The record is part of the IPC contract: the names and types of its fields
//! are fixed, and all values are decided by the backend; the user interface
//! computes no paths and detects no platform.

use vstd::prelude::*;

use crate::error::EgressError;
use crate::ports::StateDirectory;
use crate::text::trim;
use crate::time::now_unix_ms;

verus! {

/// What the build of the core reports about itself: its version and the
/// platform it was built for. The composition root fills it in.
#[derive(Debug, PartialEq, Eq)]
pub struct BuildInfo {
    /// Version of the core.
    pub core_version: String,
    /// Operating system the application was built for.
    pub os: String,
    /// Processor architecture the application was built for.
    pub arch: String,
}

/// Runtime information that the shell shows to the user.
#[derive(Debug, PartialEq, Eq)]
pub struct RuntimeOverview {
    /// Version of the desktop application.
    pub app_version: String,
    /// Version of the core.
    pub core_version: String,
    /// Operating system the application was built for.
    pub os: String,
    /// Processor architecture the application was built for.
    pub arch: String,
    /// Absolute path of the application state directory.
    pub state_dir: String,
    /// Start of the backend in milliseconds of the Unix epoch.
    pub started_at_unix_ms: i64,
}

/// The model of the runtime information.
pub struct RuntimeOverviewView {
    pub app_version: Seq<char>,
    pub core_version: Seq<char>,
    pub os: Seq<char>,
    pub arch: Seq<char>,
    pub state_dir: Seq<char>,
    pub started_at_unix_ms: i64,
}

impl View for RuntimeOverview {
    type V = RuntimeOverviewView;

    open spec fn view(&self) -> RuntimeOverviewView {
        RuntimeOverviewView {
            app_version: self.app_version@,
            core_version: self.core_version@,
            os: self.os@,
            arch: self.arch@,
            state_dir: self.state_dir@,
            started_at_unix_ms: self.started_at_unix_ms,
        }
    }
}

impl Clone for RuntimeOverview {
    fn clone(&self) -> (copy: Self)
        ensures
            copy@ == self@,
    {
        RuntimeOverview {
            app_version: self.app_version.clone(),
            core_version: self.core_version.clone(),
            os: self.os.clone(),
            arch: self.arch.clone(),
            state_dir: self.state_dir.clone(),
            started_at_unix_ms: self.started_at_unix_ms,
        }
    }
}

impl RuntimeOverview {
    /// Creates the runtime information from the build of the core.
    pub fn new(app_version: &str, build: &BuildInfo, state_dir: &str, started_at_unix_ms: i64) -> (overview: Self)
        ensures
            overview@ == (RuntimeOverviewView {
                app_version: app_version@,
                core_version: build.core_version@,
                os: build.os@,
                arch: build.arch@,
                state_dir: state_dir@,
                started_at_unix_ms,
            }),
    {
        RuntimeOverview {
            app_version: app_version.to_owned(),
            core_version: build.core_version.clone(),
            os: build.os.clone(),
            arch: build.arch.clone(),
            state_dir: state_dir.to_owned(),
            started_at_unix_ms,
        }
    }
}

/// The error of an application version that is empty or only white space.
pub open spec fn empty_version_error() -> EgressError {
    EgressError::Validation { field: "app_version", reason: "must not be empty" }
}

/// Service of the runtime information of the application.
///
/// Holds the snapshot computed at start and hands out copies of it, so that a
/// read through IPC does not depend on the file system after start.
#[derive(Debug)]
pub struct RuntimeInfoService {
    overview: RuntimeOverview,
}

impl View for RuntimeInfoService {
    type V = RuntimeOverviewView;

    closed spec fn view(&self) -> RuntimeOverviewView {
        self.overview@
    }
}

impl RuntimeInfoService {
    /// Initializes the service: validates the input, prepares the state
    /// directory and records the moment of start.
    ///
    /// The directory is asked only for a version that is not blank; the
    /// recorded snapshot holds the given version, the build information and the
    /// path that the directory returned.
    ///
    /// # Errors
    ///
    /// Returns a validation error of the field `app_version` when the version
    /// is blank, the error of the directory when it cannot be prepared, and an
    /// internal error when the clock cannot be read.
    pub fn initialize<D: StateDirectory>(app_version: &str, build: &BuildInfo, directory: &D) -> (result: Result<Self, EgressError>)
        ensures
            trim(app_version@).len() == 0 ==> result == Err::<RuntimeInfoService, EgressError>(empty_version_error()),
            result matches Ok(service) ==> {
                &&& trim(app_version@).len() > 0
                &&& service@.app_version == app_version@
                &&& service@.core_version == build.core_version@
                &&& service@.os == build.os@
                &&& service@.arch == build.arch@
                &&& service@.started_at_unix_ms >= 0
                &&& service@.state_dir.len() > 0
            },
    {
        let trimmed = crate::text::trim_str(app_version);
        if trimmed.len() == 0 {
            return Err(EgressError::validation("app_version", "must not be empty"));
        }
        let state_dir = match directory.ensure() {
            Ok(path) => path,
            Err(error) => return Err(error),
        };
        let started_at_unix_ms = match now_unix_ms() {
            Ok(ms) => ms,
            Err(error) => return Err(error),
        };
        let overview = RuntimeOverview::new(app_version, build, state_dir.as_str(), started_at_unix_ms);
        Ok(RuntimeInfoService { overview })
    }

    /// A copy of the runtime information.
    pub fn overview(&self) -> (overview: RuntimeOverview)
        ensures
            overview@ == self@,
    {
        self.overview.clone()
    }
}

} // verus!
