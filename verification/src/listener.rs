//! Platform capture listeners: the sources that feed raw notifications
//! into the pipeline.
//!
//! The operating-system side of capture — registering for notifications,
//! spinning the provider's run loop, walking its object model — happens
//! outside this crate and hands the normalizer plain snapshots. What lives
//! here is the per-platform entry surface: which platforms can start at
//! all, and the errors they answer with when they cannot.
use vstd::prelude::*;

use crate::ingest::IngestQueue;

verus! {

/// Why a capture listener could not start or run.
#[derive(Clone, Copy, Debug, PartialEq, Eq, Structural)]
pub enum ListenerError {
    /// This platform has no capture implementation yet.
    NotImplemented,
    /// The operator declined the accessibility permission the provider
    /// needs, so capture cannot start.
    PermissionDenied,
}

impl ListenerError {
    /// A short description for the operator.
    pub fn message(&self) -> (r: &'static str)
        ensures
            *self is NotImplemented ==> r@ == "listener not implemented for this platform"@,
            *self is PermissionDenied ==> r@ == "accessibility permissions not granted by user"@,
    {
        match self {
            ListenerError::NotImplemented => "listener not implemented for this platform",
            ListenerError::PermissionDenied => "accessibility permissions not granted by user",
        }
    }
}

/// A platform-specific capture listener: started once, it feeds events
/// into the ingest queue until its platform source ends.
pub trait PlatformListener {
    fn run(&self, queue: &mut IngestQueue) -> Result<(), ListenerError>;
}

/// The capture listener for the desktop platform whose accessibility
/// provider this pipeline was built against. Creating one asks only
/// whether the provider trusts this process; the provider's run loop and
/// callbacks live with the platform layer outside this crate, which feeds
/// the normalizer snapshots of each notification.
pub struct MacosListener {}

impl MacosListener {
    /// Starts up only when the accessibility permission was granted; the
    /// caller passes the provider's answer to that prompt.
    pub fn new(accessibility_trusted: bool) -> (r: Result<MacosListener, ListenerError>)
        ensures
            accessibility_trusted <==> r is Ok,
            !accessibility_trusted ==> r == Result::<MacosListener, ListenerError>::Err(
                ListenerError::PermissionDenied,
            ),
    {
        if accessibility_trusted {
            Result::Ok(MacosListener {  })
        } else {
            Result::Err(ListenerError::PermissionDenied)
        }
    }
}

/// The capture listener for Windows. Not implemented: creating one always
/// reports so.
pub struct WindowsListener {}

impl WindowsListener {
    pub fn new() -> (r: Result<WindowsListener, ListenerError>)
        ensures
            r == Result::<WindowsListener, ListenerError>::Err(ListenerError::NotImplemented),
    {
        Result::Err(ListenerError::NotImplemented)
    }
}

impl PlatformListener for WindowsListener {
    fn run(&self, _queue: &mut IngestQueue) -> Result<(), ListenerError> {
        Result::Err(ListenerError::NotImplemented)
    }
}

/// The capture listener for Linux. Not implemented: creating one always
/// reports so.
pub struct LinuxListener {}

impl LinuxListener {
    pub fn new() -> (r: Result<LinuxListener, ListenerError>)
        ensures
            r == Result::<LinuxListener, ListenerError>::Err(ListenerError::NotImplemented),
    {
        Result::Err(ListenerError::NotImplemented)
    }
}

impl PlatformListener for LinuxListener {
    fn run(&self, _queue: &mut IngestQueue) -> Result<(), ListenerError> {
        Result::Err(ListenerError::NotImplemented)
    }
}

} // verus!
