//! Errors of the window operations, and the platform capability that locks a
//! window's aspect ratio.
use crate::sizing::Extent;
use vstd::prelude::*;

verus! {

/// What can make a window operation fail.
#[derive(Debug)]
pub enum WindowError {
    /// Screen bounds, scale factor or window size could not be read.
    PlatformQueryFailed(String),
    /// A size or aspect-ratio change could not be applied.
    PlatformCallFailed(String),
    /// The window is on no display.
    NoMonitorFound,
}

impl WindowError {
    /// The text a caller is shown for this error: the platform's own message,
    /// or a fixed sentence when no display was found.
    pub fn message(&self) -> (r: String)
        ensures
            match self {
                WindowError::PlatformQueryFailed(m) => r@ == m@,
                WindowError::PlatformCallFailed(m) => r@ == m@,
                WindowError::NoMonitorFound => r@ == "No monitor found"@,
            },
    {
        match self {
            WindowError::PlatformQueryFailed(m) => m.clone(),
            WindowError::PlatformCallFailed(m) => m.clone(),
            WindowError::NoMonitorFound => String::from_str("No monitor found"),
        }
    }
}

/// Locks the ratio of width to height that later resizes of a window by the
/// user must keep: the ratio of `size`. Each platform provides its own
/// implementation.
pub trait WindowController {
    fn set_aspect_ratio(&self, size: Extent) -> Result<(), WindowError>;
}

/// The controller for platforms without an aspect-ratio lock: it does nothing,
/// and the window stays freely resizable.
pub struct NoOpWindowController;

impl WindowController for NoOpWindowController {
    fn set_aspect_ratio(&self, size: Extent) -> (r: Result<(), WindowError>)
        ensures
            r is Ok,
    {
        Ok(())
    }
}

} // verus!
