//! What can go wrong while a surface is opened.

use vstd::prelude::*;

verus! {

/// The three ways an operation on surfaces fails. Each is final for the
/// operation that met it; none is retried.
#[derive(Clone, Copy, Debug, PartialEq, Eq, Structural)]
pub enum ErrorKind {
    /// The address of a game surface is not an absolute address.
    InvalidAddress,
    /// The shell could not create the surface.
    SurfaceCreationFailed,
    /// The shell could not close the surface that was to be retired.
    SurfaceCloseFailed,
}

/// A failure, with the text that explains it.
#[derive(Debug, PartialEq, Eq)]
pub struct WindowError {
    pub kind: ErrorKind,
    pub message: String,
}

/// A failure as contracts see it.
pub struct WindowErrorView {
    pub kind: ErrorKind,
    pub message: Seq<char>,
}

impl View for WindowError {
    type V = WindowErrorView;

    open spec fn view(&self) -> WindowErrorView {
        WindowErrorView { kind: self.kind, message: self.message@ }
    }
}

/// The failure of a creation that the shell reported with `reason`.
pub open spec fn creation_failure(reason: Seq<char>) -> WindowErrorView {
    WindowErrorView { kind: ErrorKind::SurfaceCreationFailed, message: reason }
}

/// The failure of a close that the shell reported with `reason`.
pub open spec fn close_failure(reason: Seq<char>) -> WindowErrorView {
    WindowErrorView { kind: ErrorKind::SurfaceCloseFailed, message: reason }
}

impl WindowError {
    /// The failure of a creation that the shell reported with `reason`.
    pub fn creation_failed(reason: String) -> (error: WindowError)
        ensures
            error@ == creation_failure(reason@),
    {
        WindowError { kind: ErrorKind::SurfaceCreationFailed, message: reason }
    }

    /// The failure of a close that the shell reported with `reason`.
    pub fn close_failed(reason: String) -> (error: WindowError)
        ensures
            error@ == close_failure(reason@),
    {
        WindowError { kind: ErrorKind::SurfaceCloseFailed, message: reason }
    }
}

} // verus!
