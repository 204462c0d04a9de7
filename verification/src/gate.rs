//! Which surface a fresh process opens.

use crate::lifecycle::{reserved_open, SurfaceOpen};
use crate::presets::SurfaceKind;
use crate::windows::{create_login_window, create_main_window};
use vstd::prelude::*;

verus! {

/// The surface that a fresh process opens: the main surface where a valid
/// session is established, else the login surface.
pub open spec fn initial_surface(session_valid: bool) -> SurfaceKind {
    if session_valid {
        SurfaceKind::Main
    } else {
        SurfaceKind::Login
    }
}

/// Decides which surface a fresh process opens, from what the session
/// collaborator said when it was asked, once.
pub fn decide_initial_surface(session_valid: bool) -> (kind: SurfaceKind)
    ensures
        kind == initial_surface(session_valid),
        kind.is_reserved(),
{
    if session_valid {
        SurfaceKind::Main
    } else {
        SurfaceKind::Login
    }
}

/// Starts opening the surface of a fresh process. Nothing is retired: there
/// is no other surface yet.
pub fn open_initial_surface(session_valid: bool) -> (open: SurfaceOpen)
    ensures
        open@ == reserved_open(initial_surface(session_valid), false),
        open@.wf(),
{
    match decide_initial_surface(session_valid) {
        SurfaceKind::Main => create_main_window(),
        _ => create_login_window(),
    }
}

} // verus!
