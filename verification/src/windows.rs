//! The operations that create a surface.

use crate::address::{parsed_url, validate, validated};
use crate::error::{WindowError, WindowErrorView};
use crate::label::requested_text;
use crate::lifecycle::{game_open, reserved_open, SurfaceOpen, SurfaceOpenView};
use crate::presets::SurfaceKind;
use vstd::prelude::*;

verus! {

/// Starts the creation of the login surface. A live login surface is kept:
/// nothing is created then.
pub fn build_login_window() -> (open: SurfaceOpen)
    ensures
        open@ == reserved_open(SurfaceKind::Login, false),
        open@.wf(),
{
    SurfaceOpen::login(false)
}

/// Starts the creation of the main surface. A live main surface is kept:
/// nothing is created then.
pub fn build_main_window() -> (open: SurfaceOpen)
    ensures
        open@ == reserved_open(SurfaceKind::Main, false),
        open@.wf(),
{
    SurfaceOpen::main(false)
}

/// Starts the creation of the login surface.
pub fn create_login_window() -> (open: SurfaceOpen)
    ensures
        open@ == reserved_open(SurfaceKind::Login, false),
        open@.wf(),
{
    build_login_window()
}

/// Starts the creation of the main surface.
pub fn create_main_window() -> (open: SurfaceOpen)
    ensures
        open@ == reserved_open(SurfaceKind::Main, false),
        open@.wf(),
{
    build_main_window()
}

/// How the creation of a game surface starts, as contracts see it.
pub open spec fn start_view(start: Result<SurfaceOpen, WindowError>) -> Result<
    SurfaceOpenView,
    WindowErrorView,
> {
    match start {
        Ok(open) => Ok(open@),
        Err(error) => Err(error@),
    }
}

/// How the creation of a game surface on `target_url` starts, once the parser
/// has said `parsed`: with the failure of the validation, or with the
/// operation on the validated address.
pub open spec fn game_start(
    target_url: Seq<char>,
    label: Option<Seq<char>>,
    title: Option<Seq<char>>,
    parsed: Result<Seq<char>, Seq<char>>,
) -> Result<SurfaceOpenView, WindowErrorView> {
    match validated(target_url, parsed) {
        Ok(address) => Ok(game_open(address, label, title)),
        Err(error) => Err(error),
    }
}

/// Starts the creation of a game surface on `target_url`. The address is
/// validated before anything else: where it is refused, there is no operation,
/// so nothing can be created.
pub fn create_game_window(target_url: &str, label: Option<&str>, title: Option<&str>) -> (start:
    Result<SurfaceOpen, WindowError>)
    ensures
        start_view(start) == game_start(
            target_url@,
            requested_text(label),
            requested_text(title),
            parsed_url(target_url@),
        ),
        start matches Ok(open) ==> open@.wf(),
{
    match validate(target_url) {
        Ok(address) => Ok(SurfaceOpen::game(address, label, title)),
        Err(error) => Err(error),
    }
}

} // verus!
