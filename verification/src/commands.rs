//! The operations that a caller of the shell can ask for.

use crate::address::parsed_url;
use crate::error::WindowError;
use crate::lifecycle::{reserved_open, SurfaceOpen};
use crate::presets::SurfaceKind;
use crate::windows::{create_game_window, game_start, start_view};
use vstd::prelude::*;
use vstd::string::StringExecFns;

verus! {

/// How a greeting begins, before the name.
pub const GREETING_OPENING: &'static str = "Hello, ";

/// How a greeting ends, after the name.
pub const GREETING_CLOSING: &'static str = "! You've been greeted from Rust!";

/// What the caller asked for, where it is an owned text.
pub open spec fn owned_text(requested: Option<String>) -> Option<Seq<char>> {
    match requested {
        Some(text) => Some(text@),
        None => None,
    }
}

/// Greets `name`.
pub fn greet(name: &str) -> (greeting: String)
    ensures
        greeting@ == GREETING_OPENING@ + name@ + GREETING_CLOSING@,
{
    let mut greeting = GREETING_OPENING.to_owned();
    greeting.append(name);
    greeting.append(GREETING_CLOSING);
    greeting
}

/// Starts opening the main surface; the login surface is retired afterwards.
pub fn open_main_window() -> (open: SurfaceOpen)
    ensures
        open@ == reserved_open(SurfaceKind::Main, true),
        open@.wf(),
{
    SurfaceOpen::main(true)
}

/// Starts opening the login surface; the main surface is retired afterwards.
/// The stage hint has no effect.
pub fn open_login_window(stage: Option<String>) -> (open: SurfaceOpen)
    ensures
        open@ == reserved_open(SurfaceKind::Login, true),
        open@.wf(),
{
    let _ = stage;
    SurfaceOpen::login(true)
}

/// Starts opening a game surface on `url`.
pub fn open_game_window(url: String, label: Option<String>, title: Option<String>) -> (start:
    Result<SurfaceOpen, WindowError>)
    ensures
        start_view(start) == game_start(
            url@,
            owned_text(label),
            owned_text(title),
            parsed_url(url@),
        ),
        start matches Ok(open) ==> open@.wf(),
{
    let label: Option<&str> = match &label {
        Some(text) => Some(text.as_str()),
        None => None,
    };
    let title: Option<&str> = match &title {
        Some(text) => Some(text.as_str()),
        None => None,
    };
    create_game_window(url.as_str(), label, title)
}

} // verus!
