//! The fixed parameters of each kind of surface.

use crate::label::{requested_text, DEFAULT_GAME_LABEL};
use vstd::prelude::*;

verus! {

/// The kinds of surface. `Login` and `Main` are reserved: at most one live
/// surface of each, under a fixed label. `Game` surfaces load an outside
/// address and may be open in any number.
#[derive(Clone, Copy, Debug, PartialEq, Eq, Structural)]
pub enum SurfaceKind {
    Login,
    Main,
    Game,
}

/// Size and behaviour of a window, in logical pixels.
#[derive(Clone, Copy, Debug, PartialEq, Eq, Structural)]
pub struct WindowConfig {
    pub width: u32,
    pub height: u32,
    pub min_width: u32,
    pub min_height: u32,
    pub resizable: bool,
    pub decorations: bool,
}

impl WindowConfig {
    /// Every dimension is positive, and the window opens no smaller than its
    /// minimum.
    pub open spec fn wf(self) -> bool {
        &&& 0 < self.min_width <= self.width
        &&& 0 < self.min_height <= self.height
    }
}

pub const LOGIN_WIDTH: u32 = 900;

pub const LOGIN_HEIGHT: u32 = 500;

pub const MAIN_WIDTH: u32 = 1280;

pub const MAIN_HEIGHT: u32 = 800;

pub const MAIN_MIN_WIDTH: u32 = 1100;

pub const MAIN_MIN_HEIGHT: u32 = 600;

/// The login window: small, of fixed size, without decorations.
pub open spec fn login_window_config() -> WindowConfig {
    WindowConfig {
        width: LOGIN_WIDTH,
        height: LOGIN_HEIGHT,
        min_width: LOGIN_WIDTH,
        min_height: LOGIN_HEIGHT,
        resizable: false,
        decorations: false,
    }
}

/// The main window: larger, resizable down to a minimum, without decorations.
pub open spec fn main_window_config() -> WindowConfig {
    WindowConfig {
        width: MAIN_WIDTH,
        height: MAIN_HEIGHT,
        min_width: MAIN_MIN_WIDTH,
        min_height: MAIN_MIN_HEIGHT,
        resizable: true,
        decorations: false,
    }
}

/// A game window has the dimensions and the behaviour of the main window.
pub open spec fn game_window_config() -> WindowConfig {
    main_window_config()
}

pub const LOGIN_LABEL: &'static str = "login";

pub const MAIN_LABEL: &'static str = "main";

pub const LOGIN_TITLE: &'static str = "PeridotVault – Login";

pub const MAIN_TITLE: &'static str = "PeridotVault";

pub const GAME_TITLE: &'static str = "PeridotVault – Game";

pub const LOGIN_DOCUMENT: &'static str = "login.html";

pub const MAIN_DOCUMENT: &'static str = "index.html";

impl SurfaceKind {
    /// Whether at most one surface of this kind may be live.
    pub open spec fn is_reserved(self) -> bool {
        self != SurfaceKind::Game
    }

    /// The parameters of this kind.
    pub open spec fn preset(self) -> WindowConfig {
        match self {
            SurfaceKind::Login => login_window_config(),
            SurfaceKind::Main => main_window_config(),
            SurfaceKind::Game => game_window_config(),
        }
    }

    /// The label of this kind: the fixed label of a reserved kind, and the
    /// label a game surface gets where none is asked for.
    pub open spec fn label(self) -> Seq<char> {
        match self {
            SurfaceKind::Login => LOGIN_LABEL@,
            SurfaceKind::Main => MAIN_LABEL@,
            SurfaceKind::Game => DEFAULT_GAME_LABEL@,
        }
    }

    /// The title of this kind; a game surface has it where none is asked for.
    pub open spec fn title(self) -> Seq<char> {
        match self {
            SurfaceKind::Login => LOGIN_TITLE@,
            SurfaceKind::Main => MAIN_TITLE@,
            SurfaceKind::Game => GAME_TITLE@,
        }
    }

    /// The bundled document that a reserved kind loads.
    pub open spec fn document(self) -> Option<Seq<char>> {
        match self {
            SurfaceKind::Login => Some(LOGIN_DOCUMENT@),
            SurfaceKind::Main => Some(MAIN_DOCUMENT@),
            SurfaceKind::Game => None,
        }
    }

    /// The reserved kind that gives way when this one is opened.
    pub open spec fn counterpart(self) -> Option<SurfaceKind> {
        match self {
            SurfaceKind::Login => Some(SurfaceKind::Main),
            SurfaceKind::Main => Some(SurfaceKind::Login),
            SurfaceKind::Game => None,
        }
    }

    /// Whether at most one surface of this kind may be live.
    pub fn reserved(self) -> (r: bool)
        ensures
            r == self.is_reserved(),
    {
        match self {
            SurfaceKind::Game => false,
            _ => true,
        }
    }

    /// The parameters of this kind.
    pub fn config(self) -> (config: WindowConfig)
        ensures
            config == self.preset(),
            config.wf(),
            !config.decorations,
    {
        match self {
            SurfaceKind::Login => WindowConfig {
                width: LOGIN_WIDTH,
                height: LOGIN_HEIGHT,
                min_width: LOGIN_WIDTH,
                min_height: LOGIN_HEIGHT,
                resizable: false,
                decorations: false,
            },
            SurfaceKind::Main | SurfaceKind::Game => WindowConfig {
                width: MAIN_WIDTH,
                height: MAIN_HEIGHT,
                min_width: MAIN_MIN_WIDTH,
                min_height: MAIN_MIN_HEIGHT,
                resizable: true,
                decorations: false,
            },
        }
    }

    /// The label of this kind.
    pub fn default_label(self) -> (label: &'static str)
        ensures
            label@ == self.label(),
    {
        match self {
            SurfaceKind::Login => LOGIN_LABEL,
            SurfaceKind::Main => MAIN_LABEL,
            SurfaceKind::Game => DEFAULT_GAME_LABEL,
        }
    }

    /// The title of this kind.
    pub fn default_title(self) -> (title: &'static str)
        ensures
            title@ == self.title(),
    {
        match self {
            SurfaceKind::Login => LOGIN_TITLE,
            SurfaceKind::Main => MAIN_TITLE,
            SurfaceKind::Game => GAME_TITLE,
        }
    }

    /// The bundled document that a reserved kind loads.
    pub fn bundled_document(self) -> (document: Option<&'static str>)
        ensures
            requested_text(document) == self.document(),
    {
        match self {
            SurfaceKind::Login => Some(LOGIN_DOCUMENT),
            SurfaceKind::Main => Some(MAIN_DOCUMENT),
            SurfaceKind::Game => None,
        }
    }

    /// The reserved kind that gives way when this one is opened.
    pub fn other_reserved(self) -> (other: Option<SurfaceKind>)
        ensures
            other == self.counterpart(),
    {
        match self {
            SurfaceKind::Login => Some(SurfaceKind::Main),
            SurfaceKind::Main => Some(SurfaceKind::Login),
            SurfaceKind::Game => None,
        }
    }
}

} // verus!
