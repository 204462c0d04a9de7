//! What a surface is created from: its label, its title, what it loads and
//! its window parameters.

use crate::address::{has_authority, ValidatedAddress};
use crate::label::{is_label, requested_text};
use crate::presets::{
    SurfaceKind, WindowConfig, LOGIN_DOCUMENT, LOGIN_LABEL, LOGIN_TITLE, MAIN_DOCUMENT,
    MAIN_LABEL, MAIN_TITLE,
};
use vstd::prelude::*;

verus! {

/// What a surface loads.
#[derive(Debug, PartialEq, Eq)]
pub enum SurfaceContent {
    /// A document bundled with the application, by its path.
    BundledDocument(String),
    /// An outside address that passed validation.
    ExternalAddress(ValidatedAddress),
}

/// What a surface loads, as contracts see it.
pub enum ContentView {
    BundledDocument(Seq<char>),
    ExternalAddress(Seq<char>),
}

impl View for SurfaceContent {
    type V = ContentView;

    open spec fn view(&self) -> ContentView {
        match self {
            SurfaceContent::BundledDocument(path) => ContentView::BundledDocument(path@),
            SurfaceContent::ExternalAddress(address) => ContentView::ExternalAddress(address@),
        }
    }
}

/// Everything the shell needs to create a surface.
#[derive(Debug, PartialEq, Eq)]
pub struct WindowSpec {
    pub label: String,
    pub title: String,
    pub content: SurfaceContent,
    pub config: WindowConfig,
    /// Whether the window opens in the middle of the screen.
    pub centered: bool,
}

/// A `WindowSpec` as contracts see it.
pub struct WindowSpecView {
    pub label: Seq<char>,
    pub title: Seq<char>,
    pub content: ContentView,
    pub config: WindowConfig,
    pub centered: bool,
}

impl View for WindowSpec {
    type V = WindowSpecView;

    open spec fn view(&self) -> WindowSpecView {
        WindowSpecView {
            label: self.label@,
            title: self.title@,
            content: self.content@,
            config: self.config,
            centered: self.centered,
        }
    }
}

impl WindowSpecView {
    /// The label is a label, the window parameters are sound, and an outside
    /// address names an authority.
    pub open spec fn wf(self) -> bool {
        &&& is_label(self.label)
        &&& self.config.wf()
        &&& self.content matches ContentView::ExternalAddress(address) ==> has_authority(address)
    }

    /// The same surface under another label.
    pub open spec fn relabelled(self, label: Seq<char>) -> WindowSpecView {
        WindowSpecView { label, ..self }
    }
}

/// The surface of a reserved kind: its fixed label and title, its bundled
/// document and its preset, in the middle of the screen.
pub open spec fn reserved_window(kind: SurfaceKind) -> WindowSpecView
    recommends
        kind.is_reserved(),
{
    WindowSpecView {
        label: kind.label(),
        title: kind.title(),
        content: ContentView::BundledDocument(kind.document().unwrap()),
        config: kind.preset(),
        centered: true,
    }
}

/// A game surface: the given label, the given title or the default one, the
/// outside address, and the preset of game windows, in the middle of the
/// screen.
pub open spec fn game_window(
    address: Seq<char>,
    label: Seq<char>,
    title: Option<Seq<char>>,
) -> WindowSpecView {
    WindowSpecView {
        label,
        title: match title {
            Some(text) => text,
            None => SurfaceKind::Game.title(),
        },
        content: ContentView::ExternalAddress(address),
        config: SurfaceKind::Game.preset(),
        centered: true,
    }
}

/// The fixed labels of the reserved kinds are labels, and differ.
pub proof fn lemma_reserved_labels()
    ensures
        is_label(SurfaceKind::Login.label()),
        is_label(SurfaceKind::Main.label()),
        SurfaceKind::Login.label() != SurfaceKind::Main.label(),
{
    reveal_strlit("login");
    reveal_strlit("main");
    assert(SurfaceKind::Login.label().len() == 5);
    assert(SurfaceKind::Main.label().len() == 4);
}

impl WindowSpec {
    /// The login surface.
    pub fn login() -> (spec: WindowSpec)
        ensures
            spec@ == reserved_window(SurfaceKind::Login),
            spec@.wf(),
    {
        proof {
            lemma_reserved_labels();
        }
        WindowSpec {
            label: LOGIN_LABEL.to_owned(),
            title: LOGIN_TITLE.to_owned(),
            content: SurfaceContent::BundledDocument(LOGIN_DOCUMENT.to_owned()),
            config: SurfaceKind::Login.config(),
            centered: true,
        }
    }

    /// The main surface.
    pub fn main() -> (spec: WindowSpec)
        ensures
            spec@ == reserved_window(SurfaceKind::Main),
            spec@.wf(),
    {
        proof {
            lemma_reserved_labels();
        }
        WindowSpec {
            label: MAIN_LABEL.to_owned(),
            title: MAIN_TITLE.to_owned(),
            content: SurfaceContent::BundledDocument(MAIN_DOCUMENT.to_owned()),
            config: SurfaceKind::Main.config(),
            centered: true,
        }
    }

    /// A game surface under `label`, with `title` or the default title.
    pub fn game(address: ValidatedAddress, label: String, title: Option<&str>) -> (spec:
        WindowSpec)
        ensures
            spec@ == game_window(address@, label@, requested_text(title)),
            is_label(label@) ==> spec@.wf(),
    {
        proof {
            use_type_invariant(&address);
        }
        let title = match title {
            Some(text) => text.to_owned(),
            None => SurfaceKind::Game.default_title().to_owned(),
        };
        WindowSpec {
            label,
            title,
            content: SurfaceContent::ExternalAddress(address),
            config: SurfaceKind::Game.config(),
            centered: true,
        }
    }
}

} // verus!
