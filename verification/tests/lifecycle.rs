use peridot_windows::commands::{open_game_window, open_login_window, open_main_window};
use peridot_windows::error::{ErrorKind, WindowError};
use peridot_windows::gate::{decide_initial_surface, open_initial_surface};
use peridot_windows::lifecycle::{Outcome, Progress, Reply, Request, SurfaceOpen};
use peridot_windows::presets::{SurfaceKind, WindowConfig};
use peridot_windows::surface::SurfaceContent;
use peridot_windows::windows::{
    build_login_window, build_main_window, create_game_window, create_login_window,
    create_main_window,
};

/// A surface as the fake shell keeps it.
#[derive(Debug, PartialEq, Eq)]
struct Surface {
    label: String,
    title: String,
    content: SurfaceContent,
    config: WindowConfig,
    centered: bool,
}

/// A shell that keeps its surfaces in a list and notes what it is asked.
#[derive(Debug, Default)]
struct FakeShell {
    live: Vec<Surface>,
    clock: u128,
    create_fault: Option<String>,
    close_fault: Option<String>,
    asked: Vec<String>,
}

impl FakeShell {
    fn with(labels: &[&str]) -> FakeShell {
        let mut shell = FakeShell::default();
        for label in labels {
            shell.live.push(Surface {
                label: String::from(*label),
                title: String::new(),
                content: SurfaceContent::BundledDocument(String::new()),
                config: SurfaceKind::Main.config(),
                centered: true,
            });
        }
        shell
    }

    fn count(&self, label: &str) -> usize {
        self.live.iter().filter(|surface| surface.label == label).count()
    }

    fn surface(&self, label: &str) -> &Surface {
        self.live.iter().find(|surface| surface.label == label).expect("a live surface")
    }

    fn perform(&mut self, request: Request<'_>) -> Reply {
        match request {
            Request::Probe { label } => {
                self.asked.push(format!("probe {label}"));
                Reply::Exists(self.count(label) > 0)
            }
            Request::ReadClock => {
                self.asked.push(String::from("clock"));
                Reply::Clock(self.clock)
            }
            Request::Create { spec } => {
                self.asked.push(format!("create {}", spec.label));
                match &self.create_fault {
                    Some(reason) => Reply::Created(Err(reason.clone())),
                    None => {
                        let content = match &spec.content {
                            SurfaceContent::BundledDocument(path) => {
                                SurfaceContent::BundledDocument(path.clone())
                            }
                            SurfaceContent::ExternalAddress(address) => {
                                SurfaceContent::BundledDocument(format!(
                                    "external {}",
                                    address.as_str()
                                ))
                            }
                        };
                        self.live.push(Surface {
                            label: spec.label.clone(),
                            title: spec.title.clone(),
                            content,
                            config: spec.config,
                            centered: spec.centered,
                        });
                        Reply::Created(Ok(()))
                    }
                }
            }
            Request::Close { label } => {
                self.asked.push(format!("close {label}"));
                match &self.close_fault {
                    Some(reason) => Reply::Closed(Err(reason.clone())),
                    None => {
                        let at = self
                            .live
                            .iter()
                            .position(|surface| surface.label == label)
                            .expect("a live surface to close");
                        self.live.remove(at);
                        Reply::Closed(Ok(()))
                    }
                }
            }
        }
    }

    fn run(&mut self, open: SurfaceOpen) -> Outcome {
        let mut open = open;
        for _ in 0..8 {
            let reply = self.perform(open.request());
            match open.advance(reply) {
                Progress::Pending(next) => open = next,
                Progress::Done(outcome) => return outcome,
            }
        }
        panic!("the operation did not end");
    }
}

fn success() -> Outcome {
    Outcome { result: Ok(()), close_failure: None }
}

#[test]
fn session_gate_routes_by_the_session() {
    assert_eq!(decide_initial_surface(true), SurfaceKind::Main);
    assert_eq!(decide_initial_surface(false), SurfaceKind::Login);
}

#[test]
fn fresh_process_without_session_opens_login() {
    let mut shell = FakeShell::default();
    let outcome = shell.run(open_initial_surface(false));
    assert_eq!(outcome, success());
    assert_eq!(shell.live.len(), 1);
    let surface = shell.surface("login");
    assert_eq!(surface.title, "PeridotVault \u{2013} Login");
    assert_eq!(surface.content, SurfaceContent::BundledDocument(String::from("login.html")));
    assert_eq!(surface.config, SurfaceKind::Login.config());
    assert!(surface.centered);
    assert_eq!(shell.asked, ["probe login", "create login"]);
}

#[test]
fn fresh_process_with_session_opens_main() {
    let mut shell = FakeShell::default();
    let outcome = shell.run(open_initial_surface(true));
    assert_eq!(outcome, success());
    assert_eq!(shell.live.len(), 1);
    let surface = shell.surface("main");
    assert_eq!(surface.title, "PeridotVault");
    assert_eq!(surface.content, SurfaceContent::BundledDocument(String::from("index.html")));
    assert_eq!(surface.config, SurfaceKind::Main.config());
    assert!(surface.centered);
    assert_eq!(shell.asked, ["probe main", "create main"]);
}

#[test]
fn open_main_creates_main_then_closes_login() {
    let mut shell = FakeShell::with(&["login"]);
    let outcome = shell.run(open_main_window());
    assert_eq!(outcome, success());
    assert_eq!(shell.count("main"), 1);
    assert_eq!(shell.count("login"), 0);
    assert_eq!(shell.asked, ["probe main", "create main", "probe login", "close login"]);
}

#[test]
fn open_login_creates_login_then_closes_main() {
    let mut shell = FakeShell::with(&["main"]);
    let outcome = shell.run(open_login_window(None));
    assert_eq!(outcome, success());
    assert_eq!(shell.count("login"), 1);
    assert_eq!(shell.count("main"), 0);
    assert_eq!(shell.asked, ["probe login", "create login", "probe main", "close main"]);
}

#[test]
fn the_stage_hint_changes_nothing() {
    let mut plain = FakeShell::with(&["main"]);
    let mut hinted = FakeShell::with(&["main"]);
    let outcome = plain.run(open_login_window(None));
    assert_eq!(hinted.run(open_login_window(Some(String::from("register")))), outcome);
    assert_eq!(hinted.asked, plain.asked);
    assert_eq!(hinted.live, plain.live);
}

#[test]
fn a_failed_close_does_not_undo_the_open() {
    let mut shell = FakeShell::with(&["login"]);
    shell.close_fault = Some(String::from("window is busy"));
    let outcome = shell.run(open_main_window());
    assert_eq!(outcome.result, Ok(()));
    assert_eq!(
        outcome.close_failure,
        Some(WindowError {
            kind: ErrorKind::SurfaceCloseFailed,
            message: String::from("window is busy"),
        })
    );
    assert_eq!(shell.count("main"), 1);
    assert_eq!(shell.count("login"), 1);
    assert_eq!(shell.asked, ["probe main", "create main", "probe login", "close login"]);
}

#[test]
fn open_login_when_login_is_live_creates_nothing() {
    let mut shell = FakeShell::with(&["login"]);
    let outcome = shell.run(open_login_window(None));
    assert_eq!(outcome, success());
    assert_eq!(shell.count("login"), 1);
    assert_eq!(shell.live.len(), 1);
    assert_eq!(shell.asked, ["probe login", "probe main"]);
}

#[test]
fn open_main_when_both_are_live_only_closes_login() {
    let mut shell = FakeShell::with(&["main", "login"]);
    let outcome = shell.run(open_main_window());
    assert_eq!(outcome, success());
    assert_eq!(shell.count("main"), 1);
    assert_eq!(shell.count("login"), 0);
    assert_eq!(shell.asked, ["probe main", "probe login", "close login"]);
}

#[test]
fn open_main_on_an_empty_shell_closes_nothing() {
    let mut shell = FakeShell::default();
    let outcome = shell.run(open_main_window());
    assert_eq!(outcome, success());
    assert_eq!(shell.live.len(), 1);
    assert_eq!(shell.asked, ["probe main", "create main", "probe login"]);
}

#[test]
fn a_failed_creation_ends_the_operation() {
    let mut shell = FakeShell::with(&["login"]);
    shell.create_fault = Some(String::from("out of handles"));
    let outcome = shell.run(open_main_window());
    assert_eq!(
        outcome.result,
        Err(WindowError {
            kind: ErrorKind::SurfaceCreationFailed,
            message: String::from("out of handles"),
        })
    );
    assert_eq!(outcome.close_failure, None);
    assert_eq!(shell.count("main"), 0);
    assert_eq!(shell.count("login"), 1);
    assert_eq!(shell.asked, ["probe main", "create main"]);
}

#[test]
fn creating_a_reserved_surface_retires_nothing() {
    let mut shell = FakeShell::with(&["login"]);
    assert_eq!(shell.run(create_main_window()), success());
    assert_eq!(shell.count("main"), 1);
    assert_eq!(shell.count("login"), 1);
    assert_eq!(shell.asked, ["probe main", "create main"]);

    let mut shell = FakeShell::with(&["main"]);
    assert_eq!(shell.run(create_login_window()), success());
    assert_eq!(shell.count("login"), 1);
    assert_eq!(shell.count("main"), 1);
}

#[test]
fn building_a_live_reserved_surface_is_a_no_op() {
    let mut shell = FakeShell::with(&["main", "login"]);
    assert_eq!(shell.run(build_main_window()), success());
    assert_eq!(shell.run(build_login_window()), success());
    assert_eq!(shell.live.len(), 2);
    assert_eq!(shell.asked, ["probe main", "probe login"]);
}

#[test]
fn game_window_on_an_empty_shell_gets_the_defaults() {
    let mut shell = FakeShell::default();
    let open = open_game_window(String::from("https://game.example/play"), None, None)
        .expect("a valid address");
    assert_eq!(shell.run(open), success());
    assert_eq!(shell.live.len(), 1);
    let surface = shell.surface("game-webview");
    assert_eq!(surface.title, "PeridotVault \u{2013} Game");
    assert_eq!(
        surface.content,
        SurfaceContent::BundledDocument(String::from("external https://game.example/play"))
    );
    assert_eq!(surface.config, SurfaceKind::Game.config());
    assert!(surface.centered);
    assert_eq!(shell.asked, ["probe game-webview", "create game-webview"]);
}

#[test]
fn second_game_window_gets_a_disambiguated_label() {
    let mut shell = FakeShell::default();
    shell.clock = 1_761_624_000_123;
    let first = create_game_window("https://game.example/play", None, None).expect("valid");
    assert_eq!(shell.run(first), success());
    let second = create_game_window("https://game.example/play", None, None).expect("valid");
    assert_eq!(shell.run(second), success());
    assert_eq!(shell.live.len(), 2);
    assert_eq!(shell.count("game-webview"), 1);
    assert_eq!(shell.count("game-webview-1761624000123"), 1);
    assert_eq!(
        shell.asked,
        [
            "probe game-webview",
            "create game-webview",
            "probe game-webview",
            "clock",
            "create game-webview-1761624000123",
        ]
    );
}

#[test]
fn game_window_takes_the_requested_label_and_title() {
    let mut shell = FakeShell::default();
    let open = create_game_window("https://game.example/play", Some("my arena"), Some("Arena"))
        .expect("valid");
    assert_eq!(shell.run(open), success());
    let surface = shell.surface("my-arena");
    assert_eq!(surface.title, "Arena");
}

#[test]
fn game_window_with_an_invalid_address_creates_nothing() {
    let error = open_game_window(String::from("garbage"), None, None).expect_err("no address");
    assert_eq!(error.kind, ErrorKind::InvalidAddress);
    assert_eq!(error.message, "Invalid game URL 'garbage': relative URL without a base");
    let error = create_game_window("garbage", Some("x"), Some("y")).expect_err("no address");
    assert_eq!(error.kind, ErrorKind::InvalidAddress);
}

#[test]
fn a_failed_game_creation_is_handed_over() {
    let mut shell = FakeShell::default();
    shell.create_fault = Some(String::from("no display"));
    let open = create_game_window("https://game.example/play", None, None).expect("valid");
    let outcome = shell.run(open);
    assert_eq!(
        outcome.result,
        Err(WindowError {
            kind: ErrorKind::SurfaceCreationFailed,
            message: String::from("no display"),
        })
    );
    assert!(shell.live.is_empty());
}

#[test]
fn a_reply_that_answers_another_request_changes_nothing() {
    let open = open_main_window();
    let open = match open.advance(Reply::Closed(Ok(()))) {
        Progress::Pending(same) => same,
        Progress::Done(_) => panic!("the operation has not begun"),
    };
    match open.request() {
        Request::Probe { label } => assert_eq!(label, "main"),
        other => panic!("unexpected request {other:?}"),
    }
    let open = match open.advance(Reply::Clock(3)) {
        Progress::Pending(same) => same,
        Progress::Done(_) => panic!("the operation has not begun"),
    };
    let open = match open.advance(Reply::Exists(false)) {
        Progress::Pending(next) => next,
        Progress::Done(_) => panic!("the surface is not there yet"),
    };
    match open.request() {
        Request::Create { spec } => assert_eq!(spec.label, "main"),
        other => panic!("unexpected request {other:?}"),
    }
}
