//! A model of the shell that runs an operation, and what holds of every run.
//!
//! The model is ghost: it says how a shell answers the requests of an
//! operation, so that whole operations can be reasoned about. It keeps the
//! labels of the live surfaces as a multiset, so that a duplicate would show.

use crate::error::{close_failure, creation_failure};
use crate::gate::initial_surface;
use crate::label::{base_label_of, lemma_busy_label_is_distinct, resolved_label};
use crate::lifecycle::{
    game_open, reserved_open, success, OutcomeView, Phase, ProgressView, ReplyView, RequestView,
    SurfaceOpenView,
};
use crate::presets::SurfaceKind;
use crate::surface::{game_window, lemma_reserved_labels, reserved_window};
use vstd::multiset::Multiset;
use vstd::prelude::*;

verus! {

/// The shell as an operation meets it.
pub struct Shell {
    /// The labels of the live surfaces.
    pub live: Multiset<Seq<char>>,
    /// What the clock hands over as a disambiguator.
    pub clock: u128,
    /// The reason with which the shell refuses to create a surface, if it does.
    pub create_fault: Option<Seq<char>>,
    /// The reason with which the shell refuses to close a surface, if it does.
    pub close_fault: Option<Seq<char>>,
}

/// A whole operation: the shell it leaves behind, how it ended, and what it
/// asked of the shell, in order.
pub struct Run {
    pub shell: Shell,
    pub outcome: OutcomeView,
    pub requests: Seq<RequestView>,
}

impl Shell {
    /// Whether a live surface carries `label`.
    pub open spec fn is_live(self, label: Seq<char>) -> bool {
        self.live.count(label) > 0
    }

    /// The shell after `request`, and its reply. A creation that succeeds adds
    /// the label of the surface, a close that succeeds takes one away, and a
    /// request that fails changes nothing.
    pub open spec fn answer(self, request: RequestView) -> (Shell, ReplyView) {
        match request {
            RequestView::Probe { label } => (self, ReplyView::Exists(self.is_live(label))),
            RequestView::ReadClock => (self, ReplyView::Clock(self.clock)),
            RequestView::Create { spec } => match self.create_fault {
                Some(reason) => (self, ReplyView::Created(Err(reason))),
                None => (
                    Shell { live: self.live.insert(spec.label), ..self },
                    ReplyView::Created(Ok(())),
                ),
            },
            RequestView::Close { label } => match self.close_fault {
                Some(reason) => (self, ReplyView::Closed(Err(reason))),
                None => (Shell { live: self.live.remove(label), ..self }, ReplyView::Closed(Ok(()))),
            },
        }
    }
}

/// Which reserved surfaces are live.
pub enum ReservedState {
    NoneOpen,
    LoginOpen,
    MainOpen,
    /// Both, as it is between the creation of one and the closing of the
    /// other, and stays where that closing fails.
    BothOpen,
}

impl Shell {
    /// Which reserved surfaces are live.
    pub open spec fn reserved_state(self) -> ReservedState {
        if self.is_live(SurfaceKind::Login.label()) {
            if self.is_live(SurfaceKind::Main.label()) {
                ReservedState::BothOpen
            } else {
                ReservedState::LoginOpen
            }
        } else if self.is_live(SurfaceKind::Main.label()) {
            ReservedState::MainOpen
        } else {
            ReservedState::NoneOpen
        }
    }
}

/// How many requests an operation can still make, at most.
pub open spec fn steps_left(phase: Phase) -> nat {
    match phase {
        Phase::Probe => 5,
        Phase::Clock => 4,
        Phase::Create => 3,
        Phase::ProbeRetiring(_) => 2,
        Phase::CloseRetiring(_) => 1,
    }
}

/// The operation `open` run to its end on `shell`.
pub open spec fn run(open: SurfaceOpenView, shell: Shell) -> Run
    decreases steps_left(open.phase),
{
    let request = open.request();
    let (shell, reply) = shell.answer(request);
    match open.advance(reply) {
        ProgressView::Done(outcome) => Run { shell, outcome, requests: seq![request] },
        ProgressView::Pending(next) => {
            let rest = run(next, shell);
            Run { requests: seq![request] + rest.requests, ..rest }
        },
    }
}

/// Whether `requests` asks for a creation.
pub open spec fn asks_to_create(requests: Seq<RequestView>) -> bool {
    exists|i: int| 0 <= i < requests.len() && #[trigger] requests[i] is Create
}

/// Whether `requests` asks for a close.
pub open spec fn asks_to_close(requests: Seq<RequestView>) -> bool {
    exists|i: int| 0 <= i < requests.len() && #[trigger] requests[i] is Close
}

/// Opening a reserved surface that is live already creates nothing: the
/// operation succeeds, and as many surfaces carry the label after it as
/// before. This holds with and without a handoff.
pub proof fn lemma_reopen_creates_nothing(kind: SurfaceKind, handoff: bool, shell: Shell)
    requires
        kind.is_reserved(),
        shell.is_live(kind.label()),
    ensures
        ({
            let done = run(reserved_open(kind, handoff), shell);
            &&& done.outcome.result is Ok
            &&& !asks_to_create(done.requests)
            &&& done.shell.live.count(kind.label()) == shell.live.count(kind.label())
        }),
{
    broadcast use vstd::multiset::group_multiset_axioms;

    lemma_reserved_labels();
    reveal_with_fuel(run, 4);
}

/// Opening a reserved surface with a handoff while the other reserved surface
/// is live, on a shell that can create: the surface asked for is live
/// afterwards and the operation succeeds; the last thing asked of the shell is
/// to close the other surface, after the creation where there was one. Where
/// the close goes through, one surface fewer carries the other label. Where it
/// fails, the failure is handed over on the side and nothing else changes.
pub proof fn lemma_handoff_opens_then_retires(kind: SurfaceKind, shell: Shell)
    requires
        kind.is_reserved(),
        shell.is_live(kind.counterpart().unwrap().label()),
        shell.create_fault is None,
    ensures
        ({
            let other = kind.counterpart().unwrap();
            let done = run(reserved_open(kind, true), shell);
            let probe = RequestView::Probe { label: kind.label() };
            let create = RequestView::Create { spec: reserved_window(kind) };
            let probe_other = RequestView::Probe { label: other.label() };
            let close = RequestView::Close { label: other.label() };
            &&& done.outcome.result is Ok
            &&& done.shell.is_live(kind.label())
            &&& done.requests == if shell.is_live(kind.label()) {
                seq![probe, probe_other, close]
            } else {
                seq![probe, create, probe_other, close]
            }
            &&& shell.close_fault is None ==> {
                &&& done.outcome.close_failure is None
                &&& done.shell.live.count(other.label()) == shell.live.count(other.label()) - 1
            }
            &&& shell.close_fault matches Some(reason) ==> {
                &&& done.outcome.close_failure == Some(close_failure(reason))
                &&& done.shell.live.count(other.label()) == shell.live.count(other.label())
            }
        }),
{
    broadcast use vstd::multiset::group_multiset_axioms;

    lemma_reserved_labels();
    reveal_with_fuel(run, 5);
    let other = kind.counterpart().unwrap();
    let done = run(reserved_open(kind, true), shell);
    let probe = RequestView::Probe { label: kind.label() };
    let create = RequestView::Create { spec: reserved_window(kind) };
    let probe_other = RequestView::Probe { label: other.label() };
    let close = RequestView::Close { label: other.label() };
    if shell.is_live(kind.label()) {
        assert(done.requests =~= seq![probe, probe_other, close]);
    } else {
        assert(done.requests =~= seq![probe, create, probe_other, close]);
    }
}

/// Opening a reserved surface never makes a second one: where at most one
/// surface carried its label before, at most one carries it afterwards,
/// whatever the shell answers.
pub proof fn lemma_reserved_stays_single(kind: SurfaceKind, handoff: bool, shell: Shell)
    requires
        kind.is_reserved(),
        shell.live.count(kind.label()) <= 1,
    ensures
        run(reserved_open(kind, handoff), shell).shell.live.count(kind.label()) <= 1,
{
    broadcast use vstd::multiset::group_multiset_axioms;

    lemma_reserved_labels();
    reveal_with_fuel(run, 5);
}

/// The state that holds only the surface of `kind`.
pub open spec fn only_open(kind: SurfaceKind) -> ReservedState
    recommends
        kind.is_reserved(),
{
    if kind == SurfaceKind::Main {
        ReservedState::MainOpen
    } else {
        ReservedState::LoginOpen
    }
}

/// How the reserved surfaces change, on a shell that holds at most one of
/// each and does what it is asked: a fresh process goes from none to the
/// surface of its session; opening one reserved surface with a handoff leaves
/// that one alone, whichever were live before. Where only the close fails,
/// both are live afterwards.
pub proof fn lemma_reserved_transitions(kind: SurfaceKind, session_valid: bool, shell: Shell)
    requires
        kind.is_reserved(),
        shell.live.count(SurfaceKind::Login.label()) <= 1,
        shell.live.count(SurfaceKind::Main.label()) <= 1,
        shell.create_fault is None,
    ensures
        shell.reserved_state() is NoneOpen ==> run(
            reserved_open(initial_surface(session_valid), false),
            shell,
        ).shell.reserved_state() == only_open(initial_surface(session_valid)),
        shell.close_fault is None ==> run(reserved_open(kind, true), shell).shell.reserved_state()
            == only_open(kind),
        shell.close_fault is Some && shell.is_live(kind.counterpart().unwrap().label()) ==> run(
            reserved_open(kind, true),
            shell,
        ).shell.reserved_state() is BothOpen,
{
    broadcast use vstd::multiset::group_multiset_axioms;

    lemma_reserved_labels();
    reveal_with_fuel(run, 5);
}

/// No operation on a reserved surface closes the last one: where a reserved
/// surface was live before, one is live afterwards, whatever the shell
/// answers.
pub proof fn lemma_reserved_never_all_closed(kind: SurfaceKind, handoff: bool, shell: Shell)
    requires
        kind.is_reserved(),
        !(shell.reserved_state() is NoneOpen),
    ensures
        !(run(reserved_open(kind, handoff), shell).shell.reserved_state() is NoneOpen),
{
    broadcast use vstd::multiset::group_multiset_axioms;

    lemma_reserved_labels();
    reveal_with_fuel(run, 5);
}

/// A creation that the shell refuses ends the operation with that failure and
/// leaves the shell as it was: no label is added and no close is asked for.
pub proof fn lemma_failed_creation_changes_nothing(
    open: SurfaceOpenView,
    shell: Shell,
    reason: Seq<char>,
)
    requires
        open.phase == Phase::Probe,
        shell.create_fault == Some(reason),
        open.kind.is_reserved() ==> !shell.is_live(open.spec.label),
    ensures
        ({
            let done = run(open, shell);
            &&& done.outcome.result == Err::<(), _>(creation_failure(reason))
            &&& done.outcome.close_failure is None
            &&& done.shell == shell
            &&& !asks_to_close(done.requests)
        }),
{
    reveal_with_fuel(run, 4);
}

/// A fresh process, on a shell that can create, ends with one surface: the
/// main surface where the session is valid, else the login surface, created
/// from the preset of its kind.
pub proof fn lemma_fresh_process_opens_one_surface(session_valid: bool, shell: Shell)
    requires
        shell.live == Multiset::<Seq<char>>::empty(),
        shell.create_fault is None,
    ensures
        ({
            let kind = initial_surface(session_valid);
            let done = run(reserved_open(kind, false), shell);
            &&& done.outcome == success()
            &&& done.shell.live == Multiset::singleton(kind.label())
            &&& done.requests == seq![
                RequestView::Probe { label: kind.label() },
                RequestView::Create { spec: reserved_window(kind) },
            ]
            &&& reserved_window(kind).config == kind.preset()
        }),
{
    broadcast use vstd::multiset::group_multiset_axioms;

    reveal_with_fuel(run, 3);
    let kind = initial_surface(session_valid);
    let done = run(reserved_open(kind, false), shell);
    assert(done.shell.live =~= Multiset::singleton(kind.label()));
    assert(done.requests =~= seq![
        RequestView::Probe { label: kind.label() },
        RequestView::Create { spec: reserved_window(kind) },
    ]);
}

/// Opening a game surface on a shell that can create adds one surface and
/// closes none. Its label is the base label where that is free, else the base
/// label with the disambiguator, which differs from the base label: the
/// surface that carries the base label stays.
pub proof fn lemma_game_open_adds_one_surface(
    address: Seq<char>,
    label: Option<Seq<char>>,
    title: Option<Seq<char>>,
    shell: Shell,
)
    requires
        shell.create_fault is None,
    ensures
        ({
            let base = base_label_of(label);
            let given = resolved_label(base, shell.is_live(base), shell.clock as nat);
            let done = run(game_open(address, label, title), shell);
            &&& done.outcome == success()
            &&& done.shell.live == shell.live.insert(given)
            &&& done.requests.last() == RequestView::Create {
                spec: game_window(address, given, title),
            }
            &&& !asks_to_close(done.requests)
            &&& shell.is_live(base) ==> given != base && (base + seq!['-']).is_prefix_of(given)
        }),
{
    reveal_with_fuel(run, 4);
    let base = base_label_of(label);
    lemma_busy_label_is_distinct(base, shell.clock as nat);
}

} // verus!
