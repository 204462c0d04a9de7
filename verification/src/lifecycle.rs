//! Opening a surface, step by step.
//!
//! An operation never touches a window. It says what the shell must do next
//! (`request`), is told what came of it (`advance`), and ends with an
//! `Outcome`. The shell runs the loop; the decisions are made here.

use crate::address::ValidatedAddress;
use crate::error::{close_failure, creation_failure, WindowError, WindowErrorView};
use crate::label::{base_label, base_label_of, disambiguated, requested_text, resolve_label};
use crate::presets::SurfaceKind;
use crate::surface::{game_window, reserved_window, WindowSpec, WindowSpecView};
use vstd::prelude::*;

verus! {

/// What an operation is waiting for.
#[derive(Clone, Copy, Debug, PartialEq, Eq, Structural)]
pub enum Phase {
    /// Whether a live surface carries the label of the surface to open.
    Probe,
    /// A disambiguator: the label of the game surface is taken.
    Clock,
    /// The creation of the surface.
    Create,
    /// Whether the reserved surface that gives way is live.
    ProbeRetiring(SurfaceKind),
    /// The closing of the reserved surface that gives way.
    CloseRetiring(SurfaceKind),
}

/// What the shell must do next.
#[derive(Clone, Copy, Debug)]
pub enum Request<'a> {
    /// Say whether a live surface carries `label`.
    Probe { label: &'a str },
    /// Hand over a disambiguator: the milliseconds of the wall clock, or a
    /// counter.
    ReadClock,
    /// Create the surface.
    Create { spec: &'a WindowSpec },
    /// Close the surface that carries `label`.
    Close { label: &'a str },
}

/// A `Request` as contracts see it.
pub enum RequestView {
    Probe { label: Seq<char> },
    ReadClock,
    Create { spec: WindowSpecView },
    Close { label: Seq<char> },
}

impl<'a> View for Request<'a> {
    type V = RequestView;

    open spec fn view(&self) -> RequestView {
        match self {
            Request::Probe { label } => RequestView::Probe { label: label@ },
            Request::ReadClock => RequestView::ReadClock,
            Request::Create { spec } => RequestView::Create { spec: spec@ },
            Request::Close { label } => RequestView::Close { label: label@ },
        }
    }
}

/// What came of a request. A failure carries the reason the shell gave.
#[derive(Debug, PartialEq, Eq)]
pub enum Reply {
    /// The answer to `Probe`.
    Exists(bool),
    /// The answer to `ReadClock`.
    Clock(u128),
    /// The answer to `Create`.
    Created(Result<(), String>),
    /// The answer to `Close`.
    Closed(Result<(), String>),
}

/// A `Reply` as contracts see it.
pub enum ReplyView {
    Exists(bool),
    Clock(u128),
    Created(Result<(), Seq<char>>),
    Closed(Result<(), Seq<char>>),
}

impl View for Reply {
    type V = ReplyView;

    open spec fn view(&self) -> ReplyView {
        match self {
            Reply::Exists(live) => ReplyView::Exists(*live),
            Reply::Clock(token) => ReplyView::Clock(*token),
            Reply::Created(Ok(_)) => ReplyView::Created(Ok(())),
            Reply::Created(Err(reason)) => ReplyView::Created(Err(reason@)),
            Reply::Closed(Ok(_)) => ReplyView::Closed(Ok(())),
            Reply::Closed(Err(reason)) => ReplyView::Closed(Err(reason@)),
        }
    }
}

/// How an operation ended.
#[derive(Debug, PartialEq, Eq)]
pub struct Outcome {
    /// Whether the surface asked for is there: created, or live already.
    pub result: Result<(), WindowError>,
    /// The failure to close the surface that gave way. It is for the log: it
    /// never makes the operation fail.
    pub close_failure: Option<WindowError>,
}

/// An `Outcome` as contracts see it.
pub struct OutcomeView {
    pub result: Result<(), WindowErrorView>,
    pub close_failure: Option<WindowErrorView>,
}

impl View for Outcome {
    type V = OutcomeView;

    open spec fn view(&self) -> OutcomeView {
        OutcomeView {
            result: match self.result {
                Ok(_) => Ok(()),
                Err(error) => Err(error@),
            },
            close_failure: match self.close_failure {
                Some(error) => Some(error@),
                None => None,
            },
        }
    }
}

/// The outcome of an operation that went through.
pub open spec fn success() -> OutcomeView {
    OutcomeView { result: Ok(()), close_failure: None }
}

/// An operation to open a surface, at some step of its course.
#[derive(Debug)]
pub struct SurfaceOpen {
    kind: SurfaceKind,
    retire: Option<SurfaceKind>,
    spec: WindowSpec,
    phase: Phase,
}

/// A `SurfaceOpen` as contracts see it.
pub struct SurfaceOpenView {
    /// The kind of the surface to open.
    pub kind: SurfaceKind,
    /// The reserved kind whose surface is closed once this one is open.
    pub retire: Option<SurfaceKind>,
    /// The surface to create.
    pub spec: WindowSpecView,
    /// What the operation is waiting for.
    pub phase: Phase,
}

/// Where an operation stands after a reply.
#[derive(Debug)]
pub enum Progress {
    /// There is more to do.
    Pending(SurfaceOpen),
    /// The operation is over.
    Done(Outcome),
}

/// A `Progress` as contracts see it.
pub enum ProgressView {
    Pending(SurfaceOpenView),
    Done(OutcomeView),
}

impl SurfaceOpenView {
    /// The surface to create is sound and of the kind that is opened; only a
    /// game surface waits for a disambiguator; and only the counterpart of a
    /// reserved kind is retired.
    pub open spec fn wf(self) -> bool {
        &&& self.spec.wf()
        &&& self.spec.centered
        &&& self.spec.config == self.kind.preset()
        &&& self.kind.is_reserved() ==> self.spec == reserved_window(self.kind)
        &&& !self.kind.is_reserved() ==> self.spec.content is ExternalAddress
        &&& self.phase is Clock ==> !self.kind.is_reserved()
        &&& self.retire matches Some(other) ==> self.kind.counterpart() == Some(other)
        &&& self.phase matches Phase::ProbeRetiring(other) ==> self.retire == Some(other)
        &&& self.phase matches Phase::CloseRetiring(other) ==> self.retire == Some(other)
    }

    /// The same operation, waiting for something else.
    pub open spec fn at(self, phase: Phase) -> SurfaceOpenView {
        SurfaceOpenView { phase, ..self }
    }

    /// What the shell must do next.
    pub open spec fn request(self) -> RequestView {
        match self.phase {
            Phase::Probe => RequestView::Probe { label: self.spec.label },
            Phase::Clock => RequestView::ReadClock,
            Phase::Create => RequestView::Create { spec: self.spec },
            Phase::ProbeRetiring(kind) => RequestView::Probe { label: kind.label() },
            Phase::CloseRetiring(kind) => RequestView::Close { label: kind.label() },
        }
    }

    /// Where the operation stands once the surface asked for is there: it goes
    /// on to retire the other reserved surface, or it is over.
    pub open spec fn opened(self) -> ProgressView {
        match self.retire {
            Some(kind) => ProgressView::Pending(self.at(Phase::ProbeRetiring(kind))),
            None => ProgressView::Done(success()),
        }
    }

    /// Where the operation stands after `reply`.
    ///
    /// A live surface under the label asked for is kept if the kind is
    /// reserved, and makes a game surface take another label. A failed
    /// creation ends the operation with that failure. A failed close ends it
    /// with success and the failure on the side. A reply that does not answer
    /// the pending request changes nothing.
    pub open spec fn advance(self, reply: ReplyView) -> ProgressView {
        match (self.phase, reply) {
            (Phase::Probe, ReplyView::Exists(live)) => if !live {
                ProgressView::Pending(self.at(Phase::Create))
            } else if self.kind.is_reserved() {
                self.opened()
            } else {
                ProgressView::Pending(self.at(Phase::Clock))
            },
            (Phase::Clock, ReplyView::Clock(token)) => ProgressView::Pending(
                SurfaceOpenView {
                    spec: self.spec.relabelled(disambiguated(self.spec.label, token as nat)),
                    phase: Phase::Create,
                    ..self
                },
            ),
            (Phase::Create, ReplyView::Created(Ok(_))) => self.opened(),
            (Phase::Create, ReplyView::Created(Err(reason))) => ProgressView::Done(
                OutcomeView { result: Err(creation_failure(reason)), close_failure: None },
            ),
            (Phase::ProbeRetiring(kind), ReplyView::Exists(live)) => if live {
                ProgressView::Pending(self.at(Phase::CloseRetiring(kind)))
            } else {
                ProgressView::Done(success())
            },
            (Phase::CloseRetiring(_), ReplyView::Closed(Ok(_))) => ProgressView::Done(success()),
            (Phase::CloseRetiring(_), ReplyView::Closed(Err(reason))) => ProgressView::Done(
                OutcomeView { result: Ok(()), close_failure: Some(close_failure(reason)) },
            ),
            _ => ProgressView::Pending(self),
        }
    }
}

/// The operation that opens the surface of a reserved kind, at its start.
/// With `handoff`, the other reserved surface is retired afterwards.
pub open spec fn reserved_open(kind: SurfaceKind, handoff: bool) -> SurfaceOpenView
    recommends
        kind.is_reserved(),
{
    SurfaceOpenView {
        kind,
        retire: if handoff {
            kind.counterpart()
        } else {
            None
        },
        spec: reserved_window(kind),
        phase: Phase::Probe,
    }
}

/// The operation that opens a game surface on `address`, at its start.
pub open spec fn game_open(
    address: Seq<char>,
    label: Option<Seq<char>>,
    title: Option<Seq<char>>,
) -> SurfaceOpenView {
    SurfaceOpenView {
        kind: SurfaceKind::Game,
        retire: None,
        spec: game_window(address, base_label_of(label), title),
        phase: Phase::Probe,
    }
}

impl View for SurfaceOpen {
    type V = SurfaceOpenView;

    closed spec fn view(&self) -> SurfaceOpenView {
        SurfaceOpenView {
            kind: self.kind,
            retire: self.retire,
            spec: self.spec@,
            phase: self.phase,
        }
    }
}

impl View for Progress {
    type V = ProgressView;

    open spec fn view(&self) -> ProgressView {
        match self {
            Progress::Pending(next) => ProgressView::Pending(next@),
            Progress::Done(outcome) => ProgressView::Done(outcome@),
        }
    }
}

impl SurfaceOpen {
    #[verifier::type_invariant]
    spec fn inv(self) -> bool {
        self@.wf()
    }

    /// Starts opening the login surface.
    pub fn login(handoff: bool) -> (open: SurfaceOpen)
        ensures
            open@ == reserved_open(SurfaceKind::Login, handoff),
            open@.wf(),
    {
        SurfaceOpen {
            kind: SurfaceKind::Login,
            retire: if handoff {
                SurfaceKind::Login.other_reserved()
            } else {
                None
            },
            spec: WindowSpec::login(),
            phase: Phase::Probe,
        }
    }

    /// Starts opening the main surface.
    pub fn main(handoff: bool) -> (open: SurfaceOpen)
        ensures
            open@ == reserved_open(SurfaceKind::Main, handoff),
            open@.wf(),
    {
        SurfaceOpen {
            kind: SurfaceKind::Main,
            retire: if handoff {
                SurfaceKind::Main.other_reserved()
            } else {
                None
            },
            spec: WindowSpec::main(),
            phase: Phase::Probe,
        }
    }

    /// Starts opening a game surface on an address that passed validation.
    pub fn game(address: ValidatedAddress, label: Option<&str>, title: Option<&str>) -> (open:
        SurfaceOpen)
        ensures
            open@ == game_open(address@, requested_text(label), requested_text(title)),
            open@.wf(),
    {
        let base = base_label(label);
        SurfaceOpen {
            kind: SurfaceKind::Game,
            retire: None,
            spec: WindowSpec::game(address, base, title),
            phase: Phase::Probe,
        }
    }

    /// What the shell must do next. A surface to create is always sound.
    pub fn request(&self) -> (request: Request<'_>)
        ensures
            request@ == self@.request(),
            self@.wf(),
    {
        proof {
            use_type_invariant(self);
        }
        match self.phase {
            Phase::Probe => Request::Probe { label: self.spec.label.as_str() },
            Phase::Clock => Request::ReadClock,
            Phase::Create => Request::Create { spec: &self.spec },
            Phase::ProbeRetiring(kind) => Request::Probe { label: kind.default_label() },
            Phase::CloseRetiring(kind) => Request::Close { label: kind.default_label() },
        }
    }

    /// Takes the shell's reply and says where the operation stands.
    pub fn advance(self, reply: Reply) -> (progress: Progress)
        ensures
            progress@ == self@.advance(reply@),
            progress matches Progress::Pending(next) ==> next@.wf(),
    {
        proof {
            use_type_invariant(&self);
        }
        match (self.phase, reply) {
            (Phase::Probe, Reply::Exists(live)) => {
                if !live {
                    Progress::Pending(self.at(Phase::Create))
                } else if self.kind.reserved() {
                    self.opened()
                } else {
                    Progress::Pending(self.at(Phase::Clock))
                }
            },
            (Phase::Clock, Reply::Clock(token)) => {
                let SurfaceOpen { kind, retire, spec, phase: _ } = self;
                let WindowSpec { label, title, content, config, centered } = spec;
                let label = resolve_label(label, true, token);
                let spec = WindowSpec { label, title, content, config, centered };
                Progress::Pending(SurfaceOpen { kind, retire, spec, phase: Phase::Create })
            },
            (Phase::Create, Reply::Created(Ok(_))) => self.opened(),
            (Phase::Create, Reply::Created(Err(reason))) => Progress::Done(
                Outcome { result: Err(WindowError::creation_failed(reason)), close_failure: None },
            ),
            (Phase::ProbeRetiring(other), Reply::Exists(live)) => {
                if live {
                    Progress::Pending(self.at(Phase::CloseRetiring(other)))
                } else {
                    Progress::Done(Outcome { result: Ok(()), close_failure: None })
                }
            },
            (Phase::CloseRetiring(_), Reply::Closed(Ok(_))) => Progress::Done(
                Outcome { result: Ok(()), close_failure: None },
            ),
            (Phase::CloseRetiring(_), Reply::Closed(Err(reason))) => Progress::Done(
                Outcome { result: Ok(()), close_failure: Some(WindowError::close_failed(reason)) },
            ),
            _ => Progress::Pending(self),
        }
    }

    /// The same operation, waiting for something else.
    fn at(self, phase: Phase) -> (next: SurfaceOpen)
        requires
            self@.at(phase).wf(),
        ensures
            next@ == self@.at(phase),
    {
        SurfaceOpen { kind: self.kind, retire: self.retire, spec: self.spec, phase }
    }

    /// Where the operation stands once the surface asked for is there.
    fn opened(self) -> (progress: Progress)
        ensures
            progress@ == self@.opened(),
    {
        proof {
            use_type_invariant(&self);
        }
        match self.retire {
            Some(other) => Progress::Pending(self.at(Phase::ProbeRetiring(other))),
            None => Progress::Done(Outcome { result: Ok(()), close_failure: None }),
        }
    }
}

} // verus!
