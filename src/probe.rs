//! The probe as a state machine: each reply of the host moves it one stage on
//! and names the next host call to make.
use vstd::prelude::*;
use vstd::utf8::{decode_utf8, valid_utf8};

use crate::report::{outcome_view, Field, ProbeError};

verus! {

/// The most bytes asked of the body stream in one read.
pub const CHUNK_LIMIT: u64 = 4096;

/// The `host:port` the probe is sent to.
pub const PROXY_AUTHORITY: &'static str = "127.0.0.1:8083";

/// The path of the health endpoint.
pub const PROXY_PATH: &'static str = "/health";

/// Where a probe stands.
#[derive(Clone, Copy, Debug, PartialEq, Eq, Structural)]
pub enum Stage {
    /// The given field of the request is being set.
    Setting(Field),
    /// The request is being sent.
    Submitting,
    /// The pending response is queried for the first time.
    Resolving,
    /// The probe waits for the pending response and queries it once more.
    Waiting,
    /// The body of a 200 response is being taken.
    TakingBody,
    /// The body's byte stream is being opened.
    OpeningStream,
    /// The stream is read chunk by chunk.
    Draining,
    /// The stream is released and the body finalized.
    Finishing,
    /// The outcome is known.
    Done,
}

/// A host call that the probe asks for.
#[derive(Clone, Copy, Debug, PartialEq, Eq, Structural)]
pub enum Action {
    /// Set a field of the request: method GET, scheme http,
    /// [`PROXY_AUTHORITY`], or [`PROXY_PATH`].
    SetField(Field),
    /// Send the request with no body.
    Submit,
    /// Query the pending response.
    Get,
    /// Block on the pending response's readiness, then query it again.
    WaitThenGet,
    /// Take the body of the response.
    TakeBody,
    /// Open the body's byte stream.
    OpenStream,
    /// Read at most this many bytes from the stream.
    Read(u64),
    /// Release the stream, then finalize the body.
    Finish,
    /// Nothing more to do: the outcome is ready.
    Report,
}

/// What the host answers to an action.
#[derive(Debug, PartialEq, Eq)]
pub enum Event {
    FieldAccepted,
    FieldRejected,
    Submitted,
    SubmitFailed(String),
    /// The pending response has not resolved yet.
    NotReady,
    /// A response with this status code.
    Response(u16),
    HttpError(String),
    /// The pending response had already been taken.
    AlreadyConsumed,
    BodyTaken,
    BodyFailed,
    StreamOpened,
    StreamFailed,
    /// Bytes read from the stream; none at the end of the stream.
    Chunk(Vec<u8>),
    ReadFailed,
    /// The stream was released and the body finalized.
    Finished,
}

/// A probe, as its contracts see it.
pub struct ProbeView {
    pub stage: Stage,
    /// The body bytes gathered so far.
    pub body: Seq<u8>,
    /// The outcome, once the probe is done.
    pub outcome: Option<Result<Seq<char>, ProbeError>>,
}

/// One health check against the proxy, from the first field set to the outcome.
pub struct Probe {
    stage: Stage,
    body: Vec<u8>,
    outcome: Option<Result<String, ProbeError>>,
}

impl View for Probe {
    type V = ProbeView;

    closed spec fn view(&self) -> ProbeView {
        ProbeView {
            stage: self.stage,
            body: self.body@,
            outcome: match self.outcome {
                Some(o) => Some(outcome_view(o)),
                None => None,
            },
        }
    }
}

/// The probe before any host call.
pub open spec fn start_view() -> ProbeView {
    ProbeView { stage: Stage::Setting(Field::Method), body: Seq::empty(), outcome: None }
}

/// The field set after `f`, if any.
pub open spec fn following(f: Field) -> Option<Field> {
    match f {
        Field::Method => Some(Field::Scheme),
        Field::Scheme => Some(Field::Authority),
        Field::Authority => Some(Field::PathWithQuery),
        Field::PathWithQuery => None,
    }
}

/// The host call that a probe at stage `s` asks for.
pub open spec fn pending_action(s: Stage) -> Action {
    match s {
        Stage::Setting(f) => Action::SetField(f),
        Stage::Submitting => Action::Submit,
        Stage::Resolving => Action::Get,
        Stage::Waiting => Action::WaitThenGet,
        Stage::TakingBody => Action::TakeBody,
        Stage::OpeningStream => Action::OpenStream,
        Stage::Draining => Action::Read(CHUNK_LIMIT),
        Stage::Finishing => Action::Finish,
        Stage::Done => Action::Report,
    }
}

/// Whether `e` answers the host call that stage `s` asks for.
pub open spec fn accepts(s: Stage, e: Event) -> bool {
    match s {
        Stage::Setting(_) => e is FieldAccepted || e is FieldRejected,
        Stage::Submitting => e is Submitted || e is SubmitFailed,
        Stage::Resolving | Stage::Waiting => {
            e is NotReady || e is Response || e is HttpError || e is AlreadyConsumed
        },
        Stage::TakingBody => e is BodyTaken || e is BodyFailed,
        Stage::OpeningStream => e is StreamOpened || e is StreamFailed,
        Stage::Draining => e is Chunk || e is ReadFailed,
        Stage::Finishing => e is Finished,
        Stage::Done => false,
    }
}

/// What the gathered body decodes to.
pub open spec fn decoded(bytes: Seq<u8>) -> Result<Seq<char>, ProbeError> {
    if valid_utf8(bytes) {
        Ok(decode_utf8(bytes))
    } else {
        Err(ProbeError::NotUtf8)
    }
}

/// `v` moved on to stage `s`.
pub open spec fn moved(v: ProbeView, s: Stage) -> ProbeView {
    ProbeView { stage: s, ..v }
}

/// `v` done with the failure `e`.
pub open spec fn failed(v: ProbeView, e: ProbeError) -> ProbeView {
    ProbeView { stage: Stage::Done, outcome: Some(Err(e)), ..v }
}

/// The probe after the pending response was queried and answered with `e`;
/// `first` tells whether the probe has not waited yet.
pub open spec fn resolved(v: ProbeView, e: Event, first: bool) -> ProbeView {
    match e {
        Event::Response(code) => if code == 200 {
            moved(v, Stage::TakingBody)
        } else {
            failed(v, ProbeError::UnexpectedStatus(code))
        },
        Event::HttpError(d) => failed(v, ProbeError::HttpProtocol(d)),
        Event::NotReady => if first {
            moved(v, Stage::Waiting)
        } else {
            failed(v, ProbeError::UnexpectedPollResult)
        },
        _ => if first {
            failed(v, ProbeError::ResponseAlreadyConsumed)
        } else {
            failed(v, ProbeError::UnexpectedPollResult)
        },
    }
}

/// The probe after the host answered its pending call with `e`, an answer
/// that its stage accepts.
pub open spec fn answer(v: ProbeView, e: Event) -> ProbeView {
    match v.stage {
        Stage::Setting(f) => match e {
            Event::FieldAccepted => match following(f) {
                Some(g) => moved(v, Stage::Setting(g)),
                None => moved(v, Stage::Submitting),
            },
            _ => failed(v, ProbeError::RequestBuild(f)),
        },
        Stage::Submitting => match e {
            Event::SubmitFailed(d) => failed(v, ProbeError::TransportSubmit(d)),
            _ => moved(v, Stage::Resolving),
        },
        Stage::Resolving => resolved(v, e, true),
        Stage::Waiting => resolved(v, e, false),
        Stage::TakingBody => match e {
            Event::BodyTaken => moved(v, Stage::OpeningStream),
            _ => failed(v, ProbeError::BodyUnavailable),
        },
        Stage::OpeningStream => match e {
            Event::StreamOpened => moved(v, Stage::Draining),
            _ => failed(v, ProbeError::StreamUnavailable),
        },
        Stage::Draining => match e {
            Event::Chunk(c) => if c@.len() == 0 {
                moved(v, Stage::Finishing)
            } else {
                ProbeView { body: v.body + c@, ..v }
            },
            _ => moved(v, Stage::Finishing),
        },
        Stage::Finishing => ProbeView {
            stage: Stage::Done,
            body: Seq::empty(),
            outcome: Some(decoded(v.body)),
        },
        Stage::Done => v,
    }
}

/// Relies on `String::from_utf8`: it returns the text that the bytes encode,
/// and fails exactly where they are not UTF-8.
#[verifier::external_body]
fn text_from_utf8(bytes: Vec<u8>) -> (r: Option<String>)
    ensures
        r is Some <==> valid_utf8(bytes@),
        r is Some ==> r->0@ == decode_utf8(bytes@),
{
    String::from_utf8(bytes).ok()
}

impl Probe {
    /// A probe of the proxy's health endpoint, about to set the request's method.
    pub fn new() -> (p: Probe)
        ensures
            p@ == start_view(),
    {
        let p = Probe { stage: Stage::Setting(Field::Method), body: Vec::new(), outcome: None };
        assert(p@.body =~= Seq::<u8>::empty());
        p
    }

    /// The stage the probe stands at.
    pub fn stage(&self) -> (s: Stage)
        ensures
            s == self@.stage,
    {
        self.stage
    }

    /// The host call the probe waits on.
    pub fn next_action(&self) -> (a: Action)
        ensures
            a == pending_action(self@.stage),
    {
        match self.stage {
            Stage::Setting(f) => Action::SetField(f),
            Stage::Submitting => Action::Submit,
            Stage::Resolving => Action::Get,
            Stage::Waiting => Action::WaitThenGet,
            Stage::TakingBody => Action::TakeBody,
            Stage::OpeningStream => Action::OpenStream,
            Stage::Draining => Action::Read(CHUNK_LIMIT),
            Stage::Finishing => Action::Finish,
            Stage::Done => Action::Report,
        }
    }

    /// Whether `e` answers the host call the probe waits on.
    pub fn accepts(&self, e: &Event) -> (r: bool)
        ensures
            r == accepts(self@.stage, *e),
    {
        match self.stage {
            Stage::Setting(_) => matches!(e, Event::FieldAccepted | Event::FieldRejected),
            Stage::Submitting => matches!(e, Event::Submitted | Event::SubmitFailed(_)),
            Stage::Resolving | Stage::Waiting => matches!(
                e,
                Event::NotReady | Event::Response(_) | Event::HttpError(_) | Event::AlreadyConsumed
            ),
            Stage::TakingBody => matches!(e, Event::BodyTaken | Event::BodyFailed),
            Stage::OpeningStream => matches!(e, Event::StreamOpened | Event::StreamFailed),
            Stage::Draining => matches!(e, Event::Chunk(_) | Event::ReadFailed),
            Stage::Finishing => matches!(e, Event::Finished),
            Stage::Done => false,
        }
    }

    fn fail(&mut self, e: ProbeError)
        ensures
            final(self)@ == failed(old(self)@, e),
    {
        self.stage = Stage::Done;
        self.outcome = Some(Err(e));
    }

    fn resolve(&mut self, e: Event, first: bool)
        ensures
            final(self)@ == resolved(old(self)@, e, first),
    {
        match e {
            Event::Response(code) => {
                if code == 200 {
                    self.stage = Stage::TakingBody;
                } else {
                    self.fail(ProbeError::UnexpectedStatus(code));
                }
            },
            Event::HttpError(d) => self.fail(ProbeError::HttpProtocol(d)),
            Event::NotReady => {
                if first {
                    self.stage = Stage::Waiting;
                } else {
                    self.fail(ProbeError::UnexpectedPollResult);
                }
            },
            _ => {
                if first {
                    self.fail(ProbeError::ResponseAlreadyConsumed);
                } else {
                    self.fail(ProbeError::UnexpectedPollResult);
                }
            },
        }
    }

    /// Takes the host's answer to the pending call and returns the next call
    /// to make.
    pub fn step(&mut self, e: Event) -> (a: Action)
        requires
            accepts(old(self)@.stage, e),
        ensures
            final(self)@ == answer(old(self)@, e),
            a == pending_action(final(self)@.stage),
    {
        match self.stage {
            Stage::Setting(f) => match e {
                Event::FieldAccepted => {
                    self.stage = match f {
                        Field::Method => Stage::Setting(Field::Scheme),
                        Field::Scheme => Stage::Setting(Field::Authority),
                        Field::Authority => Stage::Setting(Field::PathWithQuery),
                        Field::PathWithQuery => Stage::Submitting,
                    };
                },
                _ => self.fail(ProbeError::RequestBuild(f)),
            },
            Stage::Submitting => match e {
                Event::SubmitFailed(d) => self.fail(ProbeError::TransportSubmit(d)),
                _ => self.stage = Stage::Resolving,
            },
            Stage::Resolving => self.resolve(e, true),
            Stage::Waiting => self.resolve(e, false),
            Stage::TakingBody => match e {
                Event::BodyTaken => self.stage = Stage::OpeningStream,
                _ => self.fail(ProbeError::BodyUnavailable),
            },
            Stage::OpeningStream => match e {
                Event::StreamOpened => self.stage = Stage::Draining,
                _ => self.fail(ProbeError::StreamUnavailable),
            },
            Stage::Draining => match e {
                Event::Chunk(mut c) => {
                    if c.len() == 0 {
                        self.stage = Stage::Finishing;
                    } else {
                        self.body.append(&mut c);
                    }
                },
                _ => self.stage = Stage::Finishing,
            },
            Stage::Finishing => {
                let mut bytes: Vec<u8> = Vec::new();
                std::mem::swap(&mut bytes, &mut self.body);
                self.stage = Stage::Done;
                self.outcome = match text_from_utf8(bytes) {
                    Some(text) => Some(Ok(text)),
                    None => Some(Err(ProbeError::NotUtf8)),
                };
                assert(self@.body =~= Seq::<u8>::empty());
            },
            Stage::Done => {},
        }
        self.next_action()
    }

    /// The outcome of the probe, once it is done.
    pub fn into_outcome(self) -> (r: Option<Result<String, ProbeError>>)
        ensures
            r is Some <==> self@.outcome is Some,
            r is Some ==> outcome_view(r->0) == self@.outcome->0,
    {
        self.outcome
    }
}

} // verus!
