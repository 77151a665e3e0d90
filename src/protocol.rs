//! The phase orchestrator: a state machine that decides, from each backend
//! reply, which remote call comes next, and when generation is over.
use crate::session::{
    get_reduced_session, get_simple_session, merged, reduced_cache, update_session, with_cache,
    ModelRun, PromptSession,
};
use crate::text::append;
use vstd::prelude::*;

verus! {

/// Chunk width of the forward calls during prompt ingestion.
pub const PREFILL_CHUNK: u8 = 10;

/// Chunk width of the forward calls during token-by-token decoding.
pub const DECODE_CHUNK: u8 = 5;

/// Largest number of decode steps of one generation.
pub const MAX_DECODE_STEPS: usize = 50;

/// A remote call to make, with its arguments.
pub enum Request {
    StartPrompt(String),
    BeginStart(PromptSession, bool),
    Forward(u8, ModelRun, PromptSession),
    EndStart(ModelRun, PromptSession),
    BeginStep(PromptSession),
    EndStep(ModelRun, PromptSession),
}

/// What a remote call returned.
pub enum Reply {
    Started(PromptSession),
    BeganStart(Option<ModelRun>, PromptSession),
    Forwarded(bool, ModelRun, PromptSession),
    EndedStart(Option<String>, PromptSession),
    BeganStep(ModelRun),
    EndedStep(Option<String>, bool, PromptSession),
}

/// Why a generation was abandoned.
#[derive(Clone, Copy, Debug, PartialEq, Eq, Structural)]
pub enum GenerationError {
    /// `begin_start` returned no run.
    MissingRun,
    /// A reply that does not answer the call that was made.
    UnexpectedReply,
}

/// What the driver of the state machine does next.
pub enum Action {
    Call(Request),
    Done(String),
    Fail(GenerationError),
}

/// Which reply the state machine awaits.
#[derive(Clone, Copy, Debug, PartialEq, Eq, Structural)]
pub enum Phase {
    Starting,
    BeginningPrefill,
    ForwardingPrefill,
    EndingPrefill,
    BeginningStep,
    ForwardingStep,
    EndingStep,
    Finished,
    Failed,
}

/// The state of one generation between remote calls.
pub struct Generation {
    pub phase: Phase,
    pub session: Option<PromptSession>,
    pub text: String,
    pub steps: usize,
}

/// Whether `phase` holds a session.
pub open spec fn holds_session(phase: Phase) -> bool {
    !(phase is Starting || phase is Finished || phase is Failed)
}

/// `a` is the forward call of a chunk of `n` layers on `run`, carrying the
/// part of `session` that the chunk needs.
pub open spec fn is_forward_call(a: Action, session: PromptSession, run: ModelRun, n: u8) -> bool {
    match a {
        Action::Call(Request::Forward(m, r, reduced)) => {
            &&& m == n
            &&& r == run
            &&& reduced@ == with_cache(session@, reduced_cache(session@.cache, run.state, n as nat))
        },
        _ => false,
    }
}

/// `a` is the `begin_start` call, iterative, on a copy of `session`.
pub open spec fn is_begin_start_call(a: Action, session: PromptSession) -> bool {
    match a {
        Action::Call(Request::BeginStart(s, iterative)) => s@ == session@ && iterative,
        _ => false,
    }
}

/// `a` is the `begin_step` call on `session` without its cache.
pub open spec fn is_begin_step_call(a: Action, session: PromptSession) -> bool {
    match a {
        Action::Call(Request::BeginStep(s)) => s@ == with_cache(session@, Map::empty()),
        _ => false,
    }
}

/// The text `base` followed by `piece`, if there is one.
pub open spec fn appended(base: Seq<char>, piece: Option<String>) -> Seq<char> {
    match piece {
        Some(t) => base + t@,
        None => base,
    }
}

/// Text and step count unchanged from `pre` to `post`.
pub open spec fn same_progress(pre: Generation, post: Generation) -> bool {
    post.text@ == pre.text@ && post.steps == pre.steps
}

/// The step of the state machine from `pre`, on `reply`, to `post`, issuing `a`.
pub open spec fn transition(pre: Generation, reply: Reply, post: Generation, a: Action) -> bool {
    match (pre.phase, reply) {
        (Phase::Starting, Reply::Started(s)) => {
            &&& post.phase is BeginningPrefill
            &&& post.session == Some(s)
            &&& same_progress(pre, post)
            &&& is_begin_start_call(a, s)
        },
        (Phase::BeginningPrefill, Reply::BeganStart(None, _)) => {
            &&& post.phase is Failed
            &&& same_progress(pre, post)
            &&& a matches Action::Fail(GenerationError::MissingRun)
        },
        (Phase::BeginningPrefill, Reply::BeganStart(Some(run), s)) => {
            &&& post.phase is ForwardingPrefill
            &&& post.session == Some(s)
            &&& same_progress(pre, post)
            &&& is_forward_call(a, s, run, PREFILL_CHUNK)
        },
        (Phase::ForwardingPrefill, Reply::Forwarded(fin, run, s)) => {
            &&& post.session is Some
            &&& post.session->0@ == merged(pre.session->0@, s@)
            &&& same_progress(pre, post)
            &&& if fin {
                &&& post.phase is EndingPrefill
                &&& match a {
                    Action::Call(Request::EndStart(r, c)) => r == run && c@ == post.session->0@,
                    _ => false,
                }
            } else {
                &&& post.phase is ForwardingPrefill
                &&& is_forward_call(a, post.session->0, run, PREFILL_CHUNK)
            }
        },
        (Phase::EndingPrefill, Reply::EndedStart(t, s)) => {
            &&& post.session == Some(s)
            &&& post.steps == 0
            &&& match t {
                Some(first) => {
                    &&& post.phase is BeginningStep
                    &&& post.text@ == first@
                    &&& is_begin_step_call(a, s)
                },
                None => {
                    &&& post.phase is BeginningPrefill
                    &&& post.text@ == pre.text@
                    &&& is_begin_start_call(a, s)
                },
            }
        },
        (Phase::BeginningStep, Reply::BeganStep(run)) => {
            &&& post.phase is ForwardingStep
            &&& post.session == pre.session
            &&& same_progress(pre, post)
            &&& is_forward_call(a, pre.session->0, run, DECODE_CHUNK)
        },
        (Phase::ForwardingStep, Reply::Forwarded(fin, run, s)) => {
            &&& post.session is Some
            &&& post.session->0@ == merged(pre.session->0@, s@)
            &&& same_progress(pre, post)
            &&& if fin {
                &&& post.phase is EndingStep
                &&& match a {
                    Action::Call(Request::EndStep(r, c)) => {
                        r == run && c@ == with_cache(post.session->0@, Map::empty())
                    },
                    _ => false,
                }
            } else {
                &&& post.phase is ForwardingStep
                &&& is_forward_call(a, post.session->0, run, DECODE_CHUNK)
            }
        },
        (Phase::EndingStep, Reply::EndedStep(t, eos, s)) => {
            &&& post.steps == pre.steps + 1
            &&& post.text@ == appended(pre.text@, t)
            &&& if eos || post.steps == MAX_DECODE_STEPS {
                &&& post.phase is Finished
                &&& match a {
                    Action::Done(out) => out@ == post.text@,
                    _ => false,
                }
            } else {
                &&& post.phase is BeginningStep
                &&& post.session is Some
                &&& post.session->0@ == merged(s@, pre.session->0@)
                &&& is_begin_step_call(a, post.session->0)
            }
        },
        _ => {
            &&& post.phase is Failed
            &&& same_progress(pre, post)
            &&& a matches Action::Fail(GenerationError::UnexpectedReply)
        },
    }
}

impl Generation {
    /// A session is held exactly while a call is under way, and the decode
    /// steps stay within their limit.
    pub open spec fn wf(&self) -> bool {
        &&& (self.session is Some <==> holds_session(self.phase))
        &&& self.steps <= MAX_DECODE_STEPS
        &&& (self.phase is BeginningStep ==> self.steps < MAX_DECODE_STEPS)
        &&& (self.phase is ForwardingStep ==> self.steps < MAX_DECODE_STEPS)
        &&& (self.phase is EndingStep ==> self.steps < MAX_DECODE_STEPS)
    }

    /// A new generation of `prompt`, with the first call to make.
    pub fn new(prompt: String) -> (r: (Generation, Action))
        ensures
            r.0.wf(),
            r.0.phase is Starting,
            r.0.text@ == Seq::<char>::empty(),
            r.0.steps == 0,
            match r.1 {
                Action::Call(Request::StartPrompt(p)) => p == prompt,
                _ => false,
            },
    {
        (
            Generation { phase: Phase::Starting, session: None, text: String::new(), steps: 0 },
            Action::Call(Request::StartPrompt(prompt)),
        )
    }

    /// Advances the generation by the reply to the call last issued, and
    /// returns what to do next.
    pub fn on_reply(&mut self, reply: Reply) -> (a: Action)
        requires
            old(self).wf(),
        ensures
            final(self).wf(),
            transition(*old(self), reply, *final(self), a),
    {
        let current = self.session.take();
        match (self.phase, reply, current) {
            (Phase::Starting, Reply::Started(s), _) => {
                let call = Request::BeginStart(s.copy(), true);
                self.session = Some(s);
                self.phase = Phase::BeginningPrefill;
                Action::Call(call)
            },
            (Phase::BeginningPrefill, Reply::BeganStart(None, _), _) => {
                self.phase = Phase::Failed;
                Action::Fail(GenerationError::MissingRun)
            },
            (Phase::BeginningPrefill, Reply::BeganStart(Some(run), s), _) => {
                let reduced = get_reduced_session(&s, &run, PREFILL_CHUNK);
                self.session = Some(s);
                self.phase = Phase::ForwardingPrefill;
                Action::Call(Request::Forward(PREFILL_CHUNK, run, reduced))
            },
            (Phase::ForwardingPrefill, Reply::Forwarded(fin, run, s), Some(base)) => {
                let m = update_session(base, s);
                if fin {
                    let call = Request::EndStart(run, m.copy());
                    self.session = Some(m);
                    self.phase = Phase::EndingPrefill;
                    Action::Call(call)
                } else {
                    let reduced = get_reduced_session(&m, &run, PREFILL_CHUNK);
                    self.session = Some(m);
                    Action::Call(Request::Forward(PREFILL_CHUNK, run, reduced))
                }
            },
            (Phase::EndingPrefill, Reply::EndedStart(t, s), _) => {
                self.steps = 0;
                match t {
                    Some(first) => {
                        let call = Request::BeginStep(get_simple_session(&s));
                        self.text = first;
                        self.session = Some(s);
                        self.phase = Phase::BeginningStep;
                        Action::Call(call)
                    },
                    None => {
                        let call = Request::BeginStart(s.copy(), true);
                        self.session = Some(s);
                        self.phase = Phase::BeginningPrefill;
                        Action::Call(call)
                    },
                }
            },
            (Phase::BeginningStep, Reply::BeganStep(run), Some(base)) => {
                let reduced = get_reduced_session(&base, &run, DECODE_CHUNK);
                self.session = Some(base);
                self.phase = Phase::ForwardingStep;
                Action::Call(Request::Forward(DECODE_CHUNK, run, reduced))
            },
            (Phase::ForwardingStep, Reply::Forwarded(fin, run, s), Some(base)) => {
                let m = update_session(base, s);
                if fin {
                    let call = Request::EndStep(run, get_simple_session(&m));
                    self.session = Some(m);
                    self.phase = Phase::EndingStep;
                    Action::Call(call)
                } else {
                    let reduced = get_reduced_session(&m, &run, DECODE_CHUNK);
                    self.session = Some(m);
                    Action::Call(Request::Forward(DECODE_CHUNK, run, reduced))
                }
            },
            (Phase::EndingStep, Reply::EndedStep(t, eos, s), Some(base)) => {
                self.steps = self.steps + 1;
                match t {
                    Some(piece) => append(&mut self.text, piece.as_str()),
                    None => {},
                }
                if eos || self.steps == MAX_DECODE_STEPS {
                    self.phase = Phase::Finished;
                    Action::Done(self.text.clone())
                } else {
                    let m = update_session(s, base);
                    let call = Request::BeginStep(get_simple_session(&m));
                    self.session = Some(m);
                    self.phase = Phase::BeginningStep;
                    Action::Call(call)
                }
            },
            _ => {
                self.phase = Phase::Failed;
                Action::Fail(GenerationError::UnexpectedReply)
            },
        }
    }
}

} // verus!
