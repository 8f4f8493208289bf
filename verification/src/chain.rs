//! The handler chain executor and the panic containment boundary.
//!
//! A chain is an ordered list of handlers; a [`FlowCtrl`] is the per-request
//! cursor over that list, and `call_next` runs the next handler and the
//! entire downstream sub-chain to completion. Handler invocation returns a
//! discriminated [`Outcome`]: an abnormal termination is an explicit
//! `Panicked` signal that propagates through every frame between the failure
//! site and the outermost caller — unless a [`CatchPanic`] boundary stands
//! earlier in the chain, which converts it into one fixed 500 response plus
//! one structured error log event and completes normally.
//!
//! The whole execution is specified by the functional interpreter
//! [`run_chain`]; every executor function is proved to agree with it.

use vstd::prelude::*;
use vstd::string::*;

use crate::extract::{converts_to_u64, dec_val, extraction_failure_text, PathParam};
use crate::model::{
    Depot, DepotAbs, DepotValue, Log, LogEventAbs, LogLevel, Request, Response, ResponseAbs,
    StatusError,
};

verus! {

/// How one invocation of a handler (together with its whole downstream
/// sub-chain) ended: normally, or in an abnormal termination carrying the
/// formatted diagnostic payload.
pub enum Outcome {
    Completed,
    Panicked(String),
}

/// The exec outcome agrees with the interpreter's abstract one.
pub open spec fn outcome_agrees(o: Outcome, panic: Option<Seq<char>>) -> bool {
    match o {
        Outcome::Completed => panic is None,
        Outcome::Panicked(m) => panic is Some && m@ == panic->0,
    }
}

/// One unit of request-processing logic composed into an ordered chain. The
/// variants cover the behaviours the executor distinguishes: the containment
/// boundary, a middleware that writes and advances, a terminal handler that
/// writes and intentionally stops, a middleware that stores computed state,
/// a handler that extracts a typed path parameter before its work, and one
/// that terminates abnormally.
pub enum ChainHandler {
    /// The panic containment boundary; supervises its downstream
    /// continuation.
    Boundary(CatchPanic),
    /// Renders a text body, then advances to the rest of the chain.
    Render { body: String },
    /// Renders a text body and does not advance: the chain ends here, which
    /// is intentional and not an error.
    Respond { body: String },
    /// Stores a text value in the depot for later handlers, then advances.
    Store { key: String, value: String },
    /// Extracts the integer path parameter `name` and stores it in the depot
    /// under `name`, then advances; a failed extraction renders a 400
    /// response with the extraction message and never invokes the downstream
    /// chain.
    ExtractUInt { name: String },
    /// Terminates abnormally with the given diagnostic payload.
    Fail { message: String },
}

/// The mutable state one request's chain threads along: the depot, the
/// response under construction and the emitted log.
#[verifier::ext_equal]
pub struct ChainState {
    /// Abstract depot contents.
    pub depot: Map<Seq<char>, DepotAbs>,
    /// Abstract response value.
    pub res: ResponseAbs,
    /// Abstract log, in emission order.
    pub log: Seq<LogEventAbs>,
}

/// The result of running (part of) a chain: the final state, and the
/// diagnostic payload if the run is terminating abnormally.
#[verifier::ext_equal]
pub struct ChainRun {
    /// State when the run ended.
    pub st: ChainState,
    /// `Some(payload)` exactly when an uncontained abnormal termination is
    /// propagating out of the run.
    pub panic: Option<Seq<char>>,
}

/// The state at request start: everything empty.
pub open spec fn initial_chain_state() -> ChainState {
    ChainState {
        depot: Map::empty(),
        res: ResponseAbs { status: None, body: Seq::<char>::empty(), cause: Seq::<char>::empty() },
        log: Seq::empty(),
    }
}

/// The fixed response the boundary writes for an intercepted failure.
pub open spec fn panic_response(payload: Seq<char>) -> ResponseAbs {
    ResponseAbs { status: Some(500u16), body: "panic occurred on server"@, cause: payload }
}

/// The structured error event the boundary emits for an intercepted failure.
pub open spec fn panic_event(payload: Seq<char>) -> LogEventAbs {
    LogEventAbs { level: LogLevel::Error, message: "panic occurred"@, error: payload }
}

/// The response a handler renders for a failed extraction of `name`.
pub open spec fn extraction_error_response(name: Seq<char>) -> ResponseAbs {
    ResponseAbs {
        status: Some(400u16),
        body: extraction_failure_text(name),
        cause: Seq::<char>::empty(),
    }
}

/// What the containment boundary makes of its downstream run: a normal
/// completion passes through untouched; an abnormal termination is converted
/// into exactly one fixed 500 response and one appended log event, and the
/// run completes.
pub open spec fn contain(down: ChainRun) -> ChainRun {
    match down.panic {
        None => down,
        Some(payload) => ChainRun {
            st: ChainState {
                depot: down.st.depot,
                res: panic_response(payload),
                log: down.st.log.push(panic_event(payload)),
            },
            panic: None,
        },
    }
}

/// The functional interpreter of a chain: runs the handlers from position
/// `i` in registration order over request `req` and state `st`. A handler's
/// advance runs the entire remaining sub-chain; not advancing ends the run
/// normally; a `Fail` raises an abnormal termination that propagates
/// outwards until a boundary contains it.
pub open spec fn run_chain(
    hs: Seq<ChainHandler>,
    i: int,
    req: Map<Seq<char>, Seq<char>>,
    st: ChainState,
) -> ChainRun
    decreases hs.len() - i,
{
    if i < 0 || i >= hs.len() {
        ChainRun { st, panic: None }
    } else {
        match hs[i] {
            ChainHandler::Boundary(_) => contain(run_chain(hs, i + 1, req, st)),
            ChainHandler::Render { body } => run_chain(
                hs,
                i + 1,
                req,
                ChainState {
                    res: ResponseAbs {
                        status: Some(200u16),
                        body: body@,
                        cause: Seq::<char>::empty(),
                    },
                    ..st
                },
            ),
            ChainHandler::Respond { body } => ChainRun {
                st: ChainState {
                    res: ResponseAbs {
                        status: Some(200u16),
                        body: body@,
                        cause: Seq::<char>::empty(),
                    },
                    ..st
                },
                panic: None,
            },
            ChainHandler::Store { key, value } => run_chain(
                hs,
                i + 1,
                req,
                ChainState { depot: st.depot.insert(key@, DepotAbs::Text(value@)), ..st },
            ),
            ChainHandler::ExtractUInt { name } => {
                if req.contains_key(name@) && converts_to_u64(req[name@]) {
                    run_chain(
                        hs,
                        i + 1,
                        req,
                        ChainState {
                            depot: st.depot.insert(
                                name@,
                                DepotAbs::UInt(dec_val(req[name@]) as u64),
                            ),
                            ..st
                        },
                    )
                } else {
                    ChainRun {
                        st: ChainState { res: extraction_error_response(name@), ..st },
                        panic: None,
                    }
                }
            },
            ChainHandler::Fail { message } => ChainRun { st, panic: Some(message@) },
        }
    }
}

/// Per-request cursor over the ordered handler list; advancing runs the next
/// handler and awaits the full completion of the downstream sub-chain.
pub struct FlowCtrl {
    cursor: usize,
}

impl FlowCtrl {
    /// The position of the next handler to run.
    pub closed spec fn cursor_at(&self) -> nat {
        self.cursor as nat
    }

    /// A cursor positioned at the first handler.
    pub fn new() -> (r: FlowCtrl)
        ensures
            r.cursor_at() == 0,
    {
        FlowCtrl { cursor: 0 }
    }

    /// Advances to the next handler and runs it together with its whole
    /// downstream sub-chain, returning only when that sub-chain has
    /// completed or an abnormal termination is propagating out. The final
    /// state and the outcome are exactly those of the interpreter from the
    /// cursor's position; a cursor past the end completes at once.
    pub fn call_next(
        &mut self,
        handlers: &Vec<ChainHandler>,
        req: &Request,
        depot: &mut Depot,
        res: &mut Response,
        log: &mut Log,
    ) -> (o: Outcome)
        requires
            req.wf(),
            old(depot).wf(),
        ensures
            final(depot).wf(),
            ({
                let r = run_chain(
                    handlers@,
                    old(self).cursor_at() as int,
                    req@,
                    ChainState { depot: old(depot)@, res: old(res)@, log: old(log)@ },
                );
                final(depot)@ == r.st.depot && final(res)@ == r.st.res && final(log)@ == r.st.log
                    && outcome_agrees(o, r.panic)
            }),
        decreases handlers@.len() - self.cursor_at(), 0int,
    {
        let c = self.cursor;
        if c >= handlers.len() {
            return Outcome::Completed;
        }
        self.cursor = c + 1;
        match &handlers[c] {
            ChainHandler::Boundary(b) => b.handle(handlers, req, depot, res, log, self),
            ChainHandler::Render { body } => {
                res.render_text(body.as_str());
                self.call_next(handlers, req, depot, res, log)
            },
            ChainHandler::Respond { body } => {
                res.render_text(body.as_str());
                Outcome::Completed
            },
            ChainHandler::Store { key, value } => {
                depot.insert(key.as_str(), DepotValue::Text(value.as_str().to_owned()));
                self.call_next(handlers, req, depot, res, log)
            },
            ChainHandler::ExtractUInt { name } => {
                match PathParam::<u64>::extract_with_arg(req, name.as_str()) {
                    Ok(p) => {
                        let v: u64 = *p.value();
                        depot.insert(name.as_str(), DepotValue::UInt(v));
                        self.call_next(handlers, req, depot, res, log)
                    },
                    Err(e) => {
                        res.render_error(StatusError::bad_request().brief(e.message()));
                        Outcome::Completed
                    },
                }
            },
            ChainHandler::Fail { message } => Outcome::Panicked(message.clone()),
        }
    }
}

/// The panic containment boundary. Registered as the first handler, it
/// supervises the entire downstream continuation: any abnormal termination
/// raised anywhere downstream — transitively through arbitrarily nested
/// advances — is intercepted, logged as one structured error event whose
/// message is "panic occurred", and written to the response as the fixed 500
/// outcome. The work unit itself survives.
#[derive(Default, Debug)]
pub struct CatchPanic {}

impl CatchPanic {
    /// Creates a new `CatchPanic` boundary.
    pub fn new() -> CatchPanic {
        CatchPanic {}
    }

    /// Begins the downstream continuation under supervision. A normal
    /// downstream completion passes through untouched; an intercepted
    /// abnormal termination yields exactly one fixed 500 response, one
    /// appended log event, and a normal completion.
    pub fn handle(
        &self,
        handlers: &Vec<ChainHandler>,
        req: &Request,
        depot: &mut Depot,
        res: &mut Response,
        log: &mut Log,
        ctrl: &mut FlowCtrl,
    ) -> (o: Outcome)
        requires
            req.wf(),
            old(depot).wf(),
        ensures
            final(depot).wf(),
            ({
                let down = run_chain(
                    handlers@,
                    old(ctrl).cursor_at() as int,
                    req@,
                    ChainState { depot: old(depot)@, res: old(res)@, log: old(log)@ },
                );
                let r = contain(down);
                final(depot)@ == r.st.depot && final(res)@ == r.st.res && final(log)@ == r.st.log
                    && outcome_agrees(o, r.panic)
            }),
        decreases handlers@.len() - ctrl.cursor_at(), 1int,
    {
        let outcome = ctrl.call_next(handlers, req, depot, res, log);
        match outcome {
            Outcome::Completed => Outcome::Completed,
            Outcome::Panicked(payload) => {
                log.error("panic occurred", payload.as_str());
                res.render_error(
                    StatusError::internal_server_error().brief("panic occurred on server").cause(
                        payload,
                    ),
                );
                Outcome::Completed
            },
        }
    }
}

/// Everything one dispatched request produced: the response, the depot and
/// the log the chain left behind, and how the run ended. An outcome still
/// `Panicked` here means no boundary contained the failure: fatal to the
/// request dispatch.
pub struct Dispatched {
    /// The response the chain built.
    pub response: Response,
    /// The depot as the chain left it.
    pub depot: Depot,
    /// The structured events the chain emitted.
    pub log: Log,
    /// How the run ended.
    pub outcome: Outcome,
}

/// Wraps an inbound request into fresh data carriers and runs the whole
/// chain from its first handler, in registration order.
pub fn dispatch(handlers: &Vec<ChainHandler>, req: &Request) -> (d: Dispatched)
    requires
        req.wf(),
    ensures
        d.depot.wf(),
        ({
            let r = run_chain(handlers@, 0, req@, initial_chain_state());
            d.response@ == r.st.res && d.depot@ == r.st.depot && d.log@ == r.st.log
                && outcome_agrees(d.outcome, r.panic)
        }),
{
    let mut depot = Depot::new();
    let mut res = Response::new();
    let mut log = Log::new();
    let mut ctrl = FlowCtrl::new();
    let outcome = ctrl.call_next(handlers, req, &mut depot, &mut res, &mut log);
    Dispatched { response: res, depot, log, outcome }
}

/// With a containment boundary as the first handler, an abnormal termination
/// raised anywhere in the downstream chain — however deeply nested — is
/// converted into exactly one fixed 500 response: the full run completes
/// normally (the work unit survives), the response is status 500 with the
/// fixed brief text and the payload as cause, and exactly one error-level
/// event whose message is "panic occurred" is appended to the downstream
/// log.
pub proof fn lemma_boundary_contains_downstream_panic(
    hs: Seq<ChainHandler>,
    req: Map<Seq<char>, Seq<char>>,
    st: ChainState,
)
    requires
        hs.len() > 0,
        hs[0] is Boundary,
        run_chain(hs, 1, req, st).panic is Some,
    ensures
        ({
            let down = run_chain(hs, 1, req, st);
            let full = run_chain(hs, 0, req, st);
            &&& full.panic is None
            &&& full.st.res == panic_response(down.panic->0)
            &&& full.st.log == down.st.log.push(panic_event(down.panic->0))
            &&& full.st.log.len() == down.st.log.len() + 1
            &&& full.st.log.last().message == "panic occurred"@
            &&& full.st.depot == down.st.depot
        }),
{
}

/// With a containment boundary as the first handler and a downstream chain
/// that completes normally, the boundary is transparent: the full run equals
/// the downstream run.
pub proof fn lemma_boundary_transparent(
    hs: Seq<ChainHandler>,
    req: Map<Seq<char>, Seq<char>>,
    st: ChainState,
)
    requires
        hs.len() > 0,
        hs[0] is Boundary,
        run_chain(hs, 1, req, st).panic is None,
    ensures
        run_chain(hs, 0, req, st) == run_chain(hs, 1, req, st),
{
}

} // verus!
