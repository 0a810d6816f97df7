//! The lifecycle of the one receive endpoint: whether a receive loop is
//! active, and what a start or a stop request has to do. The caller binds,
//! spawns and cancels; every decision is taken here, on one state value that
//! the caller keeps behind a single lock.

use vstd::prelude::*;
use vstd::string::*;
use crate::text::{decimal, joined, port_text};

verus! {

/// How long a stop waits after it cancelled the loop, in milliseconds.
pub const CANCEL_PAUSE_MS: u64 = 50;

/// The lifecycle state: the running flag and the handle of the active loop.
/// `H` is whatever the caller cancels a loop by.
pub struct Controller<H> {
    running: bool,
    active_loop: Option<H>,
}

/// The mathematical value of a `Controller`.
pub struct ControllerModel<H> {
    pub running: bool,
    pub active_loop: Option<H>,
}

/// What a start request has to do.
#[derive(Debug, Clone, Copy, PartialEq, Eq)]
pub enum StartPlan {
    /// A loop is active: acknowledge, bind nothing.
    AlreadyListening,
    /// No loop is active: bind the endpoint, and activate on success.
    Bind,
}

/// How a start request ended.
#[derive(Debug, Clone, PartialEq, Eq)]
pub enum StartOutcome {
    /// A loop was active already.
    AlreadyListening,
    /// The endpoint could not be bound; the cause in words.
    BindFailed(String),
    /// The endpoint is bound and its loop is the active one.
    Listening,
}

/// What came of a bind attempt: how the start ended, and a handle that the
/// caller has to cancel because another loop was active.
#[derive(Debug, PartialEq, Eq)]
pub struct Started<H> {
    pub outcome: StartOutcome,
    pub refused: Option<H>,
}

/// What a stop request has to do.
#[derive(Debug, PartialEq, Eq)]
pub enum StopPlan<H> {
    /// No loop was active: acknowledge, cancel nothing.
    AlreadyStopped,
    /// The loop with this handle was active: cancel it, then pause.
    Cancel(H),
}

/// A handle is held exactly while the flag says running.
pub open spec fn valid<H>(s: ControllerModel<H>) -> bool {
    s.running <==> s.active_loop is Some
}

/// The state before the first start and after every stop.
pub open spec fn idle<H>() -> ControllerModel<H> {
    ControllerModel { running: false, active_loop: None }
}

/// What a start request has to do in a state.
pub open spec fn start_plan<H>(s: ControllerModel<H>) -> StartPlan {
    if s.running {
        StartPlan::AlreadyListening
    } else {
        StartPlan::Bind
    }
}

/// The state after a loop with handle `h` was offered: it becomes the active
/// loop unless there is one already.
pub open spec fn activated<H>(s: ControllerModel<H>, h: H) -> ControllerModel<H> {
    if s.running {
        s
    } else {
        ControllerModel { running: true, active_loop: Some(h) }
    }
}

/// The handle that an offer gives back: the offered one where a loop is
/// active already, so that the caller can cancel the newcomer.
pub open spec fn refused<H>(s: ControllerModel<H>, h: H) -> Option<H> {
    if s.running {
        Some(h)
    } else {
        None
    }
}

/// How a start ends in a state once the bind attempt is over: a failed bind
/// is reported, a loop on a bound endpoint becomes the active one unless
/// there is one already.
pub open spec fn start_outcome<H>(s: ControllerModel<H>, bound: Result<H, String>) -> StartOutcome {
    match bound {
        Err(cause) => StartOutcome::BindFailed(cause),
        Ok(_) => if s.running {
            StartOutcome::AlreadyListening
        } else {
            StartOutcome::Listening
        },
    }
}

/// The state after the bind attempt: unchanged where the bind failed.
pub open spec fn after_bind<H>(s: ControllerModel<H>, bound: Result<H, String>) -> ControllerModel<H> {
    match bound {
        Err(_) => s,
        Ok(h) => activated(s, h),
    }
}

/// What a stop request has to do in a state.
pub open spec fn stop_plan<H>(s: ControllerModel<H>) -> StopPlan<H> {
    match s.active_loop {
        Some(h) if s.running => StopPlan::Cancel(h),
        _ => StopPlan::AlreadyStopped,
    }
}

/// The text "Listening on port " and the port.
pub open spec fn listening_text(port: u16) -> Seq<char> {
    "Listening on port "@ + decimal(port as nat)
}

/// The text "Already listening on port ", the port and "!".
pub open spec fn already_listening_text(port: u16) -> Seq<char> {
    "Already listening on port "@ + decimal(port as nat) + "!"@
}

/// What the caller of a start is told: an acknowledgment, also where a loop
/// was active already, or the bind error in words.
pub open spec fn start_reply_text(outcome: StartOutcome, port: u16) -> Result<Seq<char>, Seq<char>> {
    match outcome {
        StartOutcome::AlreadyListening => Ok(already_listening_text(port)),
        StartOutcome::BindFailed(cause) => Err("Failed to bind: "@ + cause@),
        StartOutcome::Listening => Ok(listening_text(port)),
    }
}

/// What the caller of a stop is told; a stop never fails.
pub open spec fn stop_reply_text<H>(plan: StopPlan<H>) -> Seq<char> {
    match plan {
        StopPlan::AlreadyStopped => "Already stopped"@,
        StopPlan::Cancel(_) => "Stopped"@,
    }
}

impl<H> View for Controller<H> {
    type V = ControllerModel<H>;

    closed spec fn view(&self) -> ControllerModel<H> {
        ControllerModel { running: self.running, active_loop: self.active_loop }
    }
}

impl<H> Controller<H> {
    /// A controller with no loop active.
    pub fn new() -> (r: Self)
        ensures
            r@ == idle::<H>(),
            valid(r@),
    {
        Controller { running: false, active_loop: None }
    }

    /// The running flag, as the loop reads it at each cycle.
    pub fn is_running(&self) -> (r: bool)
        ensures
            r == self@.running,
    {
        self.running
    }

    /// What a start request has to do now. The state is not touched: where
    /// the bind then fails, it stays as it was.
    pub fn plan_start(&self) -> (r: StartPlan)
        ensures
            r == start_plan(self@),
    {
        if self.running {
            StartPlan::AlreadyListening
        } else {
            StartPlan::Bind
        }
    }

    /// Offers the handle of a loop that owns a bound endpoint. Flag and
    /// handle change together; where a loop is active already nothing
    /// changes and the offered handle comes back.
    pub fn activate(&mut self, handle: H) -> (r: Option<H>)
        ensures
            final(self)@ == activated(old(self)@, handle),
            r == refused(old(self)@, handle),
            valid(old(self)@) ==> valid(final(self)@),
    {
        if self.running {
            Some(handle)
        } else {
            self.running = true;
            self.active_loop = Some(handle);
            None
        }
    }

    /// Takes the result of the bind attempt that `plan_start` asked for: the
    /// cause of the failure, or the handle of the loop that owns the bound
    /// endpoint. A failed bind leaves the state as it was.
    pub fn finish_start(&mut self, bound: Result<H, String>) -> (r: Started<H>)
        ensures
            final(self)@ == after_bind(old(self)@, bound),
            r.outcome == start_outcome(old(self)@, bound),
            r.refused == match bound {
                Ok(h) => refused(old(self)@, h),
                Err(_) => None,
            },
            valid(old(self)@) ==> valid(final(self)@),
    {
        match bound {
            Err(cause) => Started { outcome: StartOutcome::BindFailed(cause), refused: None },
            Ok(handle) => match self.activate(handle) {
                None => Started { outcome: StartOutcome::Listening, refused: None },
                Some(back) => Started {
                    outcome: StartOutcome::AlreadyListening,
                    refused: Some(back),
                },
            },
        }
    }

    /// Takes a stop request: the state is idle afterwards, and the handle of
    /// the loop that was active, if any, is handed out to be cancelled.
    pub fn stop(&mut self) -> (r: StopPlan<H>)
        ensures
            final(self)@ == idle::<H>(),
            r == stop_plan(old(self)@),
            valid(final(self)@),
    {
        let was_running = self.running;
        self.running = false;
        match self.active_loop.take() {
            Some(handle) => {
                if was_running {
                    StopPlan::Cancel(handle)
                } else {
                    StopPlan::AlreadyStopped
                }
            },
            None => StopPlan::AlreadyStopped,
        }
    }
}

/// A second start in sequence finds the loop of the first: it binds nothing,
/// and a handle offered all the same is refused, so one loop is active. Both
/// starts are answered with an acknowledgment.
pub proof fn lemma_start_twice<H>(s: ControllerModel<H>, first: H, second: H, port: u16)
    requires
        valid(s),
    ensures
        start_plan(activated(s, first)) == StartPlan::AlreadyListening,
        activated(activated(s, first), second) == activated(s, first),
        refused(activated(s, first), second) == Some(second),
        valid(activated(s, first)),
        start_reply_text(start_outcome(s, Ok::<H, String>(first)), port) is Ok,
        start_reply_text(start_outcome(activated(s, first), Ok::<H, String>(second)), port) is Ok,
        start_outcome(activated(s, first), Ok::<H, String>(second)) == StartOutcome::AlreadyListening,
{
}

/// A bind that fails changes nothing and is answered with an error, in
/// whatever state.
pub proof fn lemma_failed_bind_changes_nothing<H>(s: ControllerModel<H>, cause: String, port: u16)
    ensures
        after_bind(s, Err::<H, String>(cause)) == s,
        start_reply_text(start_outcome(s, Err::<H, String>(cause)), port) is Err,
{
}

/// A second stop in sequence cancels nothing: whatever the state, the stop
/// leaves it idle, and a stop in the idle state hands out no handle.
pub proof fn lemma_stop_twice<H>(s: ControllerModel<H>)
    requires
        valid(s),
    ensures
        s.running ==> stop_plan(s) == StopPlan::Cancel(s.active_loop->Some_0),
        !s.running ==> stop_plan(s) == StopPlan::<H>::AlreadyStopped,
        stop_plan(idle::<H>()) == StopPlan::<H>::AlreadyStopped,
        valid(idle::<H>()),
{
}

/// After a stop the next start binds again, and the loop it offers becomes
/// the active one.
pub proof fn lemma_start_after_stop<H>(h: H)
    ensures
        start_plan(idle::<H>()) == StartPlan::Bind,
        activated(idle::<H>(), h) == (ControllerModel { running: true, active_loop: Some(h) }),
        refused(idle::<H>(), h) == None::<H>,
{
}

/// The acknowledgment of a start that activated a loop.
pub fn listening_ack(port: u16) -> (r: String)
    ensures
        r@ == listening_text(port),
{
    let digits = port_text(port);
    joined("Listening on port ", digits.as_str())
}

/// The acknowledgment of a start that found a loop active.
pub fn already_listening_ack(port: u16) -> (r: String)
    ensures
        r@ == already_listening_text(port),
{
    let digits = port_text(port);
    let head = joined("Already listening on port ", digits.as_str());
    joined(head.as_str(), "!")
}

/// What a start says where the endpoint could not be bound.
pub fn bind_failure(cause: &str) -> (r: String)
    ensures
        r@ == "Failed to bind: "@ + cause@,
{
    joined("Failed to bind: ", cause)
}

/// The acknowledgment of a stop that cancelled a loop.
pub fn stopped_ack() -> (r: String)
    ensures
        r@ == "Stopped"@,
{
    String::from_str("Stopped")
}

/// The acknowledgment of a stop that found no loop active.
pub fn already_stopped_ack() -> (r: String)
    ensures
        r@ == "Already stopped"@,
{
    String::from_str("Already stopped")
}

/// What the caller of a start is told.
pub fn start_reply(outcome: &StartOutcome, port: u16) -> (r: Result<String, String>)
    ensures
        match r {
            Ok(text) => start_reply_text(*outcome, port) == Ok::<Seq<char>, Seq<char>>(text@),
            Err(text) => start_reply_text(*outcome, port) == Err::<Seq<char>, Seq<char>>(text@),
        },
{
    match outcome {
        StartOutcome::AlreadyListening => Ok(already_listening_ack(port)),
        StartOutcome::BindFailed(cause) => Err(bind_failure(cause.as_str())),
        StartOutcome::Listening => Ok(listening_ack(port)),
    }
}

/// What the caller of a stop is told.
pub fn stop_reply<H>(plan: &StopPlan<H>) -> (r: String)
    ensures
        r@ == stop_reply_text(*plan),
{
    match plan {
        StopPlan::AlreadyStopped => already_stopped_ack(),
        StopPlan::Cancel(_) => stopped_ack(),
    }
}

} // verus!
