//! The receive loop's decisions: whether to go on, and what to do with what
//! a poll brought. The caller owns the endpoint, waits, sleeps and delivers.

use vstd::prelude::*;
use crate::envelope::{
    decode, decoded, encoded, lemma_decode_encode, reads_back, wire_model, DecodeError, Envelope,
    EnvelopeModel,
};

verus! {

/// How long one poll waits for a datagram, in milliseconds.
pub const POLL_TIMEOUT_MS: u64 = 100;

/// How long the loop sleeps after a transport error, in milliseconds.
pub const ERROR_PAUSE_MS: u64 = 100;

/// The size of the receive buffer, in bytes.
pub const BUFFER_LEN: usize = 1024;

/// What the loop does at a cycle boundary.
#[derive(Debug, Clone, Copy, PartialEq, Eq)]
pub enum Step {
    /// Leave the loop and release the endpoint.
    Exit,
    /// Wait for a datagram, `POLL_TIMEOUT_MS` at most.
    Poll,
}

/// What a poll brought.
#[derive(Debug)]
pub enum PollEvent {
    /// The wait ran out.
    Timeout,
    /// A datagram with these bytes arrived.
    Datagram(Vec<u8>),
    /// The transport reported an error that is no timeout.
    TransportError,
}

/// What the loop does with what a poll brought. None of these ends the loop.
#[derive(Debug)]
pub enum Reaction {
    /// Nothing to do.
    Continue,
    /// Hand the envelope to the sink; whether the sink takes it changes
    /// nothing for the loop.
    Deliver(Envelope),
    /// Drop the datagram: it is no envelope, for this reason.
    Discard(DecodeError),
    /// Sleep `ERROR_PAUSE_MS`.
    Backoff,
}

/// The mathematical value of a `PollEvent`.
pub enum PollEventModel {
    Timeout,
    Datagram(Seq<u8>),
    TransportError,
}

/// The mathematical value of a `Reaction`.
pub enum ReactionModel {
    Continue,
    Deliver(EnvelopeModel),
    Discard(DecodeError),
    Backoff,
}

impl View for PollEvent {
    type V = PollEventModel;

    open spec fn view(&self) -> PollEventModel {
        match self {
            PollEvent::Timeout => PollEventModel::Timeout,
            PollEvent::Datagram(bytes) => PollEventModel::Datagram(bytes@),
            PollEvent::TransportError => PollEventModel::TransportError,
        }
    }
}

impl View for Reaction {
    type V = ReactionModel;

    open spec fn view(&self) -> ReactionModel {
        match self {
            Reaction::Continue => ReactionModel::Continue,
            Reaction::Deliver(e) => ReactionModel::Deliver(e@),
            Reaction::Discard(x) => ReactionModel::Discard(*x),
            Reaction::Backoff => ReactionModel::Backoff,
        }
    }
}

/// The step at a cycle boundary: the loop goes on exactly while the flag
/// says running.
pub open spec fn step_for(running: bool) -> Step {
    if running {
        Step::Poll
    } else {
        Step::Exit
    }
}

/// What the loop does with a datagram: deliver the envelope it holds, or
/// drop it.
pub open spec fn reaction_to_datagram(bytes: Seq<u8>) -> ReactionModel {
    match decoded(bytes) {
        Ok(e) => ReactionModel::Deliver(e),
        Err(x) => ReactionModel::Discard(x),
    }
}

/// What the loop does with what a poll brought.
pub open spec fn reaction_to(event: PollEventModel) -> ReactionModel {
    match event {
        PollEventModel::Timeout => ReactionModel::Continue,
        PollEventModel::Datagram(bytes) => reaction_to_datagram(bytes),
        PollEventModel::TransportError => ReactionModel::Backoff,
    }
}

/// Decides at a cycle boundary, from the running flag alone.
pub fn next_step(running: bool) -> (r: Step)
    ensures
        r == step_for(running),
{
    if running {
        Step::Poll
    } else {
        Step::Exit
    }
}

/// Decides what to do with what a poll brought.
pub fn react(event: &PollEvent) -> (r: Reaction)
    ensures
        r@ == reaction_to(event@),
{
    match event {
        PollEvent::Timeout => Reaction::Continue,
        PollEvent::Datagram(bytes) => match decode(bytes.as_slice()) {
            Ok(envelope) => Reaction::Deliver(envelope),
            Err(x) => Reaction::Discard(x),
        },
        PollEvent::TransportError => Reaction::Backoff,
    }
}

/// A datagram that is no envelope is dropped and leaves no trace: while the
/// flag says running the loop polls again, and an envelope that arrives
/// afterwards is delivered as if nothing had come before.
pub proof fn lemma_bad_datagram_is_harmless(bad: Seq<u8>, good: Seq<u8>)
    requires
        decoded(bad) is Err,
        decoded(good) is Ok,
    ensures
        reaction_to(PollEventModel::Datagram(bad)) == ReactionModel::Discard(decoded(bad)->Err_0),
        step_for(true) == Step::Poll,
        reaction_to(PollEventModel::Datagram(good)) == ReactionModel::Deliver(decoded(good)->Ok_0),
{
}

/// The datagram that encoding makes of an envelope is delivered as that
/// envelope, for every envelope whose wire object the JSON reader gives back
/// from the JSON writer's text.
pub proof fn lemma_encoded_envelope_is_delivered(e: EnvelopeModel)
    requires
        reads_back(wire_model(e)),
    ensures
        encoded(e) is Some,
        reaction_to(PollEventModel::Datagram(encoded(e).unwrap())) == ReactionModel::Deliver(e),
{
    lemma_decode_encode(e);
}

} // verus!
