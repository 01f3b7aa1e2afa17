//! One attempt to get an answer: bind a socket, send the query, wait for
//! any datagram.
//!
//! The socket work itself is done by the caller. This module decides what
//! comes next after each socket operation, and what the attempt amounts to
//! in the end.

use vstd::prelude::*;

verus! {

/// Size of the buffer that receives a reply, in bytes.
pub const REPLY_BUFFER_LEN: usize = 512;

/// Why an attempt got no answer.
#[derive(Clone, Copy, Debug, PartialEq, Eq, Structural)]
pub enum TransportError {
    /// No datagram arrived before the timeout ran out.
    Timeout,
    /// Binding, sending or receiving failed on the socket.
    Io,
}

/// How one socket operation ended.
#[derive(Clone, Copy, Debug, PartialEq, Eq, Structural)]
pub enum SocketResult {
    /// The operation went through.
    Done,
    /// The socket reported an error.
    Failed,
    /// The timeout ran out before the operation went through.
    TimedOut,
}

/// Where an attempt stands.
#[derive(Clone, Copy, Debug, PartialEq, Eq)]
pub enum QueryStage {
    /// Next: bind a fresh local socket.
    Bind,
    /// Next: send the encoded query to the target.
    Send,
    /// Next: wait, up to the timeout, for any datagram.
    Receive,
    /// The attempt is over, with this outcome.
    Finished(Result<(), TransportError>),
}

impl QueryStage {
    /// The stage that follows `self` once its operation has ended with
    /// `result`. An operation that goes through leads to the next one, and
    /// after the last to success. An error or a timeout ends the attempt
    /// at once. A finished attempt stays as it is.
    pub open spec fn after(self, result: SocketResult) -> QueryStage {
        match (self, result) {
            (QueryStage::Finished(_), _) => self,
            (_, SocketResult::Failed) => QueryStage::Finished(Err(TransportError::Io)),
            (_, SocketResult::TimedOut) => QueryStage::Finished(Err(TransportError::Timeout)),
            (QueryStage::Bind, SocketResult::Done) => QueryStage::Send,
            (QueryStage::Send, SocketResult::Done) => QueryStage::Receive,
            (QueryStage::Receive, SocketResult::Done) => QueryStage::Finished(Ok(())),
        }
    }

    /// The stage at which every attempt begins.
    pub fn start() -> (stage: Self)
        ensures
            stage == QueryStage::Bind,
    {
        QueryStage::Bind
    }

    /// Moves on from `self` after its operation has ended with `result`.
    pub fn advance(self, result: SocketResult) -> (next: Self)
        ensures
            next == self.after(result),
    {
        match self {
            QueryStage::Finished(_) => self,
            QueryStage::Bind => match result {
                SocketResult::Done => QueryStage::Send,
                SocketResult::Failed => QueryStage::Finished(Err(TransportError::Io)),
                SocketResult::TimedOut => QueryStage::Finished(Err(TransportError::Timeout)),
            },
            QueryStage::Send => match result {
                SocketResult::Done => QueryStage::Receive,
                SocketResult::Failed => QueryStage::Finished(Err(TransportError::Io)),
                SocketResult::TimedOut => QueryStage::Finished(Err(TransportError::Timeout)),
            },
            QueryStage::Receive => match result {
                SocketResult::Done => QueryStage::Finished(Ok(())),
                SocketResult::Failed => QueryStage::Finished(Err(TransportError::Io)),
                SocketResult::TimedOut => QueryStage::Finished(Err(TransportError::Timeout)),
            },
        }
    }

    /// The outcome of the attempt, once it is over.
    pub fn outcome(&self) -> (outcome: Option<Result<(), TransportError>>)
        ensures
            outcome == match *self {
                QueryStage::Finished(r) => Some(r),
                _ => None::<Result<(), TransportError>>,
            },
    {
        match self {
            QueryStage::Finished(r) => Some(*r),
            _ => None,
        }
    }
}

/// An attempt succeeds exactly when binding, sending and receiving all go
/// through, in that order.
pub proof fn lemma_success_needs_every_step(a: SocketResult, b: SocketResult, c: SocketResult)
    ensures
        QueryStage::Bind.after(a).after(b).after(c) == QueryStage::Finished(Ok(())) <==> a
            == SocketResult::Done && b == SocketResult::Done && c == SocketResult::Done,
{
}

/// Three socket operations at most: after three results the attempt is
/// over, whatever they were.
pub proof fn lemma_three_steps_finish(a: SocketResult, b: SocketResult, c: SocketResult)
    ensures
        QueryStage::Bind.after(a).after(b).after(c) is Finished,
{
}

/// One attempt, one outcome: nothing that happens later changes the
/// outcome of a finished attempt.
pub proof fn lemma_finished_is_final(outcome: Result<(), TransportError>, result: SocketResult)
    ensures
        QueryStage::Finished(outcome).after(result) == QueryStage::Finished(outcome),
{
}

/// An attempt that is still under way fails with `Timeout` as soon as an
/// operation runs into the timeout, and with `Io` as soon as one fails.
pub proof fn lemma_failure_ends_attempt(stage: QueryStage)
    requires
        !(stage is Finished),
    ensures
        stage.after(SocketResult::TimedOut) == QueryStage::Finished(Err(TransportError::Timeout)),
        stage.after(SocketResult::Failed) == QueryStage::Finished(Err(TransportError::Io)),
{
}

} // verus!
