//! One logical connection: a bounded FIFO command queue, an in-flight
//! counter, and the actor state machine that executes commands one at a
//! time.
//!
//! The actor's suspension points (executing against the backend, the retry
//! backoff sleep) happen outside this model; the decisions between them are
//! the verified transitions here.  The running loop performs the effects a
//! transition returns and hands the next event back.

use vstd::prelude::*;

use crate::values::{CloseOutcome, Command, Outcome, QueryError, QueryRequest, RawRowSet,
    SubmitOutcome};

verus! {

/// The actor's state: waiting for a command, executing (and possibly
/// retrying) one command, or stopped for good.
#[derive(Debug, Clone, PartialEq)]
pub enum ActorState {
    Idle,
    Working { token: i64, req: QueryRequest, failures: u64 },
    Stopped,
}

/// The correlation tokens of the queued Query commands, in queue order.
pub open spec fn queued_tokens(q: Seq<Command>) -> Seq<i64>
    decreases q.len(),
{
    if q.len() == 0 {
        Seq::empty()
    } else {
        let rest = queued_tokens(q.drop_first());
        match q[0] {
            Command::Query { token, .. } => seq![token] + rest,
            Command::Close => rest,
        }
    }
}

/// There are never more queued Query tokens than queued commands.
pub proof fn lemma_queued_tokens_len(q: Seq<Command>)
    ensures
        queued_tokens(q).len() <= q.len(),
    decreases q.len(),
{
    if q.len() > 0 {
        lemma_queued_tokens_len(q.drop_first());
    }
}

/// Appending a command appends its token (if it is a query) to the queued
/// tokens.
pub proof fn lemma_queued_tokens_push(q: Seq<Command>, c: Command)
    ensures
        queued_tokens(q.push(c)) == (match c {
            Command::Query { token, .. } => queued_tokens(q).push(token),
            Command::Close => queued_tokens(q),
        }),
    decreases q.len(),
{
    if q.len() == 0 {
        assert(q.push(c)[0] == c);
        assert(q.push(c).drop_first() =~= Seq::empty());
        assert(queued_tokens(Seq::<Command>::empty()) =~= Seq::<i64>::empty());
        match c {
            Command::Query { token, .. } => {
                assert(queued_tokens(q.push(c)) =~= seq![token] + Seq::<i64>::empty());
                assert(queued_tokens(q) =~= Seq::<i64>::empty());
                assert(seq![token] + Seq::<i64>::empty() =~= queued_tokens(q).push(token));
            },
            Command::Close => {
                assert(queued_tokens(q) =~= Seq::<i64>::empty());
            },
        }
    } else {
        lemma_queued_tokens_push(q.drop_first(), c);
        assert(q.push(c)[0] == q[0]);
        assert(q.push(c).len() == q.len() + 1);
        assert(q.push(c).drop_first() =~= q.drop_first().push(c));
        match c {
            Command::Query { token, .. } => {
                match q[0] {
                    Command::Query { token: t0, .. } => {
                        assert(seq![t0] + queued_tokens(q.drop_first()).push(token) =~= (seq![t0]
                            + queued_tokens(q.drop_first())).push(token));
                    },
                    Command::Close => {},
                }
            },
            Command::Close => {},
        }
    }
}

/// Whether the actor currently holds a query awaiting an outcome.
pub open spec fn working_count(a: ActorState) -> nat {
    if a is Working {
        1
    } else {
        0
    }
}

/// A logical connection.  The ghost `submitted` sequence records the tokens
/// of accepted queries in admission order; `started` records them in the
/// order the actor began executing them; `completed` records them in the
/// order their outcomes were delivered.
pub struct Conn {
    pub queue: Vec<Command>,
    pub capacity: usize,
    pub inflight: usize,
    pub actor: ActorState,
    pub submitted: Ghost<Seq<i64>>,
    pub started: Ghost<Seq<i64>>,
    pub completed: Ghost<Seq<i64>>,
}

impl Conn {
    /// The connection invariant:
    /// - the queue never exceeds the capacity fixed at creation;
    /// - the in-flight counter equals the number of accepted queries for
    ///   which no outcome has been delivered (those still queued, plus the
    ///   one being executed);
    /// - the accepted tokens are exactly those already started, in order,
    ///   followed by those still queued, in order;
    /// - the started tokens are exactly those already completed, in order,
    ///   followed by the one the actor is executing, if any.
    pub open spec fn wf(self) -> bool {
        &&& self.queue@.len() <= self.capacity
        &&& self.capacity < usize::MAX
        &&& self.inflight == queued_tokens(self.queue@).len() + working_count(self.actor)
        &&& self.submitted@ == self.started@ + queued_tokens(self.queue@)
        &&& (self.actor matches ActorState::Working { token, .. } ==> self.started@
            == self.completed@.push(token))
        &&& (!(self.actor is Working) ==> self.started@ == self.completed@)
    }

    /// Opens a fresh connection model with an empty queue and an idle actor.
    pub fn new(capacity: usize) -> (c: Conn)
        requires
            capacity < usize::MAX,
        ensures
            c.wf(),
            c.capacity == capacity,
            c.queue@.len() == 0,
            c.inflight == 0,
            c.actor is Idle,
            c.submitted@ == Seq::<i64>::empty(),
            c.started@ == Seq::<i64>::empty(),
            c.completed@ == Seq::<i64>::empty(),
    {
        let c = Conn {
            queue: Vec::new(),
            capacity,
            inflight: 0,
            actor: ActorState::Idle,
            submitted: Ghost(Seq::empty()),
            started: Ghost(Seq::empty()),
            completed: Ghost(Seq::empty()),
        };
        proof {
            assert(queued_tokens(c.queue@) =~= Seq::<i64>::empty());
            assert(c.submitted@ =~= c.started@ + queued_tokens(c.queue@));
        }
        c
    }

    /// Whether a new command would be admitted right now.
    pub open spec fn accepts(self) -> bool {
        self.queue@.len() < self.capacity && !(self.actor is Stopped)
    }

    /// Non-blocking admission of a query.  Once the queue is full (or the
    /// actor has stopped and its queue admits nothing), the submission is
    /// rejected immediately, the queue and the in-flight counter unaltered;
    /// otherwise the command joins the back of the queue and the in-flight
    /// counter grows by one.
    pub fn submit(&mut self, token: i64, req: QueryRequest) -> (r: SubmitOutcome)
        requires
            old(self).wf(),
        ensures
            final(self).wf(),
            final(self).capacity == old(self).capacity,
            final(self).actor == old(self).actor,
            final(self).started == old(self).started,
            final(self).completed == old(self).completed,
            !old(self).accepts() ==> r == SubmitOutcome::QueueFull && *final(self) == *old(self),
            old(self).accepts() ==> {
                &&& r == SubmitOutcome::Accepted
                &&& final(self).queue@ == old(self).queue@.push(Command::Query { token, req })
                &&& final(self).inflight == old(self).inflight + 1
                &&& final(self).submitted@ == old(self).submitted@.push(token)
            },
    {
        if self.queue.len() >= self.capacity {
            return SubmitOutcome::QueueFull;
        }
        match self.actor {
            ActorState::Stopped => SubmitOutcome::QueueFull,
            _ => {
                proof {
                    lemma_queued_tokens_len(self.queue@);
                    lemma_queued_tokens_push(self.queue@, Command::Query { token, req });
                }
                self.queue.push(Command::Query { token, req });
                self.inflight = self.inflight + 1;
                proof {
                    self.submitted@ = self.submitted@.push(token);
                    assert(final(self).submitted@ =~= final(self).started@ + queued_tokens(
                        final(self).queue@,
                    ));
                }
                SubmitOutcome::Accepted
            },
        }
    }

    /// Non-blocking admission of a close request; it takes effect only after
    /// the commands already queued ahead of it.
    pub fn request_close(&mut self) -> (r: CloseOutcome)
        requires
            old(self).wf(),
        ensures
            final(self).wf(),
            final(self).capacity == old(self).capacity,
            final(self).actor == old(self).actor,
            final(self).started == old(self).started,
            final(self).completed == old(self).completed,
            final(self).submitted == old(self).submitted,
            final(self).inflight == old(self).inflight,
            !old(self).accepts() ==> r == CloseOutcome::Rejected && *final(self) == *old(self),
            old(self).accepts() ==> r == CloseOutcome::Accepted && final(self).queue@ == old(
                self,
            ).queue@.push(Command::Close),
    {
        if self.queue.len() >= self.capacity {
            return CloseOutcome::Rejected;
        }
        match self.actor {
            ActorState::Stopped => CloseOutcome::Rejected,
            _ => {
                proof {
                    lemma_queued_tokens_push(self.queue@, Command::Close);
                }
                self.queue.push(Command::Close);
                proof {
                    assert(final(self).submitted@ =~= final(self).started@ + queued_tokens(
                        final(self).queue@,
                    ));
                }
                CloseOutcome::Accepted
            },
        }
    }
}

/// What the actor found at the head of its queue.
#[derive(Debug, Clone, PartialEq)]
pub enum TakeOutcome {
    /// A query with this token was taken; the actor now holds it and the
    /// loop must execute it.
    Started(i64),
    /// A close command was taken; the actor stops immediately, without
    /// draining what is still queued behind it.
    Stopped,
}

/// The effects one execution attempt asks of the running loop: an outcome
/// to deliver (and the counter decrement that goes with it), a backoff
/// sleep before retrying, and the notices to log.
#[derive(Debug, Clone, PartialEq)]
pub struct StepEffects {
    pub deliver: Option<(i64, Outcome)>,
    pub decremented: bool,
    pub retry_after_backoff: bool,
    pub log_recovery: bool,
    pub log_failure: bool,
}

/// A failure streak counter, saturating rather than wrapping.
pub open spec fn bump(f: u64) -> u64 {
    if f == u64::MAX {
        f
    } else {
        (f + 1) as u64
    }
}

/// The actor state after one execution attempt: success, or failure of a
/// query that expects a reply, puts the actor back to waiting; failure of a
/// zero-correlation query keeps the very same request for another attempt.
pub open spec fn spec_finish_state(a: ActorState, failed: bool) -> ActorState {
    match a {
        ActorState::Working { token, req, failures } => {
            if !failed || token != 0 {
                ActorState::Idle
            } else {
                ActorState::Working { token, req, failures: bump(failures) }
            }
        },
        _ => a,
    }
}

/// The outcome one execution attempt delivers: rows on success, the error
/// on failure of a query that expects a reply, and nothing at all on
/// failure of a zero-correlation query.
pub open spec fn spec_finish_delivery(
    a: ActorState,
    result: Result<RawRowSet, QueryError>,
) -> Option<(i64, Outcome)> {
    match a {
        ActorState::Working { token, .. } => match result {
            Result::Ok(rows) => Some((token, Outcome::Rows(rows))),
            Result::Err(e) => if token != 0 {
                Some((token, Outcome::Error(e)))
            } else {
                None
            },
        },
        _ => None,
    }
}

/// The request a working actor holds.
pub open spec fn req_of(a: ActorState) -> QueryRequest {
    match a {
        ActorState::Working { req, .. } => req,
        _ => vstd::pervasive::arbitrary(),
    }
}

impl Conn {
    /// Takes the command at the head of the queue: a close command stops
    /// the actor on the spot; a query becomes the actor's current work, its
    /// token appended to the started order.
    pub fn actor_take(&mut self) -> (r: TakeOutcome)
        requires
            old(self).wf(),
            old(self).actor is Idle,
            old(self).queue@.len() > 0,
        ensures
            final(self).wf(),
            final(self).capacity == old(self).capacity,
            final(self).inflight == old(self).inflight,
            final(self).submitted == old(self).submitted,
            final(self).completed == old(self).completed,
            final(self).queue@ == old(self).queue@.drop_first(),
            match old(self).queue@[0] {
                Command::Query { token, req } => {
                    &&& r == TakeOutcome::Started(token)
                    &&& final(self).actor == (ActorState::Working { token, req, failures: 0u64 })
                    &&& final(self).started@ == old(self).started@.push(token)
                },
                Command::Close => {
                    &&& r == TakeOutcome::Stopped
                    &&& final(self).actor is Stopped
                    &&& final(self).started == old(self).started
                },
            },
    {
        let cmd = self.queue.remove(0);
        proof {
            assert(old(self).queue@.remove(0) =~= old(self).queue@.drop_first());
        }
        match cmd {
            Command::Query { token, req } => {
                self.actor = ActorState::Working { token, req, failures: 0 };
                proof {
                    self.started@ = self.started@.push(token);
                    assert(final(self).submitted@ =~= final(self).started@ + queued_tokens(
                        final(self).queue@,
                    ));
                }
                TakeOutcome::Started(token)
            },
            Command::Close => {
                self.actor = ActorState::Stopped;
                TakeOutcome::Stopped
            },
        }
    }

    /// Classifies the result of one execution attempt of the current query:
    /// delivers and moves on, or (for a failed zero-correlation query)
    /// keeps the request and asks the loop to retry it after a backoff.
    /// A failure notice is logged after the first failure of a
    /// zero-correlation streak, a recovery notice after a success that
    /// follows one or more failures.
    pub fn actor_finish(&mut self, result: Result<RawRowSet, QueryError>) -> (e: StepEffects)
        requires
            old(self).wf(),
            old(self).actor is Working,
        ensures
            final(self).wf(),
            final(self).capacity == old(self).capacity,
            final(self).queue == old(self).queue,
            final(self).submitted == old(self).submitted,
            final(self).started == old(self).started,
            final(self).actor == spec_finish_state(old(self).actor, result is Err),
            e.deliver == spec_finish_delivery(old(self).actor, result),
            e.deliver matches Some(d) ==> final(self).completed@ == old(self).completed@.push(
                d.0,
            ),
            e.deliver is None ==> final(self).completed == old(self).completed,
            e.decremented == (e.deliver is Some),
            e.decremented ==> final(self).inflight == old(self).inflight - 1,
            !e.decremented ==> final(self).inflight == old(self).inflight,
            e.retry_after_backoff == (final(self).actor is Working),
            match old(self).actor {
                ActorState::Working { token, failures, .. } => {
                    &&& e.log_recovery == ((result is Ok) && failures > 0)
                    &&& e.log_failure == ((result is Err) && token == 0 && failures == 0)
                },
                _ => false,
            },
    {
        let mut prev = ActorState::Idle;
        core::mem::swap(&mut self.actor, &mut prev);
        match prev {
            ActorState::Working { token, req, failures } => {
                match result {
                    Result::Ok(rows) => {
                        self.inflight = self.inflight - 1;
                        proof {
                            self.completed@ = self.completed@.push(token);
                        }
                        StepEffects {
                            deliver: Some((token, Outcome::Rows(rows))),
                            decremented: true,
                            retry_after_backoff: false,
                            log_recovery: failures > 0,
                            log_failure: false,
                        }
                    },
                    Result::Err(err) => {
                        if token != 0 {
                            self.inflight = self.inflight - 1;
                            proof {
                                self.completed@ = self.completed@.push(token);
                            }
                            StepEffects {
                                deliver: Some((token, Outcome::Error(err))),
                                decremented: true,
                                retry_after_backoff: false,
                                log_recovery: false,
                                log_failure: false,
                            }
                        } else {
                            let f2 = if failures == u64::MAX {
                                failures
                            } else {
                                failures + 1
                            };
                            self.actor = ActorState::Working { token, req, failures: f2 };
                            StepEffects {
                                deliver: None,
                                decremented: false,
                                retry_after_backoff: true,
                                log_recovery: false,
                                log_failure: failures == 0,
                            }
                        }
                    },
                }
            },
            _ => {
                proof {
                    assert(false);
                }
                StepEffects {
                    deliver: None,
                    decremented: false,
                    retry_after_backoff: false,
                    log_recovery: false,
                    log_failure: false,
                }
            },
        }
    }
}

/// FIFO: on one connection, the queries the actor has begun executing are
/// exactly the first of the admitted queries, in admission order, and the
/// outcomes delivered so far are exactly the first of those, in the same
/// order: execution and completion order match submission order.
pub proof fn lemma_fifo_execution_order(c: Conn)
    requires
        c.wf(),
    ensures
        c.started@.len() <= c.submitted@.len(),
        c.started@ == c.submitted@.subrange(0, c.started@.len() as int),
        c.completed@.len() <= c.started@.len(),
        c.completed@ == c.started@.subrange(0, c.completed@.len() as int),
        c.completed@ == c.submitted@.subrange(0, c.completed@.len() as int),
{
    assert(c.started@ =~= c.submitted@.subrange(0, c.started@.len() as int));
    if c.actor is Working {
        assert(c.completed@ =~= c.started@.subrange(0, c.completed@.len() as int));
    } else {
        assert(c.completed@ =~= c.started@.subrange(0, c.completed@.len() as int));
    }
    assert(c.completed@ =~= c.submitted@.subrange(0, c.completed@.len() as int));
}

/// The actor state after `n` failed attempts at its current query.
pub open spec fn spec_retry_steps(a: ActorState, n: nat) -> ActorState
    decreases n,
{
    if n == 0 {
        a
    } else {
        spec_finish_state(spec_retry_steps(a, (n - 1) as nat), true)
    }
}

/// Retry: a zero-correlation query is never dropped and never failed.
/// After any number of failed attempts the actor still holds the very same
/// request; no outcome was delivered along the way; and the first attempt
/// that succeeds delivers that query's rows.
pub proof fn lemma_zero_token_retry(a: ActorState, n: nat, rows: RawRowSet)
    requires
        a matches ActorState::Working { token: 0i64, .. },
    ensures
        spec_retry_steps(a, n) matches ActorState::Working { token: t2, req: r2, .. } && t2 == 0
            && r2 == req_of(a),
        forall|i: nat, err: QueryError|
            i < n ==> spec_finish_delivery(
                spec_retry_steps(a, i),
                Result::<RawRowSet, QueryError>::Err(err),
            ) is None,
        spec_finish_delivery(spec_retry_steps(a, n), Result::<RawRowSet, QueryError>::Ok(rows))
            == Some((0i64, Outcome::Rows(rows))),
    decreases n,
{
    if n > 0 {
        lemma_zero_token_retry(a, (n - 1) as nat, rows);
        assert(forall|i: nat, err: QueryError|
            i < n ==> spec_finish_delivery(
                spec_retry_steps(a, i),
                Result::<RawRowSet, QueryError>::Err(err),
            ) is None) by {
            assert(spec_retry_steps(a, (n - 1) as nat) matches ActorState::Working {
                token: 0i64,
                ..
            });
        }
    }
}

} // verus!
