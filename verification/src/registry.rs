//! The connection registry and dispatcher facade: a mapping from logical
//! connection name to its connection, plus the public operations — register
//! a connection under a name, resolve a name, submit a query, request a
//! close, snapshot the in-flight counts, and step a connection's actor.
//!
//! Every operation touches exactly one named connection and leaves every
//! other untouched: failures on one connection never block or fail queries
//! submitted to another.

use vstd::prelude::*;
use vstd::pervasive::VecAdditionalExecFns;

use crate::conn::{Conn, StepEffects, TakeOutcome};
use crate::strutil::str_eq;
use crate::values::{CloseOutcome, Command, QueryError, QueryRequest, RawRowSet, SubmitOutcome};

verus! {

/// The registry of live connections, keyed by caller-chosen logical name.
pub struct Dispatcher {
    pub conns: Vec<(String, Conn)>,
}

impl Dispatcher {
    /// Names are unique and every registered connection is well-formed.
    pub open spec fn wf(self) -> bool {
        &&& forall|i: int, j: int|
            0 <= i < j < self.conns@.len() ==> (#[trigger] self.conns@[i]).0@ != (
            #[trigger] self.conns@[j]).0@
        &&& forall|i: int| 0 <= i < self.conns@.len() ==> (#[trigger] self.conns@[i]).1.wf()
    }

    /// A connection is registered under this name.
    pub open spec fn has_conn(self, name: Seq<char>) -> bool {
        exists|i: int| 0 <= i < self.conns@.len() && (#[trigger] self.conns@[i]).0@ == name
    }

    /// The position of the connection registered under this name.
    pub open spec fn index_for(self, name: Seq<char>) -> int {
        choose|i: int| 0 <= i < self.conns@.len() && (#[trigger] self.conns@[i]).0@ == name
    }

    /// The connection registered under this name.
    pub open spec fn conn_for(self, name: Seq<char>) -> Conn {
        self.conns@[self.index_for(name)].1
    }

    /// An empty registry: the dispatcher is constructed once and handed to
    /// its callers, not kept as ambient global state.
    pub fn new() -> (d: Dispatcher)
        ensures
            d.wf(),
            d.conns@.len() == 0,
            forall|m: Seq<char>| !d.has_conn(m),
    {
        Dispatcher { conns: Vec::new() }
    }

    /// Finds the position of a name, scanning the registry.
    fn index_of(&self, name: &str) -> (r: Option<usize>)
        requires
            self.wf(),
        ensures
            match r {
                Some(i) => i < self.conns@.len() && self.conns@[i as int].0@ == name@
                    && self.has_conn(name@) && self.index_for(name@) == i as int,
                None => !self.has_conn(name@),
            },
    {
        let n = self.conns.len();
        let mut i: usize = 0;
        while i < n
            invariant
                self.wf(),
                i <= n,
                n == self.conns@.len(),
                forall|k: int| 0 <= k < i ==> (#[trigger] self.conns@[k]).0@ != name@,
            decreases n - i,
        {
            if str_eq(self.conns[i].0.as_str(), name) {
                proof {
                    assert(forall|j: int|
                        0 <= j < self.conns@.len() && (#[trigger] self.conns@[j]).0@ == name@
                            ==> j == i);
                }
                return Some(i);
            }
            i = i + 1;
        }
        None
    }

    /// Resolves a logical name to a handle (its registry position); absence
    /// is not an error by itself, the caller surfaces it as an unknown
    /// connection.
    pub fn find_connection(&self, name: &str) -> (r: Option<usize>)
        requires
            self.wf(),
        ensures
            match r {
                Some(i) => self.has_conn(name@) && i < self.conns@.len()
                    && self.conns@[i as int].0@ == name@,
                None => !self.has_conn(name@),
            },
    {
        self.index_of(name)
    }

    /// Registers a fresh connection under a name, overwriting a previous
    /// registration of the same name (a re-connect may orphan its old
    /// actor); every other name is untouched.
    #[verifier::rlimit(50)]
    pub fn register(&mut self, name: String, capacity: usize)
        requires
            old(self).wf(),
            capacity < usize::MAX,
        ensures
            final(self).wf(),
            final(self).has_conn(name@),
            final(self).conn_for(name@).wf(),
            final(self).conn_for(name@).capacity == capacity,
            final(self).conn_for(name@).queue@.len() == 0,
            final(self).conn_for(name@).inflight == 0,
            final(self).conn_for(name@).actor is Idle,
            final(self).conn_for(name@).submitted@ == Seq::<i64>::empty(),
            forall|m: Seq<char>|
                m != name@ ==> (#[trigger] final(self).has_conn(m)) == old(self).has_conn(m) && (
                old(self).has_conn(m) ==> final(self).conn_for(m) == old(self).conn_for(m)),
    {
        let fresh = Conn::new(capacity);
        let ghost name_view = name@;
        match self.index_of(name.as_str()) {
            Some(i) => {
                self.conns.set(i, (name, fresh));
                proof {
                    self.lemma_update_preserves_others(*old(self), i as int, name_view);
                    assert(forall|m: Seq<char>|
                        m != name_view ==> (#[trigger] self.has_conn(m)) == old(self).has_conn(m)
                            && (old(self).has_conn(m) ==> self.conn_for(m) == old(
                            self,
                        ).conn_for(m)));
                }
            },
            None => {
                self.conns.push((name, fresh));
                proof {
                    let prev = *old(self);
                    let n = prev.conns@.len() as int;
                    assert(forall|j: int| 0 <= j < n ==> self.conns@[j] == prev.conns@[j]);
                    assert(self.conns@[n].0@ == name_view);
                    assert(self.has_conn(name_view));
                    assert(forall|k: int|
                        0 <= k < self.conns@.len() && (#[trigger] self.conns@[k]).0@ == name_view
                            ==> k == n);
                    assert(self.index_for(name_view) == n);
                    assert forall|m: Seq<char>| m != name_view implies ((
                    #[trigger] self.has_conn(m)) == prev.has_conn(m)) && (prev.has_conn(m)
                        ==> self.conn_for(m) == prev.conn_for(m)) by {
                        if prev.has_conn(m) {
                            let j = prev.index_for(m);
                            assert(prev.conns@[j].0@ == m);
                            assert(self.conns@[j].0@ == m);
                            assert(self.has_conn(m));
                            assert(forall|k: int|
                                0 <= k < self.conns@.len() && (#[trigger] self.conns@[k]).0@ == m
                                    ==> k == j);
                            assert(self.index_for(m) == j);
                        } else {
                            if self.has_conn(m) {
                                let j = self.index_for(m);
                                assert(self.conns@[j].0@ == m);
                                assert(j != n);
                                assert(prev.conns@[j].0@ == m);
                                assert(prev.has_conn(m));
                            }
                        }
                    }
                }
            },
        }
        proof {
            assert(forall|m: Seq<char>|
                m != name_view ==> ((#[trigger] self.has_conn(m)) == old(self).has_conn(m)) && (
                old(self).has_conn(m) ==> self.conn_for(m) == old(self).conn_for(m)));
        }
    }

    /// Submits a query to the connection registered under a name: a
    /// non-blocking enqueue that either is admitted (growing the in-flight
    /// count by one), is rejected because the queue is full, or is rejected
    /// because the name is unknown.  Every other connection is untouched.
    #[verifier::rlimit(50)]
    pub fn submit(&mut self, name: &str, token: i64, req: QueryRequest) -> (r: SubmitOutcome)
        requires
            old(self).wf(),
        ensures
            final(self).wf(),
            !old(self).has_conn(name@) ==> r == SubmitOutcome::UnknownConnection && *final(self)
                == *old(self),
            old(self).has_conn(name@) ==> final(self).has_conn(name@),
            old(self).has_conn(name@) && !old(self).conn_for(name@).accepts() ==> r
                == SubmitOutcome::QueueFull && final(self).conn_for(name@) == old(self).conn_for(
                name@,
            ),
            old(self).has_conn(name@) && old(self).conn_for(name@).accepts() ==> {
                let c = old(self).conn_for(name@);
                let c2 = final(self).conn_for(name@);
                &&& r == SubmitOutcome::Accepted
                &&& c2.queue@ == c.queue@.push(Command::Query { token, req })
                &&& c2.inflight == c.inflight + 1
                &&& c2.submitted@ == c.submitted@.push(token)
                &&& c2.actor == c.actor
                &&& c2.capacity == c.capacity
                &&& c2.started == c.started
            },
            forall|m: Seq<char>|
                m != name@ ==> (#[trigger] final(self).has_conn(m)) == old(self).has_conn(m) && (
                old(self).has_conn(m) ==> final(self).conn_for(m) == old(self).conn_for(m)),
    {
        match self.index_of(name) {
            None => SubmitOutcome::UnknownConnection,
            Some(i) => {
                let mut entry = (String::new(), Conn::new(0));
                self.conns.set_and_swap(i, &mut entry);
                let r = entry.1.submit(token, req);
                self.conns.set_and_swap(i, &mut entry);
                proof {
                    self.lemma_update_preserves_others(*old(self), i as int, name@);
                    assert(forall|m: Seq<char>|
                        m != name@ ==> (#[trigger] self.has_conn(m)) == old(self).has_conn(m) && (
                        old(self).has_conn(m) ==> self.conn_for(m) == old(self).conn_for(m)));
                }
                r
            },
        }
    }

    /// Requests that the connection registered under a name close: a
    /// non-blocking enqueue of a close command behind whatever is already
    /// queued.  Every other connection is untouched.
    #[verifier::rlimit(50)]
    pub fn close(&mut self, name: &str) -> (r: CloseOutcome)
        requires
            old(self).wf(),
        ensures
            final(self).wf(),
            !old(self).has_conn(name@) ==> r == CloseOutcome::UnknownConnection && *final(self)
                == *old(self),
            old(self).has_conn(name@) ==> final(self).has_conn(name@),
            old(self).has_conn(name@) ==> final(self).conn_for(name@).inflight == old(
                self,
            ).conn_for(name@).inflight,
            old(self).has_conn(name@) && !old(self).conn_for(name@).accepts() ==> r
                == CloseOutcome::Rejected && final(self).conn_for(name@) == old(self).conn_for(
                name@,
            ),
            old(self).has_conn(name@) && old(self).conn_for(name@).accepts() ==> {
                let c = old(self).conn_for(name@);
                let c2 = final(self).conn_for(name@);
                &&& r == CloseOutcome::Accepted
                &&& c2.queue@ == c.queue@.push(Command::Close)
                &&& c2.actor == c.actor
                &&& c2.capacity == c.capacity
                &&& c2.submitted == c.submitted
                &&& c2.started == c.started
            },
            forall|m: Seq<char>|
                m != name@ ==> (#[trigger] final(self).has_conn(m)) == old(self).has_conn(m) && (
                old(self).has_conn(m) ==> final(self).conn_for(m) == old(self).conn_for(m)),
    {
        match self.index_of(name) {
            None => CloseOutcome::UnknownConnection,
            Some(i) => {
                let mut entry = (String::new(), Conn::new(0));
                self.conns.set_and_swap(i, &mut entry);
                let r = entry.1.request_close();
                self.conns.set_and_swap(i, &mut entry);
                proof {
                    self.lemma_update_preserves_others(*old(self), i as int, name@);
                    assert(forall|m: Seq<char>|
                        m != name@ ==> (#[trigger] self.has_conn(m)) == old(self).has_conn(m) && (
                        old(self).has_conn(m) ==> self.conn_for(m) == old(self).conn_for(m)));
                }
                r
            },
        }
    }

    /// A point-in-time snapshot of every connection's in-flight count.
    pub fn stats(&self) -> (r: Vec<(String, usize)>)
        requires
            self.wf(),
        ensures
            r@.len() == self.conns@.len(),
            forall|i: int|
                0 <= i < r@.len() ==> (#[trigger] r@[i]).0 == self.conns@[i].0 && r@[i].1
                    == self.conns@[i].1.inflight,
    {
        let n = self.conns.len();
        let mut r: Vec<(String, usize)> = Vec::new();
        let mut i: usize = 0;
        while i < n
            invariant
                i <= n,
                n == self.conns@.len(),
                r@.len() == i,
                forall|k: int|
                    0 <= k < i ==> (#[trigger] r@[k]).0 == self.conns@[k].0 && r@[k].1
                        == self.conns@[k].1.inflight,
            decreases n - i,
        {
            r.push((self.conns[i].0.clone(), self.conns[i].1.inflight));
            i = i + 1;
        }
        r
    }

    /// Steps the actor of the connection at a handle: takes the command at
    /// the head of its queue.  Every other connection is untouched.
    #[verifier::rlimit(50)]
    pub fn actor_take_at(&mut self, i: usize) -> (r: TakeOutcome)
        requires
            old(self).wf(),
            i < old(self).conns@.len(),
            old(self).conns@[i as int].1.actor is Idle,
            old(self).conns@[i as int].1.queue@.len() > 0,
        ensures
            final(self).wf(),
            final(self).conns@.len() == old(self).conns@.len(),
            final(self).conns@[i as int].0 == old(self).conns@[i as int].0,
            forall|j: int|
                0 <= j < old(self).conns@.len() && j != i ==> final(self).conns@[j] == old(
                    self,
                ).conns@[j],
            forall|m: Seq<char>|
                m != old(self).conns@[i as int].0@ ==> (#[trigger] final(self).has_conn(m)) == old(
                    self,
                ).has_conn(m) && (old(self).has_conn(m) ==> final(self).conn_for(m) == old(
                    self,
                ).conn_for(m)),
            ({
                let c = old(self).conns@[i as int].1;
                let c2 = final(self).conns@[i as int].1;
                &&& c2.capacity == c.capacity
                &&& c2.inflight == c.inflight
                &&& c2.submitted == c.submitted
                &&& c2.completed == c.completed
                &&& c2.queue@ == c.queue@.drop_first()
                &&& match c.queue@[0] {
                    Command::Query { token, req } => {
                        &&& r == TakeOutcome::Started(token)
                        &&& c2.actor == (crate::conn::ActorState::Working {
                            token,
                            req,
                            failures: 0u64,
                        })
                        &&& c2.started@ == c.started@.push(token)
                    },
                    Command::Close => {
                        &&& r == TakeOutcome::Stopped
                        &&& c2.actor is Stopped
                        &&& c2.started == c.started
                    },
                }
            }),
    {
        let ghost name_view = old(self).conns@[i as int].0@;
        let mut entry = (String::new(), Conn::new(0));
        self.conns.set_and_swap(i, &mut entry);
        let r = entry.1.actor_take();
        self.conns.set_and_swap(i, &mut entry);
        proof {
            self.lemma_update_preserves_others(*old(self), i as int, name_view);
        }
        r
    }

    /// Steps the actor of the connection at a handle with the result of one
    /// execution attempt.  Every other connection is untouched.
    #[verifier::rlimit(50)]
    pub fn actor_finish_at(&mut self, i: usize, result: Result<RawRowSet, QueryError>) -> (e:
        StepEffects)
        requires
            old(self).wf(),
            i < old(self).conns@.len(),
            old(self).conns@[i as int].1.actor is Working,
        ensures
            final(self).wf(),
            final(self).conns@.len() == old(self).conns@.len(),
            final(self).conns@[i as int].0 == old(self).conns@[i as int].0,
            forall|j: int|
                0 <= j < old(self).conns@.len() && j != i ==> final(self).conns@[j] == old(
                    self,
                ).conns@[j],
            forall|m: Seq<char>|
                m != old(self).conns@[i as int].0@ ==> (#[trigger] final(self).has_conn(m)) == old(
                    self,
                ).has_conn(m) && (old(self).has_conn(m) ==> final(self).conn_for(m) == old(
                    self,
                ).conn_for(m)),
            ({
                let c = old(self).conns@[i as int].1;
                let c2 = final(self).conns@[i as int].1;
                &&& c2.capacity == c.capacity
                &&& c2.queue == c.queue
                &&& c2.submitted == c.submitted
                &&& c2.started == c.started
                &&& c2.actor == crate::conn::spec_finish_state(c.actor, result is Err)
                &&& e.deliver == crate::conn::spec_finish_delivery(c.actor, result)
                &&& (e.deliver matches Some(d) ==> c2.completed@ == c.completed@.push(d.0))
                &&& (e.deliver is None ==> c2.completed == c.completed)
                &&& e.decremented == (e.deliver is Some)
                &&& (e.decremented ==> c2.inflight == c.inflight - 1)
                &&& (!e.decremented ==> c2.inflight == c.inflight)
                &&& e.retry_after_backoff == (c2.actor is Working)
                &&& match c.actor {
                    crate::conn::ActorState::Working { token, failures, .. } => {
                        &&& e.log_recovery == ((result is Ok) && failures > 0)
                        &&& e.log_failure == ((result is Err) && token == 0 && failures == 0)
                    },
                    _ => false,
                }
            }),
    {
        let ghost name_view = old(self).conns@[i as int].0@;
        let mut entry = (String::new(), Conn::new(0));
        self.conns.set_and_swap(i, &mut entry);
        let e = entry.1.actor_finish(result);
        self.conns.set_and_swap(i, &mut entry);
        proof {
            self.lemma_update_preserves_others(*old(self), i as int, name_view);
        }
        e
    }

    /// After updating position `i` without changing its name, every other
    /// name still resolves to the very connection it had: this is the
    /// independence of the registry's entries from one another.
    proof fn lemma_update_preserves_others(self, prev: Dispatcher, i: int, name: Seq<char>)
        requires
            prev.wf(),
            0 <= i < prev.conns@.len(),
            self.conns@.len() == prev.conns@.len(),
            forall|j: int|
                0 <= j < prev.conns@.len() && j != i ==> self.conns@[j] == prev.conns@[j],
            self.conns@[i].0@ == prev.conns@[i].0@,
            prev.conns@[i].0@ == name,
            self.conns@[i].1.wf(),
        ensures
            self.wf(),
            self.has_conn(name),
            self.index_for(name) == i,
            self.conn_for(name) == self.conns@[i].1,
            forall|m: Seq<char>|
                m != name ==> (#[trigger] self.has_conn(m)) == prev.has_conn(m) && (prev.has_conn(
                    m,
                ) ==> self.conn_for(m) == prev.conn_for(m)),
    {
        assert(forall|j: int|
            0 <= j < self.conns@.len() ==> (#[trigger] self.conns@[j]).0@ == prev.conns@[j].0@);
        assert(self.conns@[i].0@ == name);
        assert(forall|j: int|
            0 <= j < self.conns@.len() && (#[trigger] self.conns@[j]).0@ == name ==> j == i);
        assert forall|m: Seq<char>| m != name implies (#[trigger] self.has_conn(m))
            == prev.has_conn(m) && (prev.has_conn(m) ==> self.conn_for(m) == prev.conn_for(m)) by {
            if prev.has_conn(m) {
                let j = prev.index_for(m);
                assert(prev.conns@[j].0@ == m);
                assert(j != i);
                assert(self.conns@[j].0@ == m);
                assert(self.has_conn(m));
                assert(forall|k: int|
                    0 <= k < self.conns@.len() && (#[trigger] self.conns@[k]).0@ == m ==> k == j);
                assert(self.index_for(m) == j);
            } else {
                if self.has_conn(m) {
                    let j = self.index_for(m);
                    assert(self.conns@[j].0@ == m);
                    assert(prev.conns@[j].0@ == m);
                }
            }
        }
    }
}

} // verus!
