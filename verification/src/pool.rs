//! A bounded cache of idle sessions of one kind, first in, first out.

use vstd::prelude::*;
use std::collections::VecDeque;

verus! {

/// One step on a pool, as the model sees it.
pub enum PoolOp<T> {
    /// Take the oldest idle session, if there is one.
    Checkout,
    /// Hand a session back.
    Return(T),
}

/// The idle sessions after a checkout: the oldest one is gone.
pub open spec fn after_checkout<T>(idle: Seq<T>) -> Seq<T> {
    if idle.len() > 0 {
        idle.drop_first()
    } else {
        idle
    }
}

/// The idle sessions after `session` is handed back to a pool that keeps at most `limit`:
/// it joins the back of the queue if there is room, and is discarded otherwise.
pub open spec fn after_return<T>(idle: Seq<T>, limit: nat, session: T) -> Seq<T> {
    if idle.len() < limit {
        idle.push(session)
    } else {
        idle
    }
}

/// The idle sessions after one step.
pub open spec fn after_op<T>(idle: Seq<T>, limit: nat, op: PoolOp<T>) -> Seq<T> {
    match op {
        PoolOp::Checkout => after_checkout(idle),
        PoolOp::Return(session) => after_return(idle, limit, session),
    }
}

/// The idle sessions after a sequence of steps, taken in order.
pub open spec fn after_ops<T>(idle: Seq<T>, limit: nat, ops: Seq<PoolOp<T>>) -> Seq<T>
    decreases ops.len(),
{
    if ops.len() == 0 {
        idle
    } else {
        after_ops(after_op(idle, limit, ops[0]), limit, ops.drop_first())
    }
}

/// Whatever steps are taken on a pool, in whatever order, it never holds more idle
/// sessions than its limit.
pub proof fn lemma_pool_never_exceeds_limit<T>(idle: Seq<T>, limit: nat, ops: Seq<PoolOp<T>>)
    requires
        idle.len() <= limit,
    ensures
        after_ops(idle, limit, ops).len() <= limit,
    decreases ops.len(),
{
    if ops.len() > 0 {
        lemma_pool_never_exceeds_limit(after_op(idle, limit, ops[0]), limit, ops.drop_first());
    }
}

/// A bounded first-in-first-out cache of idle sessions.
pub struct Pool<T> {
    idle: VecDeque<T>,
    max_size: usize,
}

impl<T> View for Pool<T> {
    type V = Seq<T>;

    /// The idle sessions, oldest first.
    closed spec fn view(&self) -> Seq<T> {
        self.idle@
    }
}

impl<T> Pool<T> {
    /// The most idle sessions this pool keeps.
    pub closed spec fn limit(&self) -> nat {
        self.max_size as nat
    }

    /// The pool holds no more idle sessions than its limit. Every pool that `new` made
    /// and that only the methods below have touched is well formed.
    pub open spec fn well_formed(&self) -> bool {
        self@.len() <= self.limit()
    }

    /// An empty pool that keeps at most `max_size` idle sessions.
    pub fn new(max_size: usize) -> (pool: Pool<T>)
        ensures
            pool@ == Seq::<T>::empty(),
            pool.limit() == max_size,
            pool.well_formed(),
    {
        Pool { idle: VecDeque::new(), max_size }
    }

    /// The most idle sessions this pool keeps.
    pub fn max_size(&self) -> (n: usize)
        ensures
            n == self.limit(),
    {
        self.max_size
    }

    /// How many sessions are idle now.
    pub fn len(&self) -> (n: usize)
        ensures
            n == self@.len(),
    {
        self.idle.len()
    }

    /// Whether no session is idle.
    pub fn is_empty(&self) -> (b: bool)
        ensures
            b == (self@.len() == 0),
    {
        self.idle.len() == 0
    }

    /// Takes the oldest idle session out of the pool, if there is one.
    pub fn checkout(&mut self) -> (session: Option<T>)
        ensures
            final(self).limit() == old(self).limit(),
            final(self)@ == after_checkout(old(self)@),
            old(self).well_formed() ==> final(self).well_formed(),
            match session {
                Some(s) => old(self)@.len() > 0 && s == old(self)@[0],
                None => old(self)@.len() == 0,
            },
    {
        let session = self.idle.pop_front();
        proof {
            assert(self.idle@ =~= after_checkout(old(self).idle@));
        }
        session
    }

    /// Hands `session` back. It joins the back of the queue when the pool has room;
    /// otherwise it is dropped here. Returns whether it was kept.
    pub fn give_back(&mut self, session: T) -> (kept: bool)
        ensures
            final(self).limit() == old(self).limit(),
            kept == (old(self)@.len() < old(self).limit()),
            final(self)@ == after_return(old(self)@, old(self).limit(), session),
            old(self).well_formed() ==> final(self).well_formed(),
    {
        if self.idle.len() < self.max_size {
            self.idle.push_back(session);
            true
        } else {
            false
        }
    }
}

/// The idle sessions after a guard that holds `held` is released into the pool: the
/// session is handed back if the guard still holds one, and nothing happens otherwise.
pub open spec fn after_release<T>(idle: Seq<T>, limit: nat, held: Option<T>) -> Seq<T> {
    match held {
        Some(connection) => after_return(idle, limit, connection),
        None => idle,
    }
}

/// No session is returned more than once: a release empties the guard, and releasing
/// an empty guard again leaves the pool as the first release left it.
pub proof fn lemma_release_happens_once<T>(idle: Seq<T>, limit: nat, held: Option<T>)
    ensures
        after_release(after_release(idle, limit, held), limit, None::<T>) == after_release(
            idle,
            limit,
            held,
        ),
{
}

/// Exclusive hold of one checked-out session. The session leaves the guard at most
/// once; after that the guard is empty and releasing it again does nothing.
pub struct ConnectionGuard<T> {
    connection: Option<T>,
}

impl<T> ConnectionGuard<T> {
    /// The session that the guard holds, if it still holds one.
    pub closed spec fn held(&self) -> Option<T> {
        self.connection
    }

    /// A guard that holds `connection`.
    pub fn new(connection: T) -> (guard: ConnectionGuard<T>)
        ensures
            guard.held() == Some(connection),
    {
        ConnectionGuard { connection: Some(connection) }
    }

    /// Whether the guard still holds its session.
    pub fn is_held(&self) -> (b: bool)
        ensures
            b == self.held().is_some(),
    {
        self.connection.is_some()
    }

    /// The session, for use while the guard holds it.
    pub fn connection(&self) -> (connection: &T)
        requires
            self.held().is_some(),
        ensures
            *connection == self.held().unwrap(),
    {
        self.connection.as_ref().unwrap()
    }

    /// The session, for use and change while the guard holds it.
    pub fn connection_mut(&mut self) -> (connection: &mut T)
        requires
            old(self).held().is_some(),
        ensures
            *connection == old(self).held().unwrap(),
            final(self).held() == Some(*final(connection)),
    {
        self.connection.as_mut().unwrap()
    }

    /// Moves the session out of the guard and leaves the guard empty.
    pub fn release(&mut self) -> (connection: Option<T>)
        ensures
            connection == old(self).held(),
            final(self).held().is_none(),
    {
        self.connection.take()
    }

    /// Hands the session of this guard back to `pool`: the first call returns it as
    /// `Pool::give_back` does, and any later call leaves the pool as it is.
    pub fn return_to(&mut self, pool: &mut Pool<T>)
        ensures
            final(self).held().is_none(),
            final(pool).limit() == old(pool).limit(),
            final(pool)@ == after_release(old(pool)@, old(pool).limit(), old(self).held()),
            old(pool).well_formed() ==> final(pool).well_formed(),
    {
        match self.connection.take() {
            Some(connection) => {
                pool.give_back(connection);
            },
            None => {},
        }
    }
}

} // verus!
