//! The connection manager: three bounded pools of idle sessions, one for each kind of
//! session, and the client from which new sessions are connected. The manager never
//! connects and never waits: a checkout either hands out an idle session or says that
//! a new one has to be connected, which the caller does without holding the manager.

use vstd::prelude::*;
use std::time::Duration;
use redis::aio::{MultiplexedConnection, PubSub};
use redis::{Client, Connection, Msg, RedisError};
use crate::errors::ErrorKind;
use crate::pool::{after_checkout, after_release, after_return, ConnectionGuard, Pool};
use crate::rendezvous::{Rendezvous, WaitEvent, WaitEventView, WaitStateView};
use crate::text::owned;

verus! {

/// The client of the store: what new sessions are connected from.
#[verifier::external_type_specification]
#[verifier::external_body]
pub struct ExClient(Client);

/// A plain session, used from synchronous code.
#[verifier::external_type_specification]
#[verifier::external_body]
pub struct ExConnection(Connection);

/// A multiplexed session, used from asynchronous code.
#[verifier::external_type_specification]
#[verifier::external_body]
pub struct ExMultiplexedConnection(MultiplexedConnection);

/// A publish/subscribe session.
#[verifier::external_type_specification]
#[verifier::external_body]
pub struct ExPubSub(PubSub);

/// The error of the store's client.
#[verifier::external_type_specification]
#[verifier::external_body]
pub struct ExRedisError(RedisError);

/// A message received on a subscription.
#[verifier::external_type_specification]
#[verifier::external_body]
pub struct ExMsg(Msg);

/// The most idle sessions that each pool of a manager keeps.
pub const MAX_POOL_SIZE: usize = 100;

/// Calls `redis::Client::open` with a URL. It checks the URL and connects nothing.
/// Nothing is claimed of the result: which URLs are accepted depends on the platform
/// and on how the client was built.
#[verifier::external_body]
pub(crate) fn open_client(redis_url: &str) -> (res: Result<Client, RedisError>) {
    Client::open(redis_url)
}

/// The text that the payload of a received message reads as, or nothing where the
/// payload is no text (bytes that are not UTF-8, or a value that is no string).
pub uninterp spec fn msg_text(msg: Msg) -> Option<Seq<char>>;

/// Calls `redis::Msg::get_payload` for a `String`. Trusted: the call reads the message
/// and nothing else, so its result is the one that `msg_text` names.
#[verifier::external_body]
pub(crate) fn payload_text(msg: &Msg) -> (res: Result<String, RedisError>)
    ensures
        res is Ok <==> msg_text(*msg) is Some,
        res matches Ok(text) ==> msg_text(*msg) == Some(text@),
{
    msg.get_payload::<String>()
}

/// A guard on a plain session.
pub type SyncConnectionGuard = ConnectionGuard<Connection>;

/// A guard on a multiplexed session.
pub type AsyncConnectionGuard = ConnectionGuard<MultiplexedConnection>;

/// A failure of the store: its kind, and the error of the client that caused it.
pub struct StoreError {
    /// What went wrong.
    pub kind: ErrorKind,
    /// The error that the client of the store returned.
    pub cause: RedisError,
}

/// What a checkout that found no idle session comes to, given the result of the one
/// attempt to connect a new session: the new session, or `ConnectFailed` with the
/// client's error. Nothing is tried again.
pub open spec fn connect_outcome<T>(attempt: Result<T, RedisError>) -> Result<T, StoreError> {
    match attempt {
        Ok(session) => Ok(session),
        Err(cause) => Err(StoreError { kind: ErrorKind::ConnectFailed, cause }),
    }
}

/// Ends a checkout that found no idle session, with the result of the one attempt to
/// connect a new session. The pools are not touched and nothing is tried again.
pub fn connected<T>(attempt: Result<T, RedisError>) -> (res: Result<T, StoreError>)
    ensures
        res == connect_outcome(attempt),
{
    match attempt {
        Ok(session) => Ok(session),
        Err(cause) => Err(StoreError { kind: ErrorKind::ConnectFailed, cause }),
    }
}

/// A publish with the session to issue it on.
pub struct Publish {
    /// The session to issue it on.
    pub session: MultiplexedConnection,
    /// The channel to publish to.
    pub channel: String,
    /// The payload.
    pub message: String,
}

/// A publish for which no session was idle: a new one has to be connected first.
pub struct PendingPublish {
    channel: String,
    message: String,
}

/// Where a publish stands after the checkout.
pub enum PublishStep {
    /// A session was idle: issue the publish on it.
    Issue(Publish),
    /// No session was idle: connect one, then report the result to the pending publish.
    Connect(PendingPublish),
}

impl PendingPublish {
    /// The channel to publish to.
    pub closed spec fn channel(&self) -> Seq<char> {
        self.channel@
    }

    /// The payload.
    pub closed spec fn message(&self) -> Seq<char> {
        self.message@
    }

    /// Takes the result of the one attempt to connect a session. On a session, the
    /// publish is ready to be issued on it; on a failure the publish ends with
    /// `ConnectFailed` and the client's error: there is nothing to issue, and no other
    /// attempt is made.
    pub fn connected(self, attempt: Result<MultiplexedConnection, RedisError>) -> (res: Result<
        Publish,
        StoreError,
    >)
        ensures
            match attempt {
                Ok(session) => res matches Ok(publish) && publish.session == session
                    && publish.channel@ == self.channel() && publish.message@ == self.message(),
                Err(cause) => res matches Err(e) && e.kind == ErrorKind::ConnectFailed && e.cause
                    == cause,
            },
    {
        match attempt {
            Ok(session) => Ok(Publish { session, channel: self.channel, message: self.message }),
            Err(cause) => Err(StoreError { kind: ErrorKind::ConnectFailed, cause }),
        }
    }
}

/// The event that a received message makes, given what reading its payload returned.
pub fn message_event(payload: Result<String, RedisError>) -> (event: WaitEvent)
    ensures
        event@ == match payload {
            Ok(text) => WaitEventView::Message(text@),
            Err(_) => WaitEventView::MessageUnreadable,
        },
{
    match payload {
        Ok(text) => WaitEvent::Message(text),
        Err(_) => WaitEvent::MessageUnreadable,
    }
}

/// The event that a received message makes: `Message` with its payload where the
/// payload is text, and `MessageUnreadable` where it is not.
pub fn event_of_message(msg: &Msg) -> (event: WaitEvent)
    ensures
        event@ == match msg_text(*msg) {
            Some(text) => WaitEventView::Message(text),
            None => WaitEventView::MessageUnreadable,
        },
{
    message_event(payload_text(msg))
}

/// Three pools of idle sessions and the client of the store.
pub struct RedisManager {
    client: Client,
    sync_connection_pool: Pool<Connection>,
    async_connection_pool: Pool<MultiplexedConnection>,
    pubsub_connection_pool: Pool<PubSub>,
}

impl RedisManager {
    /// The client of the store.
    pub closed spec fn store_client(&self) -> Client {
        self.client
    }

    /// The idle plain sessions, oldest first.
    pub closed spec fn idle_sync(&self) -> Seq<Connection> {
        self.sync_connection_pool@
    }

    /// The idle multiplexed sessions, oldest first.
    pub closed spec fn idle_async(&self) -> Seq<MultiplexedConnection> {
        self.async_connection_pool@
    }

    /// The idle publish/subscribe sessions, oldest first.
    pub closed spec fn idle_pubsub(&self) -> Seq<PubSub> {
        self.pubsub_connection_pool@
    }

    /// The most idle sessions that each pool of this manager keeps.
    pub closed spec fn limit(&self) -> nat {
        self.sync_connection_pool.limit()
    }

    /// Each of the three pools keeps at most `limit()` idle sessions and holds no more
    /// than that. Every manager that a constructor made, and that only the methods
    /// below have touched, is well formed.
    pub closed spec fn well_formed(&self) -> bool {
        &&& self.async_connection_pool.limit() == self.limit()
        &&& self.pubsub_connection_pool.limit() == self.limit()
        &&& self.sync_connection_pool.well_formed()
        &&& self.async_connection_pool.well_formed()
        &&& self.pubsub_connection_pool.well_formed()
    }

    /// In a well-formed manager no pool holds more idle sessions than the limit.
    pub proof fn lemma_pools_are_bounded(&self)
        requires
            self.well_formed(),
        ensures
            self.idle_sync().len() <= self.limit(),
            self.idle_async().len() <= self.limit(),
            self.idle_pubsub().len() <= self.limit(),
    {
    }

    /// A manager for `client`, with three empty pools that each keep at most `max_size`
    /// idle sessions.
    pub fn with_client_and_limit(client: Client, max_size: usize) -> (manager: RedisManager)
        ensures
            manager.store_client() == client,
            manager.limit() == max_size,
            manager.idle_sync() == Seq::<Connection>::empty(),
            manager.idle_async() == Seq::<MultiplexedConnection>::empty(),
            manager.idle_pubsub() == Seq::<PubSub>::empty(),
            manager.well_formed(),
    {
        RedisManager {
            client,
            sync_connection_pool: Pool::new(max_size),
            async_connection_pool: Pool::new(max_size),
            pubsub_connection_pool: Pool::new(max_size),
        }
    }

    /// A manager for `client`, with three empty pools that each keep at most
    /// `MAX_POOL_SIZE` idle sessions.
    pub fn with_client(client: Client) -> (manager: RedisManager)
        ensures
            manager.store_client() == client,
            manager.limit() == MAX_POOL_SIZE,
            manager.idle_sync() == Seq::<Connection>::empty(),
            manager.idle_async() == Seq::<MultiplexedConnection>::empty(),
            manager.idle_pubsub() == Seq::<PubSub>::empty(),
            manager.well_formed(),
    {
        RedisManager::with_client_and_limit(client, MAX_POOL_SIZE)
    }

    /// The most idle sessions that each pool of this manager keeps.
    pub fn max_pool_size(&self) -> (n: usize)
        ensures
            n == self.limit(),
    {
        self.sync_connection_pool.max_size()
    }

    /// A manager for a client that was opened, or `ConnectFailed` where the opening
    /// failed.
    pub fn from_opened(opened: Result<Client, RedisError>) -> (res: Result<RedisManager, ErrorKind>)
        ensures
            match res {
                Ok(manager) => {
                    &&& opened == Ok::<Client, RedisError>(manager.store_client())
                    &&& manager.limit() == MAX_POOL_SIZE
                    &&& manager.idle_sync() == Seq::<Connection>::empty()
                    &&& manager.idle_async() == Seq::<MultiplexedConnection>::empty()
                    &&& manager.idle_pubsub() == Seq::<PubSub>::empty()
                    &&& manager.well_formed()
                },
                Err(e) => e == ErrorKind::ConnectFailed && opened is Err,
            },
    {
        match opened {
            Ok(client) => Ok(RedisManager::with_client(client)),
            Err(_) => Err(ErrorKind::ConnectFailed),
        }
    }

    /// A manager for the store at `redis_url`, with three empty pools. The URL is
    /// checked and nothing is connected; a URL that the client refuses gives
    /// `ConnectFailed`.
    pub fn new(redis_url: &str) -> (res: Result<RedisManager, ErrorKind>)
        ensures
            match res {
                Ok(manager) => {
                    &&& manager.limit() == MAX_POOL_SIZE
                    &&& manager.idle_sync() == Seq::<Connection>::empty()
                    &&& manager.idle_async() == Seq::<MultiplexedConnection>::empty()
                    &&& manager.idle_pubsub() == Seq::<PubSub>::empty()
                    &&& manager.well_formed()
                },
                Err(e) => e == ErrorKind::ConnectFailed,
            },
    {
        RedisManager::from_opened(open_client(redis_url))
    }

    /// The client of the store, from which the caller connects new sessions.
    pub fn client(&self) -> (client: &Client)
        ensures
            *client == self.store_client(),
    {
        &self.client
    }

    /// How many plain sessions are idle.
    pub fn idle_sync_count(&self) -> (n: usize)
        ensures
            n == self.idle_sync().len(),
    {
        self.sync_connection_pool.len()
    }

    /// How many multiplexed sessions are idle.
    pub fn idle_async_count(&self) -> (n: usize)
        ensures
            n == self.idle_async().len(),
    {
        self.async_connection_pool.len()
    }

    /// How many publish/subscribe sessions are idle.
    pub fn idle_pubsub_count(&self) -> (n: usize)
        ensures
            n == self.idle_pubsub().len(),
    {
        self.pubsub_connection_pool.len()
    }

    /// Checks a plain session out: the oldest idle one, or nothing where none is idle,
    /// and then the caller connects a new one from the client.
    pub fn get_sync_connection(&mut self) -> (session: Option<Connection>)
        ensures
            match session {
                Some(s) => old(self).idle_sync().len() > 0 && s == old(self).idle_sync()[0],
                None => old(self).idle_sync().len() == 0,
            },
            final(self).idle_sync() == after_checkout(old(self).idle_sync()),
            final(self).idle_async() == old(self).idle_async(),
            final(self).idle_pubsub() == old(self).idle_pubsub(),
            final(self).store_client() == old(self).store_client(),
            final(self).limit() == old(self).limit(),
            old(self).well_formed() ==> final(self).well_formed(),
    {
        self.sync_connection_pool.checkout()
    }

    /// Checks a multiplexed session out: the oldest idle one, or nothing where none is
    /// idle, and then the caller connects a new one from the client.
    pub fn get_async_connection(&mut self) -> (session: Option<MultiplexedConnection>)
        ensures
            match session {
                Some(s) => old(self).idle_async().len() > 0 && s == old(self).idle_async()[0],
                None => old(self).idle_async().len() == 0,
            },
            final(self).idle_async() == after_checkout(old(self).idle_async()),
            final(self).idle_sync() == old(self).idle_sync(),
            final(self).idle_pubsub() == old(self).idle_pubsub(),
            final(self).store_client() == old(self).store_client(),
            final(self).limit() == old(self).limit(),
            old(self).well_formed() ==> final(self).well_formed(),
    {
        self.async_connection_pool.checkout()
    }

    /// Checks a publish/subscribe session out: the oldest idle one, or nothing where
    /// none is idle, and then the caller connects a new one from the client.
    pub fn get_pubsub_connection(&mut self) -> (session: Option<PubSub>)
        ensures
            match session {
                Some(s) => old(self).idle_pubsub().len() > 0 && s == old(self).idle_pubsub()[0],
                None => old(self).idle_pubsub().len() == 0,
            },
            final(self).idle_pubsub() == after_checkout(old(self).idle_pubsub()),
            final(self).idle_sync() == old(self).idle_sync(),
            final(self).idle_async() == old(self).idle_async(),
            final(self).store_client() == old(self).store_client(),
            final(self).limit() == old(self).limit(),
            old(self).well_formed() ==> final(self).well_formed(),
    {
        self.pubsub_connection_pool.checkout()
    }

    /// Checks a plain session out under a guard, as `get_sync_connection` does.
    pub fn get_sync_conn(&mut self) -> (guard: Option<SyncConnectionGuard>)
        ensures
            match guard {
                Some(g) => old(self).idle_sync().len() > 0 && g.held() == Some(
                    old(self).idle_sync()[0],
                ),
                None => old(self).idle_sync().len() == 0,
            },
            final(self).idle_sync() == after_checkout(old(self).idle_sync()),
            final(self).idle_async() == old(self).idle_async(),
            final(self).idle_pubsub() == old(self).idle_pubsub(),
            final(self).store_client() == old(self).store_client(),
            final(self).limit() == old(self).limit(),
            old(self).well_formed() ==> final(self).well_formed(),
    {
        match self.sync_connection_pool.checkout() {
            Some(connection) => Some(ConnectionGuard::new(connection)),
            None => None,
        }
    }

    /// Checks a multiplexed session out under a guard, as `get_async_connection` does.
    pub fn get_async_conn(&mut self) -> (guard: Option<AsyncConnectionGuard>)
        ensures
            match guard {
                Some(g) => old(self).idle_async().len() > 0 && g.held() == Some(
                    old(self).idle_async()[0],
                ),
                None => old(self).idle_async().len() == 0,
            },
            final(self).idle_async() == after_checkout(old(self).idle_async()),
            final(self).idle_sync() == old(self).idle_sync(),
            final(self).idle_pubsub() == old(self).idle_pubsub(),
            final(self).store_client() == old(self).store_client(),
            final(self).limit() == old(self).limit(),
            old(self).well_formed() ==> final(self).well_formed(),
    {
        match self.async_connection_pool.checkout() {
            Some(connection) => Some(ConnectionGuard::new(connection)),
            None => None,
        }
    }

    /// Hands a plain session back: it is kept if fewer than the limit are idle,
    /// and dropped otherwise. Returns whether it was kept.
    pub fn return_sync_connection(&mut self, conn: Connection) -> (kept: bool)
        ensures
            old(self).well_formed() ==> kept == (old(self).idle_sync().len() < old(self).limit())
                && final(self).idle_sync() == after_return(
                old(self).idle_sync(),
                old(self).limit(),
                conn,
            ),
            final(self).idle_sync() == old(self).idle_sync().push(conn) || final(self).idle_sync()
                == old(self).idle_sync(),
            final(self).idle_async() == old(self).idle_async(),
            final(self).idle_pubsub() == old(self).idle_pubsub(),
            final(self).store_client() == old(self).store_client(),
            final(self).limit() == old(self).limit(),
            old(self).well_formed() ==> final(self).well_formed(),
    {
        self.sync_connection_pool.give_back(conn)
    }

    /// Hands a multiplexed session back: it is kept if fewer than the limit are idle,
    /// and dropped otherwise. Returns whether it was kept.
    pub fn return_async_connection(&mut self, conn: MultiplexedConnection) -> (kept: bool)
        ensures
            old(self).well_formed() ==> kept == (old(self).idle_async().len() < old(self).limit())
                && final(self).idle_async() == after_return(
                old(self).idle_async(),
                old(self).limit(),
                conn,
            ),
            final(self).idle_async() == old(self).idle_async().push(conn) || final(self).idle_async() == old(self).idle_async(),
            final(self).idle_sync() == old(self).idle_sync(),
            final(self).idle_pubsub() == old(self).idle_pubsub(),
            final(self).store_client() == old(self).store_client(),
            final(self).limit() == old(self).limit(),
            old(self).well_formed() ==> final(self).well_formed(),
    {
        self.async_connection_pool.give_back(conn)
    }

    /// Hands a publish/subscribe session back: it is kept if fewer than the limit are
    /// idle, and dropped otherwise. Returns whether it was kept.
    pub fn return_pubsub_connection(&mut self, conn: PubSub) -> (kept: bool)
        ensures
            old(self).well_formed() ==> kept == (old(self).idle_pubsub().len() < old(self).limit())
                && final(self).idle_pubsub() == after_return(
                old(self).idle_pubsub(),
                old(self).limit(),
                conn,
            ),
            final(self).idle_pubsub() == old(self).idle_pubsub().push(conn) || final(self).idle_pubsub() == old(self).idle_pubsub(),
            final(self).idle_sync() == old(self).idle_sync(),
            final(self).idle_async() == old(self).idle_async(),
            final(self).store_client() == old(self).store_client(),
            final(self).limit() == old(self).limit(),
            old(self).well_formed() ==> final(self).well_formed(),
    {
        self.pubsub_connection_pool.give_back(conn)
    }

    /// Ends a guard on a plain session: the session it still holds is handed back as
    /// `return_sync_connection` does; a guard that was released before changes nothing.
    pub fn release_sync(&mut self, guard: &mut SyncConnectionGuard)
        ensures
            final(guard).held().is_none(),
            old(self).well_formed() ==> final(self).idle_sync() == after_release(
                old(self).idle_sync(),
                old(self).limit(),
                old(guard).held(),
            ),
            old(guard).held().is_none() ==> final(self).idle_sync() == old(self).idle_sync(),
            final(self).idle_async() == old(self).idle_async(),
            final(self).idle_pubsub() == old(self).idle_pubsub(),
            final(self).store_client() == old(self).store_client(),
            final(self).limit() == old(self).limit(),
            old(self).well_formed() ==> final(self).well_formed(),
    {
        guard.return_to(&mut self.sync_connection_pool);
    }

    /// Ends a guard on a multiplexed session: the session it still holds is handed
    /// back as `return_async_connection` does; a guard that was released before
    /// changes nothing.
    pub fn release_async(&mut self, guard: &mut AsyncConnectionGuard)
        ensures
            final(guard).held().is_none(),
            old(self).well_formed() ==> final(self).idle_async() == after_release(
                old(self).idle_async(),
                old(self).limit(),
                old(guard).held(),
            ),
            old(guard).held().is_none() ==> final(self).idle_async() == old(self).idle_async(),
            final(self).idle_sync() == old(self).idle_sync(),
            final(self).idle_pubsub() == old(self).idle_pubsub(),
            final(self).store_client() == old(self).store_client(),
            final(self).limit() == old(self).limit(),
            old(self).well_formed() ==> final(self).well_formed(),
    {
        guard.return_to(&mut self.async_connection_pool);
    }

    /// Prepares a publish of `message` to `channel`: checks a multiplexed session out
    /// as `get_async_connection` does. Where one was idle the publish is ready to be
    /// issued on it; where none was, a session has to be connected first, and the
    /// pending publish takes the result of that attempt. The publish does not wait for
    /// subscribers; once it is issued the caller hands the session back.
    pub fn publish(&mut self, channel: &str, message: &str) -> (step: PublishStep)
        ensures
            match step {
                PublishStep::Issue(publish) => {
                    &&& old(self).idle_async().len() > 0
                    &&& publish.session == old(self).idle_async()[0]
                    &&& publish.channel@ == channel@
                    &&& publish.message@ == message@
                },
                PublishStep::Connect(pending) => {
                    &&& old(self).idle_async().len() == 0
                    &&& pending.channel() == channel@
                    &&& pending.message() == message@
                },
            },
            final(self).idle_async() == after_checkout(old(self).idle_async()),
            final(self).idle_sync() == old(self).idle_sync(),
            final(self).idle_pubsub() == old(self).idle_pubsub(),
            final(self).store_client() == old(self).store_client(),
            final(self).limit() == old(self).limit(),
            old(self).well_formed() ==> final(self).well_formed(),
    {
        match self.async_connection_pool.checkout() {
            Some(session) => PublishStep::Issue(
                Publish { session, channel: owned(channel), message: owned(message) },
            ),
            None => PublishStep::Connect(
                PendingPublish { channel: owned(channel), message: owned(message) },
            ),
        }
    }

    /// Prepares a wait for one message on `subscribe_channel`, for at most
    /// `timeout_duration`: the rendezvous that the caller then drives, event by event.
    pub fn subscribe_and_wait_for_response(
        &self,
        subscribe_channel: &str,
        timeout_duration: Duration,
    ) -> (rendezvous: Rendezvous)
        ensures
            rendezvous.channel() == subscribe_channel@,
            rendezvous.timeout() == timeout_duration,
            rendezvous.state() == WaitStateView::Start,
    {
        Rendezvous::new(subscribe_channel, timeout_duration)
    }

    /// The command that wipes the store. It is issued on a session of its own, newly
    /// connected from the client and dropped afterwards; the pools are not touched.
    pub fn flushdb(&self) -> (command: &'static str)
        ensures
            command@ == "FLUSHDB"@,
    {
        "FLUSHDB"
    }
}

} // verus!
