//! The client.

use vstd::prelude::*;
use vstd::string::StringExecFns;
use crate::client::account::{Account, jid_in, random_pair, unique_id, unique_prefix};
use crate::client::app_state::{InFlight, PatchName};
use crate::client::diagnostics::MemoryDiagnostics;
use crate::client::error::{ClientError, IqFailure, SocketError};
use crate::client::filter::{NodeFilter, NodeWaiter, Waiters, remaining, woken};
use crate::client::inbound::{FinishStep, Inbound, InboundEvent};
use crate::client::link::{Link, LogoutError, StrictLogout, initial_link};
use crate::client::stanza::{Handler, Nack, ack_of, nack_of, rejects, should_ack, wants_ack};
use crate::handlers::message::{
    ChatLanes, Enqueued, Handled, MessageHandler, chat_of, enqueue_settled, send_outcomes,
    with_lane,
};
use crate::jid::{Jid, JidView};
use crate::message::plaintext::MessageEvent;
use crate::message::retry::{
    RetryPlan, counted_at, live, lookup, make_retry_cache_key, next_count, plan_for, plan_retry,
    remembered, remembering, retry_key,
};
use crate::node::Node;
use crate::text::{decimal, decimal_text};
use crate::text_map::TextMap;
use crate::types::{DecryptFailMode, MessageInfo, UnavailableType, UndecryptableMessage};
use crate::wire::{Stanza, marshal, marshaled};

verus! {

/// How many sync tasks may wait to be done.
pub const SYNC_QUEUE_CAPACITY: usize = 32;

/// How much the caches may hold, and for how long.
#[derive(Clone, Copy, Debug, PartialEq, Eq, Structural)]
pub struct CacheConfig {
    pub session_locks_capacity: u64,
    pub chat_lanes_capacity: usize,
    /// How long the retries of a message are remembered, in milliseconds.
    pub retry_counts_lifetime_ms: u64,
    /// How long it is remembered that a message was reported as undecryptable, in milliseconds.
    pub reported_lifetime_ms: u64,
}

/// What the application has chosen.
#[derive(Clone, Copy, Debug, PartialEq, Eq, Structural)]
pub struct Options {
    /// History is acknowledged, but not downloaded.
    pub skip_history_sync: bool,
    /// The application is shown every stanza.
    pub raw_node_forwarding: bool,
    /// Acknowledgements are sent before the next stanza is taken in.
    pub synchronous_ack: bool,
    /// How many locks on sessions are kept.
    pub session_locks_capacity: u64,
}

/// How far the shared state of the account has come.
#[derive(Clone, Copy, Debug, PartialEq, Eq, Structural)]
pub struct SyncState {
    pub needs_initial_full_sync: bool,
    pub initial_keys_received: bool,
}

/// The sizes of the collections that are kept outside the client proper.
#[derive(Clone, Copy, Debug, PartialEq, Eq, Structural)]
pub struct CacheSizes {
    pub group_cache: u64,
    pub device_registry_cache: u64,
    pub lid_pn_lid_entries: u64,
    pub lid_pn_pn_entries: u64,
    pub recent_messages: u64,
    pub sender_key_device_cache: u64,
    pub pdo_pending_requests: u64,
    pub session_locks: u64,
    pub pending_retries: usize,
    pub presence_subscriptions: usize,
    pub signal_cache_sessions: usize,
    pub signal_cache_identities: usize,
    pub signal_cache_sender_keys: usize,
    pub chatstate_handlers: usize,
    pub custom_enc_handlers: usize,
}

/// The client's own state, as far as it decides anything.
pub struct Client {
    pub link: Link,
    pub account: Account,
    pub options: Options,
    pub inbound: Inbound,
    /// The line of each chat.
    pub lanes: ChatLanes,
    /// Who waits for stanzas to come.
    pub node_waiters: Waiters,
    /// Who waits for stanzas to be sent.
    pub sent_node_waiters: Waiters,
    /// Who waits for the answer to a request, by the request's identifier.
    pub response_waiters: TextMap<u64>,
    /// The number of the next one who waits for an answer.
    pub next_response: u64,
    pub sync: SyncState,
    /// When keys to the shared state were asked for.
    pub key_requests: TextMap<u64>,
    /// The parts of the shared state that are being synced.
    pub syncing: InFlight,
    /// What the identifiers of requests begin with.
    pub unique_id: String,
    pub id_counter: u64,
}

/// What a stanza calls for.
#[derive(Clone, Copy, Debug, PartialEq, Eq, Structural)]
pub enum NodeStep {
    /// The server has ended the stream: so does the connection.
    StreamEnded,
    /// Hand the stanza to the one who waits for this answer.
    Answered(u64),
    /// Hand it to the handler for its tag, if there is one. An acknowledgement may follow.
    Dispatch(Option<Handler>),
}

/// What a stanza calls for.
pub struct NodeOutcome {
    /// Show the stanza to the application first.
    pub forward_raw: bool,
    /// Wake these.
    pub woken: Vec<u64>,
    pub step: NodeStep,
}

/// When a stanza that was dispatched is acknowledged.
#[derive(Clone, Copy, Debug, PartialEq, Eq, Structural)]
pub enum AckStep {
    /// Not at all; the server sends it again where that is due.
    Never,
    /// Now, and before the next stanza is taken in where that is chosen.
    Now { synchronous: bool },
    /// When the application has confirmed the message.
    AfterCommit,
}

/// The bytes of a stanza to send, and whom it wakes.
pub struct Outgoing {
    pub woken: Vec<u64>,
    pub bytes: Vec<u8>,
}

/// Whether stanzas of a tag are taken by a given handler, or by none.
pub open spec fn handled_by(tag: Seq<char>, handler: Option<Handler>) -> bool {
    match handler {
        Some(handler) => handler.tag() == tag,
        None => forall|other: Handler| #[trigger] other.tag() != tag,
    }
}

/// Who waits for an answer with the identifier of a stanza.
pub open spec fn answered_by(waiters: Map<Seq<char>, u64>, node: Node) -> Option<u64> {
    match node.attr_text("id"@) {
        Some(id) => if waiters.dom().contains(id) {
            Some(waiters[id])
        } else {
            None
        },
        None => None,
    }
}

/// Who waits for answers after a stanza with an identifier has come.
pub open spec fn without_answered(waiters: Map<Seq<char>, u64>, node: Node) -> Map<
    Seq<char>,
    u64,
> {
    match node.attr_text("id"@) {
        Some(id) => waiters.remove(id),
        None => waiters,
    }
}

/// Who waits for answers after any stanza has come: only answers to requests are looked at.
pub open spec fn still_waiting(waiters: Map<Seq<char>, u64>, node: Node) -> Map<Seq<char>, u64> {
    if node.tag@ == "iq"@ {
        without_answered(waiters, node)
    } else {
        waiters
    }
}

/// Whether a step is the one for a stanza other than the end of the stream, given who waits for
/// answers.
pub open spec fn is_step(waiters: Map<Seq<char>, u64>, node: Node, step: NodeStep) -> bool {
    match step {
        NodeStep::StreamEnded => false,
        NodeStep::Answered(waiter) => node.tag@ == "iq"@ && answered_by(waiters, node) == Some(
            waiter,
        ),
        NodeStep::Dispatch(handler) => {
            &&& node.tag@ != "iq"@ || answered_by(waiters, node) is None
            &&& handled_by(node.tag@, handler)
        },
    }
}

/// Whether a client is as it was just made.
pub open spec fn is_fresh(client: Client, account: Account, config: CacheConfig) -> bool {
    &&& client.link == initial_link()
    &&& client.account == account
    &&& client.options == (Options {
        skip_history_sync: false,
        raw_node_forwarding: false,
        synchronous_ack: false,
        session_locks_capacity: if config.session_locks_capacity >= 1 {
            config.session_locks_capacity
        } else {
            1
        },
    })
    &&& client.inbound.is_new(config.retry_counts_lifetime_ms, config.reported_lifetime_ms)
    &&& client.lanes@ == Seq::<JidView>::empty()
    &&& client.lanes.limit() == (if config.chat_lanes_capacity >= 1 {
        config.chat_lanes_capacity as nat
    } else {
        1
    })
    &&& client.node_waiters.list@ == Seq::<NodeWaiter>::empty()
    &&& client.node_waiters.next_id == 0
    &&& client.sent_node_waiters.list@ == Seq::<NodeWaiter>::empty()
    &&& client.sent_node_waiters.next_id == 0
    &&& client.response_waiters@ == Map::<Seq<char>, u64>::empty()
    &&& client.next_response == 0
    &&& client.sync == (SyncState {
        needs_initial_full_sync: false,
        initial_keys_received: false,
    })
    &&& client.key_requests@ == Map::<Seq<char>, u64>::empty()
    &&& client.syncing@ == Set::<PatchName>::empty()
    &&& client.id_counter == 0
    &&& exists|first: u8, second: u8| #[trigger]
        unique_prefix(first, second) == client.unique_id@
}

impl Client {
    /// A client for an account. It is not connected yet.
    pub fn new_with_cache_config(account: Account, config: CacheConfig) -> (r: Client)
        ensures
            is_fresh(r, account, config),
    {
        let pair = random_pair();
        let session_locks_capacity: u64 = if config.session_locks_capacity >= 1 {
            config.session_locks_capacity
        } else {
            1
        };
        let unique_id = unique_id(pair[0], pair[1]);
        assert(unique_prefix(pair@[0], pair@[1]) == unique_id@);
        Client {
            link: Link::new(),
            account,
            options: Options {
                skip_history_sync: false,
                raw_node_forwarding: false,
                synchronous_ack: false,
                session_locks_capacity,
            },
            inbound: Inbound::new(config.retry_counts_lifetime_ms, config.reported_lifetime_ms),
            lanes: ChatLanes::new(config.chat_lanes_capacity),
            node_waiters: Waiters::new(),
            sent_node_waiters: Waiters::new(),
            response_waiters: TextMap::new(),
            next_response: 0,
            sync: SyncState { needs_initial_full_sync: false, initial_keys_received: false },
            key_requests: TextMap::new(),
            syncing: InFlight::new(),
            unique_id,
            id_counter: 0,
        }
    }

    /// A new identifier for a request: what the client's identifiers begin with, and a number.
    pub fn generate_request_id(&mut self) -> (r: String)
        ensures
            r@ == old(self).unique_id@ + seq!['-'] + decimal_text(old(self).id_counter as nat),
            *final(self) == (Client {
                id_counter: old(self).id_counter.wrapping_add(1),
                ..*old(self)
            }),
    {
        proof {
            reveal_strlit("-");
        }
        let number = self.id_counter;
        self.id_counter = number.wrapping_add(1);
        let mut id = self.unique_id.clone();
        id.append("-");
        id.append(decimal(number).as_str());
        assert(id@ =~= old(self).unique_id@ + seq!['-'] + decimal_text(number as nat));
        id
    }

    /// Whether locks on sessions that nobody holds are to be dropped before one more is made, given
    /// how many there are and whether the one that is asked for is among them.
    pub fn session_locks_full(&self, count: u64, known: bool) -> (r: bool)
        ensures
            r == (!known && count >= self.options.session_locks_capacity),
    {
        !known && count >= self.options.session_locks_capacity
    }

    /// Whether history is acknowledged, but not downloaded.
    pub fn skip_history_sync_enabled(&self) -> (r: bool)
        ensures
            r == self.options.skip_history_sync,
    {
        self.options.skip_history_sync
    }

    pub fn set_skip_history_sync(&mut self, enabled: bool)
        ensures
            *final(self) == (Client {
                options: Options { skip_history_sync: enabled, ..old(self).options },
                ..*old(self)
            }),
    {
        self.options.skip_history_sync = enabled;
    }

    /// Chooses whether the application is shown every stanza.
    pub fn set_raw_node_forwarding(&mut self, enabled: bool)
        ensures
            *final(self) == (Client {
                options: Options { raw_node_forwarding: enabled, ..old(self).options },
                ..*old(self)
            }),
    {
        self.options.raw_node_forwarding = enabled;
    }

    pub fn is_connected(&self) -> (r: bool)
        ensures
            r == self.link.is_connected,
    {
        self.link.is_connected
    }

    pub fn is_logged_in(&self) -> (r: bool)
        ensures
            r == self.link.is_logged_in,
    {
        self.link.is_logged_in
    }

    /// Whether the client is shut down for good.
    pub fn shutdown_signal(&self) -> (r: bool)
        ensures
            r == self.link.shut_down,
    {
        self.link.shut_down
    }

    /// Whether there is no need to wait for the socket.
    pub fn wait_for_socket(&self) -> (r: bool)
        ensures
            r == self.link.is_connected,
    {
        self.link.is_connected
    }

    /// Whether there is no need to wait until the client is connected, logged in and ready.
    pub fn wait_for_connected(&self) -> (r: bool)
        ensures
            r == self.link.fully_ready(),
    {
        self.link.is_fully_ready()
    }

    /// Whether a failed sync is no more than the end of the connection shows anyway.
    pub fn should_downgrade_sync_error(&self, failure: Option<IqFailure>) -> (r: bool)
        ensures
            r == (self.link.shutting_down() || failure == Some(IqFailure::NotConnected) || failure
                == Some(IqFailure::InternalChannelClosed)),
    {
        if self.link.is_shutting_down() {
            return true;
        }
        match failure {
            Some(IqFailure::NotConnected) => true,
            Some(IqFailure::InternalChannelClosed) => true,
            _ => false,
        }
    }

    // -----------------------------------------------------------------------
    // The connection
    // -----------------------------------------------------------------------
    /// Begins to connect, unless the client is connected or about to be.
    pub fn connect(&mut self) -> (r: Result<(), ClientError>)
        ensures
            match r {
                Ok(()) => !old(self).link.is_connecting && !old(self).link.is_connected,
                Err(e) => (old(self).link.is_connecting || old(self).link.is_connected) && e
                    == ClientError::AlreadyConnected,
            },
            *final(self) == (Client {
                link: if r is Ok {
                    old(self).link.connecting()
                } else {
                    old(self).link
                },
                ..*old(self)
            }),
    {
        self.link.begin_connect()
    }

    /// Begins a logout. Tells whether the server is to be asked to remove this device; a
    /// disconnect follows either way.
    pub fn logout(&mut self) -> (r: bool)
        ensures
            r == (old(self).link.is_connected && old(self).account.pn is Some),
            *final(self) == (Client { link: old(self).link.logging_out(), ..*old(self) }),
    {
        let identity_known = self.account.pn.is_some();
        self.link.begin_logout(identity_known)
    }

    /// Begins a logout that counts only if the server confirms it.
    pub fn logout_strict(&mut self) -> (r: Result<StrictLogout, LogoutError>)
        ensures
            match r {
                Ok(logout) => old(self).link.is_connected && old(self).account.pn is Some
                    && logout.reconnect_was_enabled == old(self).link.enable_auto_reconnect
                    && *final(self) == (Client { link: old(self).link.logging_out(), ..*old(self) }),
                Err(LogoutError::NotConnected) => !old(self).link.is_connected && *final(self)
                    == *old(self),
                Err(LogoutError::NoIdentity) => old(self).link.is_connected && old(
                    self,
                ).account.pn is None && *final(self) == *old(self),
                Err(LogoutError::NotConfirmed) => false,
            },
    {
        let identity_known = self.account.pn.is_some();
        self.link.begin_strict_logout(identity_known)
    }

    /// Begins to disconnect for good.
    pub fn disconnect(&mut self)
        ensures
            *final(self) == (Client { link: old(self).link.disconnecting(), ..*old(self) }),
    {
        self.link.begin_disconnect();
    }

    /// Begins to drop the connection, for a new one after a wait.
    pub fn reconnect(&mut self)
        ensures
            *final(self) == (Client { link: old(self).link.reconnecting(), ..*old(self) }),
    {
        self.link.reconnect();
    }

    /// Begins to drop the connection, for a new one at once.
    pub fn reconnect_immediately(&mut self)
        ensures
            *final(self) == (Client { link: old(self).link.reconnecting_at_once(), ..*old(self) }),
    {
        self.link.reconnect_immediately();
    }

    /// Forgets what belongs to the connection that has ended. Those who wait for stanzas to come
    /// go on waiting: what they wait for may come over the next connection.
    pub fn cleanup_connection_state(&mut self)
        ensures
            final(self).link == old(self).link.cleaned(),
            final(self).lanes@ == Seq::<JidView>::empty(),
            final(self).lanes.limit() == old(self).lanes.limit(),
            final(self).sent_node_waiters.list@ == Seq::<NodeWaiter>::empty(),
            final(self).sent_node_waiters.next_id == old(self).sent_node_waiters.next_id,
            final(self).response_waiters@ == Map::<Seq<char>, u64>::empty(),
            final(self).key_requests@ == Map::<Seq<char>, u64>::empty(),
            final(self).syncing@ == Set::<PatchName>::empty(),
            *final(self) == (Client {
                link: final(self).link,
                lanes: final(self).lanes,
                sent_node_waiters: final(self).sent_node_waiters,
                response_waiters: final(self).response_waiters,
                key_requests: final(self).key_requests,
                syncing: final(self).syncing,
                ..*old(self)
            }),
    {
        self.sent_node_waiters.clear();
        self.link.clean_up();
        self.lanes.clear();
        self.response_waiters.clear();
        self.key_requests.clear();
        self.syncing.clear();
    }

    // -----------------------------------------------------------------------
    // Those who wait
    // -----------------------------------------------------------------------
    /// Lets someone wait for a stanza to come. This must be done before what makes it come.
    pub fn wait_for_node(&mut self, filter: NodeFilter) -> (r: u64)
        ensures
            r == old(self).node_waiters.next_id,
            final(self).node_waiters.next_id == old(self).node_waiters.next_id.wrapping_add(1),
            final(self).node_waiters.list@ == old(self).node_waiters.list@.push(
                NodeWaiter { id: r, filter, cancelled: false },
            ),
            *final(self) == (Client { node_waiters: final(self).node_waiters, ..*old(self) }),
    {
        self.node_waiters.register(filter)
    }

    /// Lets someone wait for a stanza to be sent.
    pub fn wait_for_sent_node(&mut self, filter: NodeFilter) -> (r: u64)
        ensures
            r == old(self).sent_node_waiters.next_id,
            final(self).sent_node_waiters.next_id == old(
                self,
            ).sent_node_waiters.next_id.wrapping_add(1),
            final(self).sent_node_waiters.list@ == old(self).sent_node_waiters.list@.push(
                NodeWaiter { id: r, filter, cancelled: false },
            ),
            *final(self) == (Client {
                sent_node_waiters: final(self).sent_node_waiters,
                ..*old(self)
            }),
    {
        self.sent_node_waiters.register(filter)
    }

    /// Lets someone wait for the answer to a request. Whoever waited under the same identifier
    /// waits no more.
    pub fn register_ack_waiter(&mut self, id: &str) -> (r: u64)
        ensures
            r == old(self).next_response,
            final(self).next_response == old(self).next_response.wrapping_add(1),
            final(self).response_waiters@ == old(self).response_waiters@.insert(id@, r),
            *final(self) == (Client {
                response_waiters: final(self).response_waiters,
                next_response: final(self).next_response,
                ..*old(self)
            }),
    {
        let number: u64 = self.next_response;
        self.next_response = number.wrapping_add(1);
        self.response_waiters.insert(id, number);
        number
    }

    /// Takes out the one who waits for an answer with the identifier of a stanza.
    fn take_waiter(&mut self, node: &Node) -> (r: Option<u64>)
        ensures
            r == answered_by(old(self).response_waiters@, *node),
            final(self).response_waiters@ == without_answered(old(self).response_waiters@, *node),
            *final(self) == (Client {
                response_waiters: final(self).response_waiters,
                ..*old(self)
            }),
    {
        match node.get_text("id") {
            Some(id) => self.response_waiters.remove(id.as_str()),
            None => None,
        }
    }

    /// Takes in an acknowledgement: gives the one who waits for it, if there is one, and what
    /// the server objected to, if it did.
    pub fn handle_ack_response(&mut self, node: &Node) -> (r: (Option<u64>, Option<Nack>))
        ensures
            r.0 == answered_by(old(self).response_waiters@, *node),
            rejects(*node, r.1),
            final(self).response_waiters@ == without_answered(old(self).response_waiters@, *node),
            *final(self) == (Client {
                response_waiters: final(self).response_waiters,
                ..*old(self)
            }),
    {
        let nack = nack_of(node);
        let waiter = self.take_waiter(node);
        (waiter, nack)
    }

    // -----------------------------------------------------------------------
    // Stanzas
    // -----------------------------------------------------------------------
    /// The link after a stanza.
    pub open spec fn link_after(self, node: Node, now: u64) -> Link {
        Link {
            offline_sync: self.link.offline_sync.after_stanza(node, now),
            connection_shut_down: self.link.connection_shut_down || node.tag@ == "xmlstreamend"@,
            ..self.link
        }
    }

    /// Wakes those who wait for a stanza, and finds out who takes care of it.
    fn route(&mut self, node: &Node) -> (r: (Vec<u64>, NodeStep))
        ensures
            r.0@ == woken(old(self).node_waiters.list@, *node),
            final(self).node_waiters.list@ == remaining(old(self).node_waiters.list@, *node),
            final(self).node_waiters.next_id == old(self).node_waiters.next_id,
            final(self).response_waiters@ == still_waiting(old(self).response_waiters@, *node),
            is_step(old(self).response_waiters@, *node, r.1),
            *final(self) == (Client {
                node_waiters: final(self).node_waiters,
                response_waiters: final(self).response_waiters,
                ..*old(self)
            }),
    {
        let woken = self.node_waiters.resolve(node);
        if node.is("iq") {
            match self.take_waiter(node) {
                Some(waiter) => {
                    return (woken, NodeStep::Answered(waiter));
                },
                None => {},
            }
        }
        let handler = Handler::for_tag(node.tag.as_str());
        (woken, NodeStep::Dispatch(handler))
    }

    /// Takes in, of a stanza that came at a given time, what concerns the connection. Tells whether
    /// the server has ended the stream.
    fn note_stanza(&mut self, node: &Node, now: u64) -> (r: bool)
        ensures
            r == (node.tag@ == "xmlstreamend"@),
            *final(self) == (Client { link: old(self).link_after(*node, now), ..*old(self) }),
    {
        self.link.offline_sync.track(node, now);
        let ended = node.is("xmlstreamend");
        if ended {
            self.link.notify_connection_shutdown();
        }
        ended
    }

    /// Takes in a stanza that came at a given time.
    pub fn process_node(&mut self, node: &Node, now: u64) -> (r: NodeOutcome)
        ensures
            r.forward_raw == old(self).options.raw_node_forwarding,
            final(self).link == old(self).link_after(*node, now),
            node.tag@ == "xmlstreamend"@ ==> {
                &&& r.step == NodeStep::StreamEnded
                &&& r.woken@ == Seq::<u64>::empty()
                &&& *final(self) == (Client { link: final(self).link, ..*old(self) })
            },
            node.tag@ != "xmlstreamend"@ ==> {
                &&& is_step(old(self).response_waiters@, *node, r.step)
                &&& r.woken@ == woken(old(self).node_waiters.list@, *node)
                &&& final(self).node_waiters.list@ == remaining(old(self).node_waiters.list@, *node)
                &&& final(self).node_waiters.next_id == old(self).node_waiters.next_id
                &&& final(self).response_waiters@ == still_waiting(
                    old(self).response_waiters@,
                    *node,
                )
            },
            *final(self) == (Client {
                link: final(self).link,
                node_waiters: final(self).node_waiters,
                response_waiters: final(self).response_waiters,
                ..*old(self)
            }),
    {
        let forward_raw = self.options.raw_node_forwarding;
        if self.note_stanza(node, now) {
            return NodeOutcome { forward_raw, woken: Vec::new(), step: NodeStep::StreamEnded };
        }
        let (woken, step) = self.route(node);
        NodeOutcome { forward_raw, woken, step }
    }

    /// When a stanza that was dispatched is acknowledged. A message that stands in line waits
    /// for the application's word.
    pub open spec fn ack_due(self, node: Node, cancelled: bool) -> AckStep {
        if cancelled || !wants_ack(node) {
            AckStep::Never
        } else if node.tag@ == "message"@ && chat_of(node) is Some {
            AckStep::AfterCommit
        } else {
            AckStep::Now { synchronous: self.options.synchronous_ack }
        }
    }

    /// When a stanza that was dispatched is acknowledged.
    pub fn maybe_deferred_ack(&self, node: &Node, cancelled: bool) -> (r: AckStep)
        ensures
            r == self.ack_due(*node, cancelled),
    {
        if cancelled || !should_ack(node) {
            return AckStep::Never;
        }
        if node.is("message") && MessageHandler.chat(node).is_some() {
            return AckStep::AfterCommit;
        }
        AckStep::Now { synchronous: self.options.synchronous_ack }
    }

    /// The bytes of the acknowledgement to send for a stanza.
    pub fn send_ack_for(&self, node: &Node) -> (r: Result<Option<Vec<u8>>, ClientError>)
        ensures
            ({
                let ack = ack_of(*node, jid_in(self.account.pn));
                match r {
                    Ok(Some(bytes)) => !self.link.expected_disconnect && self.link.is_connected
                        && ack is Some && marshaled(ack->0) == Some(bytes@),
                    Ok(None) => self.link.expected_disconnect || self.link.is_connected && (
                    ack is None || marshaled(ack->0) is None),
                    Err(e) => !self.link.expected_disconnect && !self.link.is_connected && e
                        == ClientError::NotConnected,
                }
            }),
    {
        self.link.send_ack_for(node, self.account.pn.as_ref())
    }

    /// Puts a message stanza in the line of its chat.
    pub fn handle_message(&mut self, stanza: Stanza, cancelled: &mut bool) -> (r: Handled)
        ensures
            r.known == (chat_of(stanza.content()) is Some),
            !r.known || !old(self).inbound.accepting ==> *final(self) == *old(self)
                && r.worker is None,
            !r.known ==> *final(cancelled) == *old(cancelled),
            r.known && !old(self).inbound.accepting ==> *final(cancelled),
            r.known && old(self).inbound.accepting ==> {
                let chat = chat_of(stanza.content())->0;
                &&& r.worker is Some <==> !old(self).lanes@.contains(chat)
                &&& final(self).lanes@ == with_lane(old(self).lanes@, old(self).lanes.limit(), chat)
                &&& final(self).lanes.limit() == old(self).lanes.limit()
                &&& old(self).lanes.keeps_lanes(final(self).lanes)
                &&& r.worker matches Some(worker) ==> final(self).lanes.works_on(worker, chat)
                &&& exists|enqueued: Enqueued|
                    send_outcomes(final(self).lanes.lane(chat), stanza.bytes()).contains(enqueued)
                        && (final(self).inbound.flow(), *final(cancelled))
                        == #[trigger] enqueue_settled(
                        old(self).inbound.flow(),
                        *old(cancelled),
                        stanza.content().attr_text("id"@),
                        enqueued,
                    )
            },
            *final(self) == (Client {
                inbound: Inbound { under_way: final(self).inbound.under_way, ..old(self).inbound },
                lanes: final(self).lanes,
                ..*old(self)
            }),
    {
        MessageHandler.handle(&mut self.inbound, &mut self.lanes, stanza, cancelled)
    }

    /// Encodes a stanza to send. Whoever waits for it to be sent is woken first, whether or not
    /// it can be encoded.
    pub fn send_node(&mut self, node: &Node) -> (r: Result<Outgoing, ClientError>)
        ensures
            match r {
                Ok(outgoing) => marshaled(node@) == Some(outgoing.bytes@) && outgoing.woken@
                    == woken(old(self).sent_node_waiters.list@, *node),
                Err(ClientError::Socket(e)) => marshaled(node@) is None && e.message@
                    == "stanza cannot be encoded"@,
                Err(_) => false,
            },
            final(self).sent_node_waiters.list@ == remaining(
                old(self).sent_node_waiters.list@,
                *node,
            ),
            final(self).sent_node_waiters.next_id == old(self).sent_node_waiters.next_id,
            *final(self) == (Client {
                sent_node_waiters: final(self).sent_node_waiters,
                ..*old(self)
            }),
    {
        let woken = self.sent_node_waiters.resolve(node);
        match marshal(node) {
            Some(bytes) => Ok(Outgoing { woken, bytes }),
            None => Err(
                ClientError::Socket(SocketError { message: "stanza cannot be encoded".to_owned() }),
            ),
        }
    }

    // -----------------------------------------------------------------------
    // Messages on their way to the application
    // -----------------------------------------------------------------------
    /// Notes that a message is handed to the application: its sender is told, and its stanza is
    /// acknowledged, when the application has confirmed it.
    pub fn dispatch_message(&mut self, event: &MessageEvent)
        ensures
            final(self).inbound.flow() == old(self).inbound.flow().after(
                InboundEvent::HandOver { info: event.info, send_delivery_receipt: true },
            ),
            *final(self) == (Client {
                inbound: Inbound { commits: final(self).inbound.commits, ..old(self).inbound },
                ..*old(self)
            }),
    {
        self.inbound.register_inbound_commit(&event.info, true);
    }

    /// Takes in that a message cannot be read: gives what the application is told, which it is
    /// once for each message, and how to get hold of the message all the same. The retries are
    /// counted under the addresses that sessions are kept under.
    pub fn handle_decrypt_failure(
        &mut self,
        info: &MessageInfo,
        chat: &Jid,
        sender: &Jid,
        decrypt_fail_mode: DecryptFailMode,
        now: u64,
    ) -> (r: (Option<UndecryptableMessage>, RetryPlan))
        ensures
            r.0 == (if remembered(
                old(self).inbound.reported@,
                old(self).inbound.reported.lifetime(),
                info.source.chat@,
                info.id@,
                now,
            ) {
                None
            } else {
                Some(
                    UndecryptableMessage {
                        info: *info,
                        is_unavailable: false,
                        unavailable_type: UnavailableType::Unknown,
                        decrypt_fail_mode,
                    },
                )
            }),
            r.1 == plan_for(
                next_count(
                    lookup(
                        live(
                            old(self).inbound.retry_counts@,
                            old(self).inbound.retry_counts.lifetime(),
                            now,
                        ),
                        retry_key(chat@, info.id@, sender@),
                    ),
                ),
            ),
            final(self).inbound.reported@ == remembering(
                old(self).inbound.reported@,
                old(self).inbound.reported.lifetime(),
                info.source.chat@,
                info.id@,
                now,
            ),
            final(self).inbound.reported.lifetime() == old(self).inbound.reported.lifetime(),
            final(self).inbound.flow() == (if r.0 is Some {
                old(self).inbound.flow().after(
                    InboundEvent::HandOver { info: *info, send_delivery_receipt: false },
                )
            } else {
                old(self).inbound.flow()
            }),
            final(self).inbound.retry_counts@ == counted_at(
                old(self).inbound.retry_counts@,
                old(self).inbound.retry_counts.lifetime(),
                retry_key(chat@, info.id@, sender@),
                now,
            ),
            final(self).inbound.retry_counts.lifetime() 
                == old(self).inbound.retry_counts.lifetime(),
            *final(self) == (Client {
                inbound: Inbound {
                    commits: final(self).inbound.commits,
                    reported: final(self).inbound.reported,
                    retry_counts: final(self).inbound.retry_counts,
                    ..old(self).inbound
                },
                ..*old(self)
            }),
    {
        let event = self.inbound.dispatch_undecryptable_event(
            info,
            false,
            UnavailableType::Unknown,
            decrypt_fail_mode,
            now,
        );
        let key = make_retry_cache_key(chat, info.id.as_str(), sender);
        let plan = plan_retry(&mut self.inbound.retry_counts, key.as_str(), now);
        (event, plan)
    }

    /// Takes in that the application has a message safe. Tells whether there is such a message.
    pub fn acknowledge_inbound_message(&mut self, id: &str) -> (r: bool)
        ensures
            r == old(self).inbound.commits@.dom().contains(id@),
            final(self).inbound.flow() == old(self).inbound.flow().after(
                InboundEvent::Confirm(id@),
            ),
            *final(self) == (Client {
                inbound: Inbound { commits: final(self).inbound.commits, ..old(self).inbound },
                ..*old(self)
            }),
    {
        self.inbound.acknowledge_inbound_message(id)
    }

    /// Takes in no more messages, and gives the lines of all chats up. What was taken in is
    /// processed to the end.
    pub fn begin_inbound_quiesce(&mut self)
        ensures
            final(self).inbound.flow() == old(self).inbound.flow().after(InboundEvent::Quiesce),
            final(self).lanes@ == Seq::<JidView>::empty(),
            final(self).lanes.limit() == old(self).lanes.limit(),
            *final(self) == (Client {
                inbound: Inbound { accepting: false, ..old(self).inbound },
                lanes: final(self).lanes,
                ..*old(self)
            }),
    {
        self.inbound.begin_inbound_quiesce();
        self.lanes.clear();
    }

    /// Whether every message that was taken in is done with.
    pub fn wait_for_inbound_quiescence(&self) -> (r: bool)
        ensures
            r == self.inbound.flow().quiescent(),
    {
        self.inbound.wait_for_inbound_quiescence()
    }

    /// What is left to do for a message stanza whose payloads were dealt with.
    pub fn finish_incoming_message(&mut self, node: &Node) -> (r: FinishStep)
        ensures
            old(self).inbound.flow().is_finish_step(node.attr_text("id"@), r),
            final(self).inbound.flow() == old(self).inbound.flow().after(
                InboundEvent::Finish(node.attr_text("id"@)),
            ),
            *final(self) == (Client {
                inbound: Inbound {
                    commits: final(self).inbound.commits,
                    under_way: final(self).inbound.under_way,
                    ..old(self).inbound
                },
                ..*old(self)
            }),
    {
        self.inbound.finish_incoming_message(node)
    }

    /// Gives a message stanza up: it is not acknowledged, and the server sends it again.
    pub fn give_up_message(&mut self, node: &Node)
        ensures
            final(self).inbound.flow() == old(self).inbound.flow().after(
                InboundEvent::GiveUp(node.attr_text("id"@)),
            ),
            *final(self) == (Client {
                inbound: Inbound { under_way: final(self).inbound.under_way, ..old(self).inbound },
                ..*old(self)
            }),
    {
        self.inbound.give_up(node);
    }

    // -----------------------------------------------------------------------
    // Sizes
    // -----------------------------------------------------------------------
    /// The sizes of all collections, given those of the collections outside.
    pub fn memory_diagnostics(&self, caches: CacheSizes) -> (r: MemoryDiagnostics)
        ensures
            r == (MemoryDiagnostics {
                group_cache: caches.group_cache,
                device_registry_cache: caches.device_registry_cache,
                lid_pn_lid_entries: caches.lid_pn_lid_entries,
                lid_pn_pn_entries: caches.lid_pn_pn_entries,
                recent_messages: caches.recent_messages,
                sender_key_device_cache: caches.sender_key_device_cache,
                message_retry_counts: self.inbound.retry_counts@.len() as u64,
                undecryptable_dispatched: self.inbound.reported@.len() as u64,
                pdo_pending_requests: caches.pdo_pending_requests,
                session_locks: caches.session_locks,
                chat_lanes: self.lanes@.len() as u64,
                response_waiters: self.response_waiters@.len() as usize,
                node_waiters: self.node_waiters.list@.len() as usize,
                pending_retries: caches.pending_retries,
                presence_subscriptions: caches.presence_subscriptions,
                app_state_key_requests: self.key_requests@.len() as usize,
                app_state_syncing: self.syncing@.len() as usize,
                signal_cache_sessions: caches.signal_cache_sessions,
                signal_cache_identities: caches.signal_cache_identities,
                signal_cache_sender_keys: caches.signal_cache_sender_keys,
                chatstate_handlers: caches.chatstate_handlers,
                custom_enc_handlers: caches.custom_enc_handlers,
            }),
    {
        MemoryDiagnostics {
            group_cache: caches.group_cache,
            device_registry_cache: caches.device_registry_cache,
            lid_pn_lid_entries: caches.lid_pn_lid_entries,
            lid_pn_pn_entries: caches.lid_pn_pn_entries,
            recent_messages: caches.recent_messages,
            sender_key_device_cache: caches.sender_key_device_cache,
            message_retry_counts: self.inbound.retry_counts.len() as u64,
            undecryptable_dispatched: self.inbound.reported.len() as u64,
            pdo_pending_requests: caches.pdo_pending_requests,
            session_locks: caches.session_locks,
            chat_lanes: self.lanes.len() as u64,
            response_waiters: self.response_waiters.len(),
            node_waiters: self.node_waiters.count(),
            pending_retries: caches.pending_retries,
            presence_subscriptions: caches.presence_subscriptions,
            app_state_key_requests: self.key_requests.len(),
            app_state_syncing: self.syncing.len(),
            signal_cache_sessions: caches.signal_cache_sessions,
            signal_cache_identities: caches.signal_cache_identities,
            signal_cache_sender_keys: caches.signal_cache_sender_keys,
            chatstate_handlers: caches.chatstate_handlers,
            custom_enc_handlers: caches.custom_enc_handlers,
        }
    }
}

/// An answer reaches the one who waits for it, and nobody else: after it has come, nobody waits
/// under its identifier, and everyone else goes on waiting.
pub proof fn answers_come_once(waiters: Map<Seq<char>, u64>, id: Seq<char>, number: u64, node: Node)
    requires
        node.attr_text("id"@) == Some(id),
    ensures
        answered_by(waiters.insert(id, number), node) == Some(number),
        answered_by(without_answered(waiters, node), node) is None,
        forall|other: Seq<char>|
            other != id ==> (#[trigger] without_answered(waiters, node).dom().contains(other)
                == waiters.dom().contains(other)),
        forall|other: Seq<char>|
            other != id && waiters.dom().contains(other) ==> #[trigger] without_answered(
                waiters,
                node,
            )[other] == waiters[other],
{
}

/// A message that stands in line is not acknowledged before the application has confirmed it,
/// and one that was not taken in is not acknowledged at all.
pub proof fn messages_are_not_acknowledged_early(client: Client, node: Node, cancelled: bool)
    requires
        node.tag@ == "message"@,
        chat_of(node) is Some,
    ensures
        client.ack_due(node, cancelled) == AckStep::AfterCommit || client.ack_due(node, cancelled)
            == AckStep::Never,
        cancelled ==> client.ack_due(node, cancelled) == AckStep::Never,
        !cancelled && wants_ack(node) ==> client.ack_due(node, cancelled) == AckStep::AfterCommit,
{
}

/// An answer to a request goes to the one who waits for it, and to no handler; every other stanza
/// goes to the handler for its tag. Only answers to requests are looked for among those who wait.
pub proof fn stanzas_go_to_one_place(waiters: Map<Seq<char>, u64>, node: Node, step: NodeStep)
    requires
        is_step(waiters, node, step),
    ensures
        ({
            let answers = node.tag@ == "iq"@ && node.attr_text("id"@) is Some
                && waiters.dom().contains(node.attr_text("id"@)->0);
            &&& answers ==> step == NodeStep::Answered(waiters[node.attr_text("id"@)->0])
            &&& answers ==> still_waiting(waiters, node) == waiters.remove(
                node.attr_text("id"@)->0,
            )
            &&& !answers ==> step is Dispatch
            &&& !answers ==> still_waiting(waiters, node) =~= waiters
            &&& step matches NodeStep::Dispatch(Some(handler)) ==> handler.tag() == node.tag@
            &&& step == NodeStep::Dispatch(None) ==> forall|handler: Handler| #[trigger]
                handler.tag() != node.tag@
        }),
{
    if node.tag@ == "iq"@ && node.attr_text("id"@) is Some && !waiters.dom().contains(
        node.attr_text("id"@)->0,
    ) {
        assert(waiters.remove(node.attr_text("id"@)->0) =~= waiters);
    }
}

/// The end of the stream shuts the connection down, and no other stanza does. Nothing else of the
/// link changes with a stanza but what is counted of the stanzas that came while we were away.
pub proof fn stream_ends_with_its_stanza(client: Client, node: Node, now: u64)
    ensures
        node.tag@ == "xmlstreamend"@ ==> client.link_after(node, now).connection_shut_down,
        node.tag@ != "xmlstreamend"@ ==> client.link_after(node, now).connection_shut_down
            == client.link.connection_shut_down,
        client.link_after(node, now) == (Link {
            offline_sync: client.link.offline_sync.after_stanza(node, now),
            connection_shut_down: client.link_after(node, now).connection_shut_down,
            ..client.link
        }),
{
}

/// Of the stanzas that are to be acknowledged, messages in line wait for the application and the
/// others do not, as long as nothing cancels it. What is not to be acknowledged never is.
pub proof fn acknowledgements_are_due_in_time(client: Client, node: Node)
    ensures
        client.ack_due(node, true) == AckStep::Never,
        !wants_ack(node) ==> client.ack_due(node, false) == AckStep::Never,
        wants_ack(node) && (node.tag@ != "message"@ || node.attr_jid("from"@) is None)
            ==> client.ack_due(node, false) == (AckStep::Now {
            synchronous: client.options.synchronous_ack,
        }),
        wants_ack(node) && node.tag@ == "message"@ && node.attr_jid("from"@) is Some
            ==> client.ack_due(node, false) == AckStep::AfterCommit,
{
}

/// A new client is not connected, has chosen nothing, and nobody waits for anything; it keeps one
/// lock and one line at least.
pub proof fn clients_start_with_nothing(client: Client, account: Account, config: CacheConfig)
    requires
        is_fresh(client, account, config),
    ensures
        client.account == account,
        !client.options.skip_history_sync,
        !client.options.raw_node_forwarding,
        !client.options.synchronous_ack,
        client.options.session_locks_capacity >= 1,
        config.session_locks_capacity >= 1 ==> client.options.session_locks_capacity
            == config.session_locks_capacity,
        config.session_locks_capacity == 0 ==> client.options.session_locks_capacity == 1,
        config.chat_lanes_capacity >= 1 ==> client.lanes.limit() == config.chat_lanes_capacity,
        config.chat_lanes_capacity == 0 ==> client.lanes.limit() == 1,
        client.lanes@.len() == 0,
        client.node_waiters.list@.len() == 0 && client.node_waiters.next_id == 0,
        client.sent_node_waiters.list@.len() == 0 && client.sent_node_waiters.next_id == 0,
        forall|id: Seq<char>| !(#[trigger] client.response_waiters@.dom().contains(id)),
        forall|key: Seq<char>| !(#[trigger] client.key_requests@.dom().contains(key)),
        forall|name: PatchName| !(#[trigger] client.syncing@.contains(name)),
        !client.sync.needs_initial_full_sync && !client.sync.initial_keys_received,
        client.next_response == 0 && client.id_counter == 0,
        !client.link.is_connected && !client.link.is_logged_in && !client.link.shut_down,
        client.inbound.accepting,
        client.inbound.retry_counts.lifetime() == config.retry_counts_lifetime_ms,
        client.inbound.reported.lifetime() == config.reported_lifetime_ms,
        SYNC_QUEUE_CAPACITY == 32,
{
    assert(client.inbound.accepting == client.inbound.flow().accepting);
}

} // verus!
