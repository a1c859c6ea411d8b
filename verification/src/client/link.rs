//! The connection: when it is made, kept, dropped and made again.

use vstd::prelude::*;
use crate::client::error::ClientError;
use crate::flush_scope::FlushScope;

verus! {

/// How far the stanzas from offline time have come in.
#[derive(Clone, Copy, Debug, PartialEq, Eq, Structural)]
pub struct OfflineSyncMetrics {
    pub active: bool,
    pub total_messages: usize,
    pub processed_messages: usize,
    /// When the sync began, in milliseconds.
    pub start_time: Option<u64>,
}

/// What is known of the connection.
#[derive(Clone, Copy, Debug, PartialEq, Eq, Structural)]
pub struct Link {
    pub is_logged_in: bool,
    pub is_connecting: bool,
    pub is_running: bool,
    pub is_connected: bool,
    /// The synced state is complete enough for the application to start.
    pub is_ready: bool,
    /// The end of the connection will be no surprise, and calls for no wait.
    pub expected_disconnect: bool,
    /// The end of the connection will be no surprise, but the usual wait applies.
    pub intentional_reconnect: bool,
    pub enable_auto_reconnect: bool,
    pub auto_reconnect_errors: u32,
    /// The client is shut down for good.
    pub shut_down: bool,
    /// The tasks of the present connection were told to end.
    pub connection_shut_down: bool,
    /// Counts the connections, so that tasks of a past one can tell.
    pub connection_generation: u64,
    /// How many messages may be decrypted at once.
    pub message_permits: usize,
    /// Counts the changes of that number.
    pub permit_generation: u64,
    pub last_data_received_ms: u64,
    pub last_data_sent_ms: u64,
    pub offline_sync_completed: bool,
    pub history_sync_tasks: usize,
    pub offline_sync: OfflineSyncMetrics,
    /// Stanzas under way.
    pub outbound_flush: FlushScope,
}

/// What an attempt to reconnect waits for by default: so many steps of the backoff.
pub const RECONNECT_BACKOFF_STEP: u32 = 4;

/// How long version and transport may take to come, in milliseconds.
pub const TRANSPORT_CONNECT_TIMEOUT_MS: u64 = 20_000;

/// How long a disconnect waits for stanzas under way, in milliseconds.
pub const DISCONNECT_FLUSH_MS: u64 = 5_000;

/// How long a reconnect waits for stanzas under way, in milliseconds.
pub const RECONNECT_FLUSH_MS: u64 = 2_000;

pub open spec fn no_offline_sync() -> OfflineSyncMetrics {
    OfflineSyncMetrics { active: false, total_messages: 0, processed_messages: 0, start_time: None }
}

/// The connection of a client that was just made.
pub open spec fn initial_link() -> Link {
    Link {
        is_logged_in: false,
        is_connecting: false,
        is_running: false,
        is_connected: false,
        is_ready: false,
        expected_disconnect: false,
        intentional_reconnect: false,
        enable_auto_reconnect: true,
        auto_reconnect_errors: 0,
        shut_down: false,
        connection_shut_down: false,
        connection_generation: 0,
        message_permits: 1,
        permit_generation: 0,
        last_data_received_ms: 0,
        last_data_sent_ms: 0,
        offline_sync_completed: false,
        history_sync_tasks: 0,
        offline_sync: no_offline_sync(),
        outbound_flush: FlushScope { count: 0, closed: false },
    }
}

/// What the loop that keeps the client connected does next.
#[derive(Clone, Copy, Debug, PartialEq, Eq, Structural)]
pub enum LoopStep {
    /// Connect, and read stanzas for as long as the connection lasts.
    Connect,
    /// Go on at once.
    Again,
    /// Wait, as long as the backoff says after so many failed attempts, and go on.
    Wait(u32),
    /// The loop ends.
    Exit,
}

impl Link {
    pub fn new() -> (r: Link)
        ensures
            r == initial_link(),
    {
        Link {
            is_logged_in: false,
            is_connecting: false,
            is_running: false,
            is_connected: false,
            is_ready: false,
            expected_disconnect: false,
            intentional_reconnect: false,
            enable_auto_reconnect: true,
            auto_reconnect_errors: 0,
            shut_down: false,
            connection_shut_down: false,
            connection_generation: 0,
            message_permits: 1,
            permit_generation: 0,
            last_data_received_ms: 0,
            last_data_sent_ms: 0,
            offline_sync_completed: false,
            history_sync_tasks: 0,
            offline_sync: OfflineSyncMetrics {
                active: false,
                total_messages: 0,
                processed_messages: 0,
                start_time: None,
            },
            outbound_flush: FlushScope::new(),
        }
    }

    pub open spec fn shutting_down(self) -> bool {
        self.expected_disconnect || !self.is_running
    }

    /// Whether the connection is about to end, or none is to be made.
    pub fn is_shutting_down(&self) -> (r: bool)
        ensures
            r == self.shutting_down(),
    {
        self.expected_disconnect || !self.is_running
    }

    pub open spec fn fully_ready(self) -> bool {
        self.is_connected && self.is_logged_in && self.is_ready
    }

    /// Whether the client is connected, logged in, and in possession of the synced state that
    /// the application needs.
    pub fn is_fully_ready(&self) -> (r: bool)
        ensures
            r == self.fully_ready(),
    {
        self.is_connected && self.is_logged_in && self.is_ready
    }

    /// The client is ready: the application is told, and those who wait for it are woken.
    pub fn dispatch_connected(&mut self)
        ensures
            *final(self) == (Link { is_ready: true, ..*old(self) }),
    {
        self.is_ready = true;
    }

    /// Tells the tasks of the present connection to end.
    pub fn notify_connection_shutdown(&mut self)
        ensures
            *final(self) == (Link { connection_shut_down: true, ..*old(self) }),
    {
        self.connection_shut_down = true;
    }

    pub open spec fn with_permits(self, permits: usize) -> Link {
        Link {
            message_permits: permits,
            permit_generation: self.permit_generation.wrapping_add(1),
            ..self
        }
    }

    /// Changes how many messages may be decrypted at once. Permits that were given out before
    /// are of a past generation from now on.
    pub fn swap_message_semaphore(&mut self, permits: usize)
        ensures
            *final(self) == old(self).with_permits(permits),
    {
        self.message_permits = permits;
        self.permit_generation = self.permit_generation.wrapping_add(1);
    }

    /// The link after data came at a given time.
    pub open spec fn heard_at(self, now: i64) -> Link {
        Link {
            last_data_received_ms: if now > 0 {
                now as u64
            } else {
                0
            },
            ..self
        }
    }

    /// Notes that data came, at a given time in milliseconds.
    pub fn data_received(&mut self, now: i64)
        ensures
            *final(self) == old(self).heard_at(now),
    {
        self.last_data_received_ms = if now > 0 {
            now as u64
        } else {
            0
        };
    }

    /// Notes that data was sent, at a given time in milliseconds.
    pub fn data_sent(&mut self, now: i64)
        ensures
            *final(self) == (Link {
                last_data_sent_ms: if now > 0 {
                    now as u64
                } else {
                    0
                },
                ..*old(self)
            }),
    {
        self.last_data_sent_ms = if now > 0 {
            now as u64
        } else {
            0
        };
    }

    /// Starts the loop that keeps the client connected. Tells whether it was not running.
    pub fn start_running(&mut self) -> (r: bool)
        ensures
            r == !old(self).is_running,
            *final(self) == (Link { is_running: true, ..*old(self) }),
    {
        let fresh = !self.is_running;
        self.is_running = true;
        fresh
    }

    /// What the loop does first in a round.
    pub open spec fn round_begun(self) -> (Link, LoopStep) {
        if self.is_running {
            (Link { expected_disconnect: false, ..self }, LoopStep::Connect)
        } else {
            (self, LoopStep::Exit)
        }
    }

    /// Begins a round of the loop.
    pub fn begin_round(&mut self) -> (r: LoopStep)
        ensures
            (*final(self), r) == old(self).round_begun(),
    {
        if !self.is_running {
            return LoopStep::Exit;
        }
        self.expected_disconnect = false;
        LoopStep::Connect
    }

    /// Takes in that the stanzas of a connection have come to an end, by an error or not. Tells
    /// whether that is a surprise: the application is told of it once the connection is
    /// cleaned up.
    pub fn stanzas_ended(&mut self, failed: bool) -> (r: bool)
        ensures
            r == (failed && !old(self).expected_disconnect && !old(self).intentional_reconnect),
            *final(self) == (if failed && !old(self).expected_disconnect {
                Link { intentional_reconnect: false, ..*old(self) }
            } else {
                *old(self)
            }),
    {
        if !failed || self.expected_disconnect {
            return false;
        }
        let intended = self.intentional_reconnect;
        self.intentional_reconnect = false;
        !intended
    }

    /// What the loop does after a connection has ended or could not be made.
    pub open spec fn next_round(self) -> (Link, LoopStep) {
        if !self.enable_auto_reconnect {
            (Link { is_running: false, ..self }, LoopStep::Exit)
        } else if self.expected_disconnect {
            (Link { auto_reconnect_errors: 0, ..self }, LoopStep::Again)
        } else {
            (
                Link { auto_reconnect_errors: self.auto_reconnect_errors.wrapping_add(1), ..self },
                LoopStep::Wait(self.auto_reconnect_errors),
            )
        }
    }

    /// Ends a round of the loop.
    pub fn end_round(&mut self) -> (r: LoopStep)
        ensures
            (*final(self), r) == old(self).next_round(),
    {
        if !self.enable_auto_reconnect {
            self.is_running = false;
            return LoopStep::Exit;
        }
        if self.expected_disconnect {
            self.auto_reconnect_errors = 0;
            return LoopStep::Again;
        }
        let errors: u32 = self.auto_reconnect_errors;
        self.auto_reconnect_errors = errors.wrapping_add(1);
        LoopStep::Wait(errors)
    }

    /// The link at the start of an attempt to connect.
    pub open spec fn connecting(self) -> Link {
        Link {
            is_connecting: true,
            is_logged_in: false,
            is_ready: false,
            is_connected: false,
            offline_sync_completed: false,
            outbound_flush: FlushScope { closed: false, ..self.outbound_flush },
            ..self
        }
    }

    /// Begins to connect, unless the client is connected or about to be.
    pub fn begin_connect(&mut self) -> (r: Result<(), ClientError>)
        ensures
            r is Ok <==> !old(self).is_connecting && !old(self).is_connected,
            r is Err ==> r == Err::<(), ClientError>(ClientError::AlreadyConnected),
            *final(self) == (if r is Ok {
                old(self).connecting()
            } else {
                *old(self)
            }),
    {
        if self.is_connecting {
            return Err(ClientError::AlreadyConnected);
        }
        if self.is_connected {
            return Err(ClientError::AlreadyConnected);
        }
        self.is_connecting = true;
        self.is_logged_in = false;
        self.is_ready = false;
        self.offline_sync_completed = false;
        self.outbound_flush.reopen();
        Ok(())
    }

    /// Ends an attempt to connect. After a success the tasks of the new connection may run.
    pub fn finish_connect(&mut self, established: bool)
        ensures
            *final(self) == (if established {
                Link {
                    is_connecting: false,
                    is_connected: true,
                    connection_shut_down: false,
                    ..*old(self)
                }
            } else {
                Link { is_connecting: false, ..*old(self) }
            }),
    {
        self.is_connecting = false;
        if established {
            self.connection_shut_down = false;
            self.is_connected = true;
        }
    }

    /// The link at the start of a disconnect.
    pub open spec fn disconnecting(self) -> Link {
        Link {
            expected_disconnect: true,
            is_running: false,
            shut_down: true,
            outbound_flush: FlushScope { closed: true, ..self.outbound_flush },
            ..self
        }
    }

    /// Begins to disconnect for good. The stanzas under way are to be flushed next.
    pub fn begin_disconnect(&mut self)
        ensures
            *final(self) == old(self).disconnecting(),
    {
        self.expected_disconnect = true;
        self.is_running = false;
        self.shut_down = true;
        self.outbound_flush.close();
    }

    /// The link at the start of a reconnect with a wait.
    pub open spec fn reconnecting(self) -> Link {
        Link {
            intentional_reconnect: true,
            auto_reconnect_errors: RECONNECT_BACKOFF_STEP,
            outbound_flush: FlushScope { closed: true, ..self.outbound_flush },
            ..self
        }
    }

    /// The link at the start of a reconnect without a wait.
    pub open spec fn reconnecting_at_once(self) -> Link {
        Link {
            expected_disconnect: true,
            outbound_flush: FlushScope { closed: true, ..self.outbound_flush },
            ..self
        }
    }

    /// Begins to drop the connection so that the loop makes a new one after a wait. The stanzas
    /// under way are to be flushed next, then the transport closed.
    pub fn reconnect(&mut self)
        ensures
            *final(self) == old(self).reconnecting(),
    {
        self.intentional_reconnect = true;
        self.auto_reconnect_errors = RECONNECT_BACKOFF_STEP;
        self.outbound_flush.close();
    }

    /// Begins to drop the connection so that the loop makes a new one at once.
    pub fn reconnect_immediately(&mut self)
        ensures
            *final(self) == old(self).reconnecting_at_once(),
    {
        self.expected_disconnect = true;
        self.outbound_flush.close();
    }

    /// The link after a connection: nothing of it is left.
    pub open spec fn cleaned(self) -> Link {
        Link {
            is_logged_in: false,
            is_ready: false,
            is_connected: false,
            connection_shut_down: true,
            message_permits: 1,
            permit_generation: self.permit_generation.wrapping_add(1),
            last_data_received_ms: 0,
            last_data_sent_ms: 0,
            offline_sync_completed: false,
            offline_sync: no_offline_sync(),
            history_sync_tasks: 0,
            ..self
        }
    }

    /// Forgets what belongs to the connection that has ended.
    pub fn clean_up(&mut self)
        ensures
            *final(self) == old(self).cleaned(),
    {
        self.is_logged_in = false;
        self.is_ready = false;
        self.notify_connection_shutdown();
        self.is_connected = false;
        self.swap_message_semaphore(1);
        self.last_data_received_ms = 0;
        self.last_data_sent_ms = 0;
        self.offline_sync_completed = false;
        self.offline_sync = OfflineSyncMetrics {
            active: false,
            total_messages: 0,
            processed_messages: 0,
            start_time: None,
        };
        self.history_sync_tasks = 0;
    }

    /// Whether a task that was started on a given connection has outlived it.
    pub fn is_stale(&self, generation: u64) -> (r: bool)
        ensures
            r == (self.connection_generation != generation),
    {
        self.connection_generation != generation
    }
}

/// Why a connection could not be made.
#[derive(Clone, Copy, Debug, PartialEq, Eq, Structural)]
pub enum ConnectError {
    VersionTimedOut,
    VersionFailed,
    TransportTimedOut,
    TransportFailed,
    /// The transport is to be closed.
    HandshakeFailed,
}

/// What came of one part of an attempt to connect.
#[derive(Clone, Copy, Debug, PartialEq, Eq, Structural)]
pub enum PartResult {
    Ready,
    Failed,
    TimedOut,
}

/// Judges the parts that are done side by side. The version is looked at first.
pub fn judge_connect(version: PartResult, transport: PartResult) -> (r: Result<(), ConnectError>)
    ensures
        r == (match (version, transport) {
            (PartResult::TimedOut, _) => Err(ConnectError::VersionTimedOut),
            (PartResult::Failed, _) => Err(ConnectError::VersionFailed),
            (PartResult::Ready, PartResult::TimedOut) => Err(ConnectError::TransportTimedOut),
            (PartResult::Ready, PartResult::Failed) => Err(ConnectError::TransportFailed),
            (PartResult::Ready, PartResult::Ready) => Ok(()),
        }),
{
    match version {
        PartResult::TimedOut => Err(ConnectError::VersionTimedOut),
        PartResult::Failed => Err(ConnectError::VersionFailed),
        PartResult::Ready => match transport {
            PartResult::TimedOut => Err(ConnectError::TransportTimedOut),
            PartResult::Failed => Err(ConnectError::TransportFailed),
            PartResult::Ready => Ok(()),
        },
    }
}

/// Why the account could not be logged out for sure.
#[derive(Clone, Copy, Debug, PartialEq, Eq, Structural)]
pub enum LogoutError {
    /// Without a connection there is no confirmation.
    NotConnected,
    /// The account's own address is not known.
    NoIdentity,
    /// The server refused, or did not answer in time.
    NotConfirmed,
}

/// A confirmed logout under way.
#[derive(Clone, Copy, Debug, PartialEq, Eq, Structural)]
pub struct StrictLogout {
    /// Whether the client was set to reconnect before.
    pub reconnect_was_enabled: bool,
}

impl Link {
    /// The link while the server is asked to remove this device.
    pub open spec fn logging_out(self) -> Link {
        Link { enable_auto_reconnect: false, ..self }
    }

    /// The link after the server was asked to remove this device.
    pub open spec fn logout_answered(self, logout: StrictLogout, confirmed: bool) -> Link {
        if confirmed {
            self
        } else {
            Link { enable_auto_reconnect: logout.reconnect_was_enabled, ..self }
        }
    }

    /// Begins a logout: the client will not reconnect. Tells whether the server can be asked to
    /// remove this device; either way a disconnect follows.
    pub fn begin_logout(&mut self, identity_known: bool) -> (r: bool)
        ensures
            r == (old(self).is_connected && identity_known),
            *final(self) == old(self).logging_out(),
    {
        self.enable_auto_reconnect = false;
        self.is_connected && identity_known
    }

    /// Begins a logout that counts only if the server confirms it. Where the server cannot be
    /// asked, everything stays as it was.
    pub fn begin_strict_logout(&mut self, identity_known: bool) -> (r: Result<
        StrictLogout,
        LogoutError,
    >)
        ensures
            match r {
                Ok(logout) => old(self).is_connected && identity_known
                    && logout.reconnect_was_enabled == old(self).enable_auto_reconnect
                    && *final(self) == old(self).logging_out(),
                Err(LogoutError::NotConnected) => !old(self).is_connected && *final(self) == *old(
                    self,
                ),
                Err(LogoutError::NoIdentity) => old(self).is_connected && !identity_known
                    && *final(self) == *old(self),
                Err(LogoutError::NotConfirmed) => false,
            },
    {
        if !self.is_connected {
            return Err(LogoutError::NotConnected);
        }
        if !identity_known {
            return Err(LogoutError::NoIdentity);
        }
        let reconnect_was_enabled = self.enable_auto_reconnect;
        self.enable_auto_reconnect = false;
        Ok(StrictLogout { reconnect_was_enabled })
    }

    /// Takes in whether the server confirmed a logout. If not, the client may reconnect as
    /// before; if so, a disconnect follows.
    pub fn finish_strict_logout(&mut self, logout: StrictLogout, confirmed: bool) -> (r: Result<
        (),
        LogoutError,
    >)
        ensures
            r == (if confirmed {
                Ok::<(), LogoutError>(())
            } else {
                Err(LogoutError::NotConfirmed)
            }),
            *final(self) == old(self).logout_answered(logout, confirmed),
    {
        if confirmed {
            return Ok(());
        }
        self.enable_auto_reconnect = logout.reconnect_was_enabled;
        Err(LogoutError::NotConfirmed)
    }
}

/// A logout that the server does not confirm leaves no trace: the connection and the readiness
/// to reconnect are as they were, so that it can be tried again.
pub proof fn failed_strict_logout_changes_nothing(link: Link)
    ensures
        link.logging_out().logout_answered(
            StrictLogout { reconnect_was_enabled: link.enable_auto_reconnect },
            false,
        ) == link,
{
}

/// A logout that the server confirms leaves a client that does not reconnect, whatever becomes
/// of the connection.
pub proof fn confirmed_logout_is_final(link: Link, logout: StrictLogout)
    ensures
        link.logging_out().logout_answered(logout, true).cleaned().next_round().1 == LoopStep::Exit,
{
}

/// After a disconnect the loop makes no new connection: neither the round that it is in nor a
/// new one.
pub proof fn disconnect_is_final(link: Link)
    ensures
        link.disconnecting().round_begun().1 == LoopStep::Exit,
        link.disconnecting().cleaned().next_round().0.round_begun().1 == LoopStep::Exit,
        link.disconnecting().cleaned().shutting_down(),
{
}

/// A disconnect and a reconnect let the stanzas under way go out first: no more are let in, those
/// under way are counted on, and the tasks of the connection are not told to end yet.
pub proof fn stanzas_are_flushed_first(link: Link)
    ensures
        forall|next: Link|
            next == link.disconnecting() || next == link.reconnecting() || next
                == link.reconnecting_at_once() ==> {
                &&& (#[trigger] next.outbound_flush).closed
                &&& next.outbound_flush.count == link.outbound_flush.count
                &&& next.connection_shut_down == link.connection_shut_down
                &&& next.is_connected == link.is_connected
            },
{
}

/// A reconnect without a wait is one: the loop goes on at once, and past failures are
/// forgotten.
pub proof fn immediate_reconnect_costs_no_wait(link: Link)
    requires
        link.enable_auto_reconnect,
    ensures
        link.reconnecting_at_once().cleaned().next_round().1 == LoopStep::Again,
        link.reconnecting_at_once().cleaned().next_round().0.auto_reconnect_errors == 0,
{
}

/// A reconnect that the application asks for waits as long as the backoff says after a fixed
/// number of failures.
pub proof fn reconnect_waits_fixed_step(link: Link)
    requires
        link.enable_auto_reconnect,
        !link.expected_disconnect,
    ensures
        link.reconnecting().cleaned().next_round().1 == LoopStep::Wait(RECONNECT_BACKOFF_STEP),
{
}

/// Cleaning up twice is the same as once, but for the count of permit changes.
pub proof fn cleanup_is_idempotent(link: Link)
    ensures
        link.cleaned().cleaned() == (Link {
            permit_generation: link.cleaned().permit_generation.wrapping_add(1),
            ..link.cleaned()
        }),
{
}

/// Nothing that belongs to a connection survives it: neither login nor readiness nor progress.
pub proof fn cleaned_link_is_offline(link: Link)
    ensures
        !link.cleaned().fully_ready(),
        !link.cleaned().is_connected,
        !link.cleaned().is_logged_in,
        link.cleaned().offline_sync == no_offline_sync(),
        link.cleaned().enable_auto_reconnect == link.enable_auto_reconnect,
        link.cleaned().expected_disconnect == link.expected_disconnect,
        link.cleaned().permit_generation != link.permit_generation,
{
}

/// The link after a number of connections that ended unexpectedly one after the other, each
/// cleaned up and followed by a new round.
pub open spec fn after_failures(link: Link, rounds: nat) -> Link
    decreases rounds,
{
    if rounds == 0 {
        link
    } else {
        after_failures(link, (rounds - 1) as nat).cleaned().next_round().0.round_begun().0
    }
}

/// Each failure makes the next wait one step of the backoff longer: after some unexpected ends in
/// a row the client still reconnects, and waits as long as after the failures before and those
/// together.
pub proof fn waits_grow_with_failures(link: Link, rounds: nat)
    requires
        link.is_running,
        link.enable_auto_reconnect,
        !link.expected_disconnect,
        link.auto_reconnect_errors + rounds <= u32::MAX,
    ensures
        ({
            let now = after_failures(link, rounds);
            &&& now.auto_reconnect_errors == link.auto_reconnect_errors + rounds
            &&& now.cleaned().next_round().1 == LoopStep::Wait(
                (link.auto_reconnect_errors + rounds) as u32,
            )
            &&& now.cleaned().next_round().0.round_begun().1 == LoopStep::Connect
            &&& now.is_running && now.enable_auto_reconnect && !now.expected_disconnect
        }),
    decreases rounds,
{
    if rounds > 0 {
        waits_grow_with_failures(link, (rounds - 1) as nat);
    }
}

/// What the loop does depends on three things alone, and it changes nothing but whether it runs
/// and how many failures there were: it ends where the client is not to reconnect, goes on at once
/// after an end that was expected, and otherwise waits.
pub proof fn rounds_end_in_three_ways(link: Link)
    ensures
        !link.enable_auto_reconnect ==> link.next_round() == (
            Link { is_running: false, ..link },
            LoopStep::Exit,
        ),
        link.enable_auto_reconnect && link.expected_disconnect ==> link.next_round() == (
            Link { auto_reconnect_errors: 0, ..link },
            LoopStep::Again,
        ),
        link.enable_auto_reconnect && !link.expected_disconnect ==> {
            &&& link.next_round().1 == LoopStep::Wait(link.auto_reconnect_errors)
            &&& link.auto_reconnect_errors < u32::MAX
                ==> link.next_round().0.auto_reconnect_errors == link.auto_reconnect_errors + 1
            &&& link.next_round().0 == (Link {
                auto_reconnect_errors: link.next_round().0.auto_reconnect_errors,
                ..link
            })
        },
        link.is_running ==> link.round_begun() == (
            Link { expected_disconnect: false, ..link },
            LoopStep::Connect,
        ),
        !link.is_running ==> link.round_begun() == (link, LoopStep::Exit),
{
}

/// An attempt to connect starts without anything of the connection before: no login, no readiness
/// and no progress; stanzas may go out again. What the client was set to do stays.
pub proof fn attempts_start_clean(link: Link)
    ensures
        ({
            let next = link.connecting();
            &&& next.is_connecting
            &&& !next.is_logged_in && !next.is_ready && !next.is_connected
            &&& !next.offline_sync_completed
            &&& !next.outbound_flush.closed
            &&& next.outbound_flush.count == link.outbound_flush.count
            &&& next == (Link {
                is_connecting: next.is_connecting,
                is_logged_in: next.is_logged_in,
                is_ready: next.is_ready,
                is_connected: next.is_connected,
                offline_sync_completed: next.offline_sync_completed,
                outbound_flush: next.outbound_flush,
                ..link
            })
        }),
{
}

/// A disconnect stops the loop and shuts the client down; the end of the connection is expected.
/// Neither kind of reconnect does either: one waits and is marked as intended, the other goes on
/// at once. Nothing else changes, but that no more stanzas are let in.
pub proof fn endings_differ_in_what_follows(link: Link)
    ensures
        ({
            let gone = link.disconnecting();
            &&& gone.expected_disconnect && !gone.is_running && gone.shut_down
            &&& gone == (Link {
                expected_disconnect: true,
                is_running: false,
                shut_down: true,
                outbound_flush: gone.outbound_flush,
                ..link
            })
        }),
        ({
            let waiting = link.reconnecting();
            &&& waiting.intentional_reconnect && waiting.auto_reconnect_errors == 4
            &&& waiting == (Link {
                intentional_reconnect: true,
                auto_reconnect_errors: 4,
                outbound_flush: waiting.outbound_flush,
                ..link
            })
        }),
        ({
            let soon = link.reconnecting_at_once();
            &&& soon.expected_disconnect
            &&& soon == (Link {
                expected_disconnect: true,
                outbound_flush: soon.outbound_flush,
                ..link
            })
        }),
        link.logging_out() == (Link { enable_auto_reconnect: false, ..link }),
        forall|logout: StrictLogout| #[trigger] link.logout_answered(logout, true) == link,
        forall|logout: StrictLogout| #[trigger]
            link.logout_answered(logout, false) == (Link {
                enable_auto_reconnect: logout.reconnect_was_enabled,
                ..link
            }),
{
}

/// Cleaning up leaves alone what outlives a connection: whether and how the client reconnects,
/// how many failures and connections there were, and the stanzas under way. One message is
/// decrypted at a time afterwards, and every permit given out before is of a past generation.
pub proof fn cleanup_leaves_the_client_alone(link: Link)
    ensures
        ({
            let clean = link.cleaned();
            &&& clean.is_running == link.is_running
            &&& clean.is_connecting == link.is_connecting
            &&& clean.enable_auto_reconnect == link.enable_auto_reconnect
            &&& clean.auto_reconnect_errors == link.auto_reconnect_errors
            &&& clean.expected_disconnect == link.expected_disconnect
            &&& clean.intentional_reconnect == link.intentional_reconnect
            &&& clean.connection_generation == link.connection_generation
            &&& clean.shut_down == link.shut_down
            &&& clean.outbound_flush == link.outbound_flush
            &&& clean.message_permits == 1
            &&& clean.permit_generation == link.permit_generation.wrapping_add(1)
            &&& clean.connection_shut_down
            &&& clean.last_data_received_ms == 0 && clean.last_data_sent_ms == 0
            &&& !clean.offline_sync_completed && clean.history_sync_tasks == 0
            &&& !clean.is_ready
            &&& !clean.offline_sync.active && clean.offline_sync.total_messages == 0
            &&& clean.offline_sync.processed_messages == 0 && clean.offline_sync.start_time is None
        }),
        forall|permits: usize| #[trigger]
            link.with_permits(permits) == (Link {
                message_permits: permits,
                permit_generation: link.permit_generation.wrapping_add(1),
                ..link
            }),
        forall|now: i64|
            now > 0 ==> (#[trigger] link.heard_at(now)) == (Link {
                last_data_received_ms: now as u64,
                ..link
            }),
        forall|now: i64|
            now <= 0 ==> (#[trigger] link.heard_at(now)) == (Link {
                last_data_received_ms: 0,
                ..link
            }),
{
}

/// A client that was just made is set to reconnect, and nothing has happened yet: it is ready for
/// nothing and has nothing to shut down. It is fully ready only when connected, logged in and in
/// possession of its state, and shuts down where it does not run or expects the end.
pub proof fn new_clients_are_idle(link: Link)
    ensures
        ({
            let new = initial_link();
            &&& new.enable_auto_reconnect
            &&& !new.is_running && !new.is_connecting && !new.is_connected && !new.is_logged_in
            &&& !new.is_ready && !new.expected_disconnect && !new.intentional_reconnect
            &&& !new.shut_down && !new.connection_shut_down && !new.offline_sync_completed
            &&& new.auto_reconnect_errors == 0 && new.connection_generation == 0
            &&& new.permit_generation == 0 && new.message_permits == 1
            &&& new.last_data_received_ms == 0 && new.last_data_sent_ms == 0
            &&& new.history_sync_tasks == 0
            &&& new.outbound_flush.count == 0 && !new.outbound_flush.closed
            &&& !new.offline_sync.active && new.offline_sync.total_messages == 0
            &&& new.offline_sync.processed_messages == 0 && new.offline_sync.start_time is None
        }),
        link.fully_ready() <==> link.is_connected && link.is_logged_in && link.is_ready,
        link.shutting_down() <==> link.expected_disconnect || !link.is_running,
{
}

} // verus!
