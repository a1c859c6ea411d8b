//! What follows a successful login.

use vstd::prelude::*;
use crate::client::link::Link;
use crate::jid::{Jid, opt_jid};
use crate::node::Node;

verus! {

/// How long the first keys for the synced state are waited for, in seconds.
pub const INITIAL_KEYS_TIMEOUT_SECS: u64 = 5;

/// How long the most important part of the synced state may take to come, in seconds.
pub const CRITICAL_SYNC_TIMEOUT_SECS: u64 = 180;

/// What becomes of a `<success>` stanza.
pub enum SuccessOutcome {
    /// The connection is about to end anyway.
    Ignored,
    /// The login was taken in before.
    Duplicate,
    /// Logged in: the number of this connection, our LID where the server gave it, and the
    /// server's time where it told it.
    LoggedIn { generation: u64, lid: Option<Jid>, server_time: Option<u64> },
}

/// The server's time that a stanza tells, in seconds since 1970: only a positive number counts.
pub open spec fn told_time(node: Node) -> Option<u64> {
    match node.attr_u64("t"@) {
        Some(t) => if t > 0 {
            Some(t)
        } else {
            None
        },
        None => None,
    }
}

/// The server's time that a stanza tells, in seconds since 1970.
pub fn server_time_of(node: &Node) -> (r: Option<u64>)
    ensures
        r == told_time(*node),
{
    match node.get_u64("t") {
        Some(t) => if t > 0 {
            Some(t)
        } else {
            None
        },
        None => None,
    }
}

impl Link {
    /// The link after a login.
    pub open spec fn logged_in(self) -> Link {
        Link {
            is_logged_in: true,
            connection_generation: self.connection_generation.wrapping_add(1),
            auto_reconnect_errors: 0,
            ..self
        }
    }

    /// Takes in a `<success>` stanza. Only the first one on a connection counts, and none if
    /// the connection is about to end. Tasks of earlier connections are out of date from here
    /// on.
    pub fn handle_success(&mut self, node: &Node) -> (r: SuccessOutcome)
        ensures
            match r {
                SuccessOutcome::Ignored => old(self).expected_disconnect && *final(self) == *old(
                    self,
                ),
                SuccessOutcome::Duplicate => !old(self).expected_disconnect && old(
                    self,
                ).is_logged_in && *final(self) == *old(self),
                SuccessOutcome::LoggedIn { generation, lid, server_time } => {
                    &&& !old(self).expected_disconnect
                    &&& !old(self).is_logged_in
                    &&& *final(self) == old(self).logged_in()
                    &&& generation == final(self).connection_generation
                    &&& match lid {
                        Some(jid) => node.attr_jid("lid"@) == Some(jid@),
                        None => node.attr_jid("lid"@) is None,
                    }
                    &&& server_time == told_time(*node)
                },
            },
    {
        if self.expected_disconnect {
            return SuccessOutcome::Ignored;
        }
        if self.is_logged_in {
            return SuccessOutcome::Duplicate;
        }
        self.is_logged_in = true;
        self.connection_generation = self.connection_generation.wrapping_add(1);
        self.auto_reconnect_errors = 0;
        SuccessOutcome::LoggedIn {
            generation: self.connection_generation,
            lid: node.get_jid("lid"),
            server_time: server_time_of(node),
        }
    }
}

/// Whether the LID that the server gave is news.
pub fn lid_changed(stored: Option<&Jid>, given: Option<&Jid>) -> (r: bool)
    ensures
        r == (given is Some && opt_jid(stored) != opt_jid(given)),
{
    match (stored, given) {
        (_, None) => false,
        (None, Some(_)) => true,
        (Some(old_lid), Some(new_lid)) => !old_lid.same_as(new_lid),
    }
}

/// Which of the steps after a login is under way.
#[derive(Clone, Copy, Debug, PartialEq, Eq, Structural)]
pub enum LoginStage {
    Begin,
    UnifiedSession,
    PrimarySession,
    OwnDevices,
    PreKeys,
    Active,
    OfflineEnd,
    KeysWait,
    CriticalSync,
    /// The flag tells whether this is the first login after pairing.
    Resubscribe(bool),
    Done,
}

/// What is to be done after a login.
#[derive(Clone, Copy, Debug, PartialEq, Eq, Structural)]
pub enum LoginAction {
    SendUnifiedSession,
    /// Make a session with the primary device, so that it can be asked for messages.
    EstablishPrimarySession,
    /// Fetch the list of our own devices.
    SyncOwnDevices,
    UploadPreKeys,
    /// Tell the server that we are ready for stanzas from offline time.
    LeavePassiveMode,
    WaitForOfflineEnd,
    /// Properties, blocklist, privacy settings and key digest, side by side.
    SpawnBackgroundQueries,
    WaitForKeys,
    /// Start the watch over the critical part of the synced state.
    StartCriticalWatch,
    SyncCritical,
    StopCriticalWatch,
    SendPresence,
    ResubscribePresence,
    /// The application is told that the client is ready.
    DispatchConnected,
    /// Sync the rest of the state in the background.
    SpawnRegularSync,
}

/// What the steps depend on, at the time of each.
#[derive(Clone, Copy, Debug, PartialEq, Eq, Structural)]
pub struct LoginFacts {
    /// The number of the present connection.
    pub generation: u64,
    pub is_connected: bool,
    /// The name shown to others is not known yet.
    pub push_name_empty: bool,
    pub needs_initial_full_sync: bool,
    pub initial_keys_received: bool,
    /// The step that was under way went well.
    pub succeeded: bool,
}

/// The steps after a login.
#[derive(Clone, Copy, Debug, PartialEq, Eq, Structural)]
pub struct PostLogin {
    /// The number of the connection that the login was on.
    pub generation: u64,
    /// The name shown to others was not known at the login, and will come with the synced
    /// state.
    pub needs_push_name: bool,
    pub stage: LoginStage,
}

impl PostLogin {
    pub open spec fn at(self, stage: LoginStage) -> PostLogin {
        PostLogin { stage, ..self }
    }

    /// What comes once the stanzas from offline time are in: the first login after pairing
    /// gets the critical part of the synced state before anything else.
    pub open spec fn branch(self, facts: LoginFacts) -> (PostLogin, Seq<LoginAction>) {
        if facts.needs_initial_full_sync || self.needs_push_name {
            if facts.initial_keys_received {
                (
                    self.at(LoginStage::CriticalSync),
                    seq![
                        LoginAction::SpawnBackgroundQueries,
                        LoginAction::StartCriticalWatch,
                        LoginAction::SyncCritical,
                    ],
                )
            } else {
                (
                    self.at(LoginStage::KeysWait),
                    seq![LoginAction::SpawnBackgroundQueries, LoginAction::WaitForKeys],
                )
            }
        } else {
            (
                self.at(LoginStage::Resubscribe(false)),
                if facts.push_name_empty {
                    seq![LoginAction::SpawnBackgroundQueries, LoginAction::ResubscribePresence]
                } else {
                    seq![
                        LoginAction::SpawnBackgroundQueries,
                        LoginAction::SendPresence,
                        LoginAction::ResubscribePresence,
                    ]
                },
            )
        }
    }

    /// What comes after the step under way. A step on a connection that was replaced is the
    /// last one.
    pub open spec fn after(self, facts: LoginFacts) -> (PostLogin, Seq<LoginAction>) {
        let current = facts.generation == self.generation;
        let stop = (self.at(LoginStage::Done), Seq::<LoginAction>::empty());
        match self.stage {
            LoginStage::Begin => if facts.is_connected && current {
                (self.at(LoginStage::UnifiedSession), seq![LoginAction::SendUnifiedSession])
            } else {
                stop
            },
            LoginStage::UnifiedSession => if current {
                (self.at(LoginStage::PrimarySession), seq![LoginAction::EstablishPrimarySession])
            } else {
                stop
            },
            LoginStage::PrimarySession => if current {
                (self.at(LoginStage::OwnDevices), seq![LoginAction::SyncOwnDevices])
            } else {
                stop
            },
            LoginStage::OwnDevices => if current && facts.is_connected {
                (self.at(LoginStage::PreKeys), seq![LoginAction::UploadPreKeys])
            } else {
                stop
            },
            LoginStage::PreKeys => if current && facts.is_connected {
                (self.at(LoginStage::Active), seq![LoginAction::LeavePassiveMode])
            } else {
                stop
            },
            LoginStage::Active => (
                self.at(LoginStage::OfflineEnd),
                seq![LoginAction::WaitForOfflineEnd],
            ),
            LoginStage::OfflineEnd => if current && facts.is_connected {
                self.branch(facts)
            } else {
                stop
            },
            LoginStage::KeysWait => if current {
                (
                    self.at(LoginStage::CriticalSync),
                    seq![LoginAction::StartCriticalWatch, LoginAction::SyncCritical],
                )
            } else {
                stop
            },
            LoginStage::CriticalSync => if !facts.succeeded {
                stop
            } else if current {
                (
                    self.at(LoginStage::Resubscribe(true)),
                    seq![LoginAction::StopCriticalWatch, LoginAction::ResubscribePresence],
                )
            } else {
                (self.at(LoginStage::Done), seq![LoginAction::StopCriticalWatch])
            },
            LoginStage::Resubscribe(fresh) => if !current {
                stop
            } else if fresh {
                (
                    self.at(LoginStage::Done),
                    seq![LoginAction::DispatchConnected, LoginAction::SpawnRegularSync],
                )
            } else {
                (self.at(LoginStage::Done), seq![LoginAction::DispatchConnected])
            },
            LoginStage::Done => stop,
        }
    }

    /// What a run of facts makes of the steps, and all that is to be done on the way.
    pub open spec fn run(self, facts: Seq<LoginFacts>) -> (PostLogin, Seq<LoginAction>)
        decreases facts.len(),
    {
        if facts.len() == 0 {
            (self, Seq::empty())
        } else {
            let (before, done) = self.run(facts.drop_last());
            let (next, actions) = before.after(facts.last());
            (next, done + actions)
        }
    }

    /// The steps after a login on a given connection.
    pub fn new(generation: u64, push_name_empty: bool) -> (r: PostLogin)
        ensures
            r == (PostLogin {
                generation,
                needs_push_name: push_name_empty,
                stage: LoginStage::Begin,
            }),
    {
        PostLogin { generation, needs_push_name: push_name_empty, stage: LoginStage::Begin }
    }

    fn enter_branch(&mut self, facts: LoginFacts) -> (r: Vec<LoginAction>)
        ensures
            (*final(self), r@) == old(self).branch(facts),
    {
        let mut actions: Vec<LoginAction> = Vec::new();
        actions.push(LoginAction::SpawnBackgroundQueries);
        if facts.needs_initial_full_sync || self.needs_push_name {
            if facts.initial_keys_received {
                self.stage = LoginStage::CriticalSync;
                actions.push(LoginAction::StartCriticalWatch);
                actions.push(LoginAction::SyncCritical);
            } else {
                self.stage = LoginStage::KeysWait;
                actions.push(LoginAction::WaitForKeys);
            }
        } else {
            self.stage = LoginStage::Resubscribe(false);
            if !facts.push_name_empty {
                actions.push(LoginAction::SendPresence);
            }
            actions.push(LoginAction::ResubscribePresence);
        }
        assert(actions@ =~= old(self).branch(facts).1);
        actions
    }

    /// Takes in that the step under way has ended, and says what to do next.
    pub fn step(&mut self, facts: LoginFacts) -> (r: Vec<LoginAction>)
        ensures
            (*final(self), r@) == old(self).after(facts),
    {
        let current = facts.generation == self.generation;
        let mut actions: Vec<LoginAction> = Vec::new();
        match self.stage {
            LoginStage::Begin => {
                if facts.is_connected && current {
                    self.stage = LoginStage::UnifiedSession;
                    actions.push(LoginAction::SendUnifiedSession);
                } else {
                    self.stage = LoginStage::Done;
                }
            },
            LoginStage::UnifiedSession => {
                if current {
                    self.stage = LoginStage::PrimarySession;
                    actions.push(LoginAction::EstablishPrimarySession);
                } else {
                    self.stage = LoginStage::Done;
                }
            },
            LoginStage::PrimarySession => {
                if current {
                    self.stage = LoginStage::OwnDevices;
                    actions.push(LoginAction::SyncOwnDevices);
                } else {
                    self.stage = LoginStage::Done;
                }
            },
            LoginStage::OwnDevices => {
                if current && facts.is_connected {
                    self.stage = LoginStage::PreKeys;
                    actions.push(LoginAction::UploadPreKeys);
                } else {
                    self.stage = LoginStage::Done;
                }
            },
            LoginStage::PreKeys => {
                if current && facts.is_connected {
                    self.stage = LoginStage::Active;
                    actions.push(LoginAction::LeavePassiveMode);
                } else {
                    self.stage = LoginStage::Done;
                }
            },
            LoginStage::Active => {
                self.stage = LoginStage::OfflineEnd;
                actions.push(LoginAction::WaitForOfflineEnd);
            },
            LoginStage::OfflineEnd => {
                if current && facts.is_connected {
                    return self.enter_branch(facts);
                }
                self.stage = LoginStage::Done;
            },
            LoginStage::KeysWait => {
                if current {
                    self.stage = LoginStage::CriticalSync;
                    actions.push(LoginAction::StartCriticalWatch);
                    actions.push(LoginAction::SyncCritical);
                } else {
                    self.stage = LoginStage::Done;
                }
            },
            LoginStage::CriticalSync => {
                if facts.succeeded {
                    actions.push(LoginAction::StopCriticalWatch);
                    if current {
                        self.stage = LoginStage::Resubscribe(true);
                        actions.push(LoginAction::ResubscribePresence);
                    } else {
                        self.stage = LoginStage::Done;
                    }
                } else {
                    self.stage = LoginStage::Done;
                }
            },
            LoginStage::Resubscribe(fresh) => {
                self.stage = LoginStage::Done;
                if current {
                    actions.push(LoginAction::DispatchConnected);
                    if fresh {
                        actions.push(LoginAction::SpawnRegularSync);
                    }
                }
            },
            LoginStage::Done => {},
        }
        assert(actions@ =~= old(self).after(facts).1);
        actions
    }
}

/// What the watch over the critical part of the synced state does when its time is up: the
/// client reconnects if the name shown to others has still not come, unless the connection was
/// replaced meanwhile.
pub fn critical_watch_fires(watched: u64, current: u64, push_name_empty: bool) -> (r: bool)
    ensures
        r == (watched == current && push_name_empty),
{
    watched == current && push_name_empty
}

/// Whether queries in the background are still wanted.
pub fn background_queries_wanted(started: u64, current: u64, is_connected: bool) -> (r: bool)
    ensures
        r == (started == current && is_connected),
{
    started == current && is_connected
}

/// Whether the rest of the state is still to be synced in the background.
pub fn regular_sync_wanted(started: u64, current: u64) -> (r: bool)
    ensures
        r == (started == current),
{
    started == current
}

/// The rest of the state was synced in the background. Whether that worked or not, the initial
/// sync is over.
pub fn regular_sync_ended(needs_initial_full_sync: &mut bool)
    ensures
        !*final(needs_initial_full_sync),
{
    *needs_initial_full_sync = false;
}

/// A login outdates the tasks of every connection before it, and forgets past failures.
pub proof fn login_outdates_earlier_tasks(link: Link)
    ensures
        link.logged_in().is_logged_in,
        link.logged_in().connection_generation != link.connection_generation,
        link.logged_in().auto_reconnect_errors == 0,
{
}

/// How many steps can still follow.
pub open spec fn stages_left(stage: LoginStage) -> nat {
    match stage {
        LoginStage::Begin => 10,
        LoginStage::UnifiedSession => 9,
        LoginStage::PrimarySession => 8,
        LoginStage::OwnDevices => 7,
        LoginStage::PreKeys => 6,
        LoginStage::Active => 5,
        LoginStage::OfflineEnd => 4,
        LoginStage::KeysWait => 3,
        LoginStage::CriticalSync => 2,
        LoginStage::Resubscribe(_) => 1,
        LoginStage::Done => 0,
    }
}

/// The steps after a login come to an end.
pub proof fn login_steps_end(login: PostLogin, facts: LoginFacts)
    requires
        login.stage != LoginStage::Done,
    ensures
        stages_left(login.after(facts).0.stage) < stages_left(login.stage),
{
}

/// What belongs to a connection that was replaced does nothing more: beyond waiting for the end
/// of the offline stanzas and taking back the watch that it set, it has no effect.
pub proof fn stale_login_does_nothing(login: PostLogin, facts: LoginFacts)
    requires
        facts.generation != login.generation,
    ensures
        ({
            let (next, actions) = login.after(facts);
            &&& next.stage == LoginStage::Done || next.stage == LoginStage::OfflineEnd
            &&& forall|i: int|
                0 <= i < actions.len() ==> #[trigger] actions[i] == LoginAction::WaitForOfflineEnd
                    || actions[i] == LoginAction::StopCriticalWatch
        }),
{
}

/// How often the application is told that the client is ready.
pub open spec fn connected_count(actions: Seq<LoginAction>) -> nat {
    actions.filter(|a: LoginAction| a == LoginAction::DispatchConnected).len()
}

proof fn connected_count_splits(a: Seq<LoginAction>, b: Seq<LoginAction>)
    ensures
        connected_count(a + b) == connected_count(a) + connected_count(b),
    decreases b.len(),
{
    reveal(Seq::filter);
    if b.len() == 0 {
        assert(a + b =~= a);
    } else {
        assert((a + b).drop_last() =~= a + b.drop_last());
        connected_count_splits(a, b.drop_last());
    }
}

proof fn step_dispatches(login: PostLogin, facts: LoginFacts)
    ensures
        connected_count(login.after(facts).1) <= 1,
        connected_count(login.after(facts).1) == 1 ==> login.stage is Resubscribe && login.after(
            facts,
        ).0.stage == LoginStage::Done,
        login.stage == LoginStage::Done ==> connected_count(login.after(facts).1) == 0,
        login.after(facts).0.stage is Resubscribe ==> !(login.stage is Resubscribe),
{
    reveal_with_fuel(Seq::filter, 5);
    let actions = login.after(facts).1;
    let p = |a: LoginAction| a == LoginAction::DispatchConnected;
    assert(actions.len() <= 3);
    if actions.len() >= 1 {
        assert(actions.drop_last().len() == actions.len() - 1);
        if actions.len() >= 2 {
            assert(actions.drop_last().drop_last().len() == actions.len() - 2);
        }
    }
}

/// A login tells the application at most once that the client is ready, whatever happens on the
/// way.
pub proof fn connected_at_most_once(login: PostLogin, facts: Seq<LoginFacts>)
    requires
        login.stage == LoginStage::Begin,
    ensures
        connected_count(login.run(facts).1) <= 1,
        connected_count(login.run(facts).1) == 1 ==> login.run(facts).0.stage == LoginStage::Done,
    decreases facts.len(),
{
    if facts.len() == 0 {
        reveal(Seq::filter);
    } else {
        connected_at_most_once(login, facts.drop_last());
        let (before, done) = login.run(facts.drop_last());
        step_dispatches(before, facts.last());
        connected_count_splits(done, before.after(facts.last()).1);
        if before.stage == LoginStage::Done {
            assert(before.after(facts.last()).0.stage == LoginStage::Done);
        }
    }
}

/// On the first login after pairing the application is told that the client is ready only after
/// the critical part of the synced state is in: the last step is reached only by way of that
/// sync going well.
pub proof fn first_login_waits_for_critical_sync(login: PostLogin, facts: LoginFacts)
    requires
        login.after(facts).0.stage == LoginStage::Resubscribe(true),
    ensures
        login.stage == LoginStage::CriticalSync,
        facts.succeeded,
        facts.generation == login.generation,
{
}

/// The steps of a login follow one another in a fixed order while the connection lasts: session
/// with the server, session with the primary device, own devices, keys, readiness for stanzas, and
/// the end of those from offline time. Whether a step before the sync went well does not matter.
pub proof fn login_goes_step_by_step(login: PostLogin, facts: LoginFacts)
    requires
        facts.generation == login.generation,
        facts.is_connected,
    ensures
        ({
            let (next, actions) = login.after(facts);
            &&& next.generation == login.generation
            &&& next.needs_push_name == login.needs_push_name
            &&& login.stage is Begin ==> next.stage is UnifiedSession && actions == seq![
                LoginAction::SendUnifiedSession,
            ]
            &&& login.stage is UnifiedSession ==> next.stage is PrimarySession && actions == seq![
                LoginAction::EstablishPrimarySession,
            ]
            &&& login.stage is PrimarySession ==> next.stage is OwnDevices && actions == seq![
                LoginAction::SyncOwnDevices,
            ]
            &&& login.stage is OwnDevices ==> next.stage is PreKeys && actions == seq![
                LoginAction::UploadPreKeys,
            ]
            &&& login.stage is PreKeys ==> next.stage is Active && actions == seq![
                LoginAction::LeavePassiveMode,
            ]
            &&& login.stage is Active ==> next.stage is OfflineEnd && actions == seq![
                LoginAction::WaitForOfflineEnd,
            ]
            &&& login.stage is Done ==> next == login && actions.len() == 0
        }),
{
}

/// After the stanzas from offline time the queries in the background start. The first login after
/// pairing, and one that lacks the name shown to others, then gets the critical state, once its
/// keys have come; any other login shows its presence, if it has a name, and is ready.
pub proof fn first_logins_get_critical_state(login: PostLogin, facts: LoginFacts)
    requires
        facts.generation == login.generation,
        facts.is_connected,
        login.stage is OfflineEnd,
    ensures
        ({
            let (next, actions) = login.after(facts);
            if facts.needs_initial_full_sync || login.needs_push_name {
                if facts.initial_keys_received {
                    next.stage is CriticalSync && actions == seq![
                        LoginAction::SpawnBackgroundQueries,
                        LoginAction::StartCriticalWatch,
                        LoginAction::SyncCritical,
                    ]
                } else {
                    next.stage is KeysWait && actions == seq![
                        LoginAction::SpawnBackgroundQueries,
                        LoginAction::WaitForKeys,
                    ]
                }
            } else {
                next.stage == LoginStage::Resubscribe(false) && actions == if facts.push_name_empty {
                    seq![LoginAction::SpawnBackgroundQueries, LoginAction::ResubscribePresence]
                } else {
                    seq![
                        LoginAction::SpawnBackgroundQueries,
                        LoginAction::SendPresence,
                        LoginAction::ResubscribePresence,
                    ]
                }
            }
        }),
{
}

/// The last steps of a login on the connection that it was made on: the critical state is synced
/// under a watch, which is taken back when that went well; then the application is told, and after
/// a first login the rest of the state follows. A critical sync that fails leaves the watch to
/// its work. None of this asks whether the connection still stands.
pub proof fn logins_end_in_readiness(login: PostLogin, facts: LoginFacts)
    requires
        facts.generation == login.generation,
    ensures
        ({
            let (next, actions) = login.after(facts);
            &&& login.stage is KeysWait ==> next.stage is CriticalSync && actions == seq![
                LoginAction::StartCriticalWatch,
                LoginAction::SyncCritical,
            ]
            &&& login.stage is CriticalSync && facts.succeeded ==> next.stage
                == LoginStage::Resubscribe(true) && actions == seq![
                LoginAction::StopCriticalWatch,
                LoginAction::ResubscribePresence,
            ]
            &&& login.stage is CriticalSync && !facts.succeeded ==> next.stage is Done
                && actions.len() == 0
            &&& login.stage == LoginStage::Resubscribe(true) ==> next.stage is Done && actions
                == seq![LoginAction::DispatchConnected, LoginAction::SpawnRegularSync]
            &&& login.stage == LoginStage::Resubscribe(false) ==> next.stage is Done && actions
                == seq![LoginAction::DispatchConnected]
        }),
{
}

/// A login whose connection is gone stops where it needs one: before its first step, before keys
/// are uploaded, before it says that it is ready for stanzas, and after those have come. The steps
/// between go on.
pub proof fn lost_connections_stop_logins(login: PostLogin, facts: LoginFacts)
    requires
        !facts.is_connected,
    ensures
        login.stage is Begin || login.stage is OwnDevices || login.stage is PreKeys || login.stage
            is OfflineEnd ==> login.after(facts).0.stage is Done && login.after(facts).1.len() == 0,
        facts.generation == login.generation && (login.stage is UnifiedSession || login.stage
            is PrimarySession || login.stage is Active) ==> login.after(facts) == login.after(
            LoginFacts { is_connected: true, ..facts },
        ),
{
}

/// A replaced connection ends the steps of its login at once; a watch that was set is taken back
/// where the sync under it went well.
pub proof fn replaced_logins_stop(login: PostLogin, facts: LoginFacts)
    requires
        facts.generation != login.generation,
    ensures
        !(login.stage is Active) ==> login.after(facts).0 == (PostLogin {
            stage: LoginStage::Done,
            ..login
        }),
        login.stage is CriticalSync && facts.succeeded ==> login.after(facts).1 == seq![
            LoginAction::StopCriticalWatch,
        ],
        !(login.stage is Active) && !(login.stage is CriticalSync && facts.succeeded)
            ==> login.after(facts).1.len() == 0,
{
}

/// A login changes nothing of the link but that it is logged in, counts one connection more, and
/// has no failures behind it. The server's time counts where it is a positive number.
pub proof fn logins_change_no_more(link: Link, node: Node)
    ensures
        link.logged_in() == (Link {
            is_logged_in: true,
            connection_generation: link.connection_generation.wrapping_add(1),
            auto_reconnect_errors: 0,
            ..link
        }),
        link.connection_generation < u64::MAX ==> link.logged_in().connection_generation
            == link.connection_generation + 1,
        told_time(node) is Some <==> node.attr_u64("t"@) is Some && node.attr_u64("t"@)->0 > 0,
        told_time(node) is Some ==> told_time(node) == node.attr_u64("t"@),
{
}

} // verus!
