//! Decrypting the group payloads of one message.

use vstd::prelude::*;
use crate::jid::{Jid, make_sender_key_name, sender_key_name};
use crate::types::{MessageInfo, RetryReason};

verus! {

/// What came of an attempt to decrypt a group payload.
#[derive(Clone, Copy, Debug, PartialEq, Eq, Structural)]
pub enum GroupOutcome {
    Plaintext,
    /// The payload was read before.
    Duplicate,
    NoSenderKey,
    Other,
}

/// What the batch waits for.
#[derive(Clone, Copy, Debug, PartialEq, Eq, Structural)]
pub enum GroupEvent {
    Decrypted(GroupOutcome),
    /// Whether the sending device is on the sender's device list.
    DeviceKnown(bool),
}

/// What is to be done.
#[derive(Clone, Copy, Debug, PartialEq, Eq, Structural)]
pub enum GroupAction {
    /// Try to decrypt the payload at this index.
    Decrypt(usize),
    /// Look the sending device up on the sender's device list.
    CheckDevice,
    /// Bring the sender's device list up to date.
    SyncDevices,
    /// Process the plaintext that the last attempt gave.
    HandlePlaintext(usize),
    /// Report that the message cannot be read, and ask the sender for it again.
    ReportFailure(RetryReason),
}

/// Where the batch is with the payload at hand.
#[derive(Clone, Copy, Debug, PartialEq, Eq, Structural)]
pub enum GroupPhase {
    Attempt,
    /// The payload was read; the sending device is being looked up.
    CheckAfterRead,
    /// There is no sender key; the sending device is being looked up.
    CheckAfterFailure,
    /// No payload is left.
    Finished,
}

/// The group payloads of one message on their way to plaintext.
#[derive(Clone, Copy, Debug, PartialEq, Eq, Structural)]
pub struct GroupBatch {
    pub count: usize,
    pub at: usize,
    pub phase: GroupPhase,
}

/// Why the sender is asked for the message again when its key is missing.
pub open spec fn missing_key_reason(device_known: bool) -> RetryReason {
    if device_known {
        RetryReason::NoSession
    } else {
        RetryReason::UnknownCompanionNoPrekey
    }
}

impl GroupBatch {
    /// The batch is finished, or waits for something about a payload that exists.
    pub open spec fn wf(self) -> bool {
        &&& self.at <= self.count
        &&& (self.phase == GroupPhase::Finished <==> self.at == self.count)
    }

    /// The batch at the payload `at`, and what to do first.
    pub open spec fn at_payload(count: usize, at: int) -> (GroupBatch, Seq<GroupAction>) {
        if at < count {
            (
                GroupBatch { count, at: at as usize, phase: GroupPhase::Attempt },
                seq![GroupAction::Decrypt(at as usize)],
            )
        } else {
            (GroupBatch { count, at: count, phase: GroupPhase::Finished }, Seq::empty())
        }
    }

    /// The payload is dealt with: do these, and take the next one.
    pub open spec fn settled(self, actions: Seq<GroupAction>) -> (GroupBatch, Seq<GroupAction>) {
        let (next, more) = GroupBatch::at_payload(self.count, self.at + 1);
        (next, actions + more)
    }

    /// What an event makes of the batch, and what is to be done; `expired` tells whether the
    /// message is a status update that has expired.
    pub open spec fn after(self, event: GroupEvent, expired: bool) -> (GroupBatch, Seq<
        GroupAction,
    >) {
        match (self.phase, event) {
            (GroupPhase::Attempt, GroupEvent::Decrypted(outcome)) => match outcome {
                GroupOutcome::Plaintext => (
                    GroupBatch { phase: GroupPhase::CheckAfterRead, ..self },
                    seq![GroupAction::CheckDevice],
                ),
                GroupOutcome::NoSenderKey => if expired {
                    self.settled(Seq::empty())
                } else {
                    (
                        GroupBatch { phase: GroupPhase::CheckAfterFailure, ..self },
                        seq![GroupAction::CheckDevice],
                    )
                },
                GroupOutcome::Duplicate => self.settled(Seq::empty()),
                GroupOutcome::Other => self.settled(Seq::empty()),
            },
            (GroupPhase::CheckAfterRead, GroupEvent::DeviceKnown(known)) => self.settled(
                if known {
                    seq![GroupAction::HandlePlaintext(self.at)]
                } else {
                    seq![GroupAction::SyncDevices, GroupAction::HandlePlaintext(self.at)]
                },
            ),
            (GroupPhase::CheckAfterFailure, GroupEvent::DeviceKnown(known)) => self.settled(
                if known {
                    seq![GroupAction::ReportFailure(missing_key_reason(known))]
                } else {
                    seq![
                        GroupAction::SyncDevices,
                        GroupAction::ReportFailure(missing_key_reason(known)),
                    ]
                },
            ),
            _ => (self, Seq::empty()),
        }
    }

    /// Starts on a number of payloads.
    pub fn start(count: usize) -> (r: (GroupBatch, Vec<GroupAction>))
        ensures
            (r.0, r.1@) == GroupBatch::at_payload(count, 0),
            r.0.wf(),
    {
        let mut actions: Vec<GroupAction> = Vec::new();
        if count > 0 {
            actions.push(GroupAction::Decrypt(0));
            assert(actions@ =~= seq![GroupAction::Decrypt(0)]);
            (GroupBatch { count, at: 0, phase: GroupPhase::Attempt }, actions)
        } else {
            assert(actions@ =~= Seq::empty());
            (GroupBatch { count, at: 0, phase: GroupPhase::Finished }, actions)
        }
    }

    fn settle(&mut self, actions: Vec<GroupAction>) -> (r: Vec<GroupAction>)
        requires
            old(self).wf(),
            old(self).at < old(self).count,
        ensures
            (*final(self), r@) == old(self).settled(actions@),
            final(self).wf(),
    {
        let ghost given = actions@;
        let mut all = actions;
        let next: usize = self.at + 1;
        if next < self.count {
            all.push(GroupAction::Decrypt(next));
            *self = GroupBatch { count: self.count, at: next, phase: GroupPhase::Attempt };
        } else {
            *self = GroupBatch { count: self.count, at: next, phase: GroupPhase::Finished };
        }
        assert(all@ =~= old(self).settled(given).1);
        all
    }

    /// Takes in an event, and says what to do next. `info` is what the message is known by,
    /// and `now` the time, in milliseconds since 1970.
    pub fn step(&mut self, event: GroupEvent, info: &MessageInfo, now: i64) -> (r: Vec<GroupAction>)
        requires
            old(self).wf(),
        ensures
            (*final(self), r@) == old(self).after(event, info.expired_status(now)),
            final(self).wf(),
    {
        let mut actions: Vec<GroupAction> = Vec::new();
        assert(actions@ =~= Seq::empty());
        match (self.phase, event) {
            (GroupPhase::Attempt, GroupEvent::Decrypted(outcome)) => match outcome {
                GroupOutcome::Plaintext => {
                    self.phase = GroupPhase::CheckAfterRead;
                    actions.push(GroupAction::CheckDevice);
                    assert(actions@ =~= seq![GroupAction::CheckDevice]);
                    actions
                },
                GroupOutcome::NoSenderKey => {
                    if info.is_expired_status(now) {
                        self.settle(actions)
                    } else {
                        self.phase = GroupPhase::CheckAfterFailure;
                        actions.push(GroupAction::CheckDevice);
                        assert(actions@ =~= seq![GroupAction::CheckDevice]);
                        actions
                    }
                },
                GroupOutcome::Duplicate => self.settle(actions),
                GroupOutcome::Other => self.settle(actions),
            },
            (GroupPhase::CheckAfterRead, GroupEvent::DeviceKnown(known)) => {
                let at: usize = self.at;
                if !known {
                    actions.push(GroupAction::SyncDevices);
                }
                actions.push(GroupAction::HandlePlaintext(at));
                assert(actions@ =~= (if known {
                    seq![GroupAction::HandlePlaintext(at)]
                } else {
                    seq![GroupAction::SyncDevices, GroupAction::HandlePlaintext(at)]
                }));
                self.settle(actions)
            },
            (GroupPhase::CheckAfterFailure, GroupEvent::DeviceKnown(known)) => {
                let reason = if known {
                    RetryReason::NoSession
                } else {
                    RetryReason::UnknownCompanionNoPrekey
                };
                if !known {
                    actions.push(GroupAction::SyncDevices);
                }
                actions.push(GroupAction::ReportFailure(reason));
                assert(actions@ =~= (if known {
                    seq![GroupAction::ReportFailure(reason)]
                } else {
                    seq![GroupAction::SyncDevices, GroupAction::ReportFailure(reason)]
                }));
                self.settle(actions)
            },
            _ => actions,
        }
    }

    /// How many events the batch can still take.
    pub open spec fn fuel(self) -> int {
        2 * (self.count - self.at) - if self.phase == GroupPhase::CheckAfterRead || self.phase
            == GroupPhase::CheckAfterFailure {
            1int
        } else {
            0
        }
    }

    /// Whether an event belongs to what the batch waits for.
    pub open spec fn expects(self, event: GroupEvent) -> bool {
        match self.phase {
            GroupPhase::Attempt => event is Decrypted,
            GroupPhase::CheckAfterRead => event is DeviceKnown,
            GroupPhase::CheckAfterFailure => event is DeviceKnown,
            GroupPhase::Finished => false,
        }
    }
}

/// The name under which the key of a message's sender is kept.
pub fn sender_key_for(info: &MessageInfo) -> (r: String)
    ensures
        r@ == sender_key_name(info.source.chat@, info.source.sender@.non_ad()),
{
    let bare = info.source.sender.to_non_ad();
    make_sender_key_name(&info.source.chat, &bare)
}

/// Every event that the batch waits for brings it nearer to its end: a payload takes two.
pub proof fn every_group_event_counts(batch: GroupBatch, event: GroupEvent, expired: bool)
    requires
        batch.wf(),
        batch.expects(event),
    ensures
        batch.after(event, expired).0.wf(),
        0 <= batch.after(event, expired).0.fuel() < batch.fuel(),
{
}

/// A plaintext is always processed, even if it came from a device that is not on the list: to
/// be able to encrypt is proof enough.
pub proof fn read_payloads_are_processed(batch: GroupBatch, known: bool, expired: bool)
    requires
        batch.wf(),
        batch.phase == GroupPhase::CheckAfterRead,
    ensures
        batch.after(GroupEvent::DeviceKnown(known), expired).1.contains(
            GroupAction::HandlePlaintext(batch.at),
        ),
{
    let actions = batch.after(GroupEvent::DeviceKnown(known), expired).1;
    if known {
        assert(actions[0] == GroupAction::HandlePlaintext(batch.at));
    } else {
        assert(actions[1] == GroupAction::HandlePlaintext(batch.at));
    }
}

/// Nobody is asked again for a status update that has expired.
pub proof fn expired_statuses_are_let_go(batch: GroupBatch, event: GroupEvent)
    requires
        batch.wf(),
        batch.phase == GroupPhase::Attempt,
        event is Decrypted,
        event != GroupEvent::Decrypted(GroupOutcome::Plaintext),
    ensures
        ({
            let (next, actions) = batch.after(event, true);
            &&& next.phase == GroupPhase::Attempt || next.phase == GroupPhase::Finished
            &&& next.at == batch.at + 1
            &&& forall|i: int| 0 <= i < actions.len() ==> (#[trigger] actions[i]) is Decrypt
        }),
{
}

/// What to do about a sender whose devices are not all known.
pub enum DeviceSync {
    /// It is being dealt with already.
    Pending,
    /// Leave it for the end of the offline sync.
    Queued(Jid),
    /// Forget the cached list of this user's devices, and fetch it anew.
    Immediate(Jid),
}

/// What to do about a message's sender: `newly_pending` tells whether the account was just put
/// on the list of those to be synced. While messages from offline time come in, it stays there.
pub fn handle_unknown_device_sync(info: &MessageInfo, newly_pending: bool) -> (r: DeviceSync)
    ensures
        match r {
            DeviceSync::Pending => !newly_pending,
            DeviceSync::Queued(user) => newly_pending && info.is_offline && user@
                == info.source.sender@.non_ad(),
            DeviceSync::Immediate(user) => newly_pending && !info.is_offline && user@
                == info.source.sender@.non_ad(),
        },
{
    let user = info.source.sender.to_non_ad();
    if !newly_pending {
        DeviceSync::Pending
    } else if info.is_offline {
        DeviceSync::Queued(user)
    } else {
        DeviceSync::Immediate(user)
    }
}

/// Whether a batch does some work on the payload at hand and then leaves it: it tries the next
/// payload, or is finished where there is none.
pub open spec fn leaves_group_payload(
    batch: GroupBatch,
    event: GroupEvent,
    expired: bool,
    work: Seq<GroupAction>,
) -> bool {
    let (next, actions) = batch.after(event, expired);
    &&& next.count == batch.count
    &&& next.at == batch.at + 1
    &&& if next.at < batch.count {
        &&& next.phase == GroupPhase::Attempt
        &&& actions == work.push(GroupAction::Decrypt(next.at))
    } else {
        &&& next.phase == GroupPhase::Finished
        &&& actions == work
    }
}

proof fn settling_leaves_group_payload(
    batch: GroupBatch,
    event: GroupEvent,
    expired: bool,
    work: Seq<GroupAction>,
)
    requires
        batch.wf(),
        batch.at < batch.count,
        batch.after(event, expired) == batch.settled(work),
    ensures
        leaves_group_payload(batch, event, expired, work),
{
    let (next, actions) = batch.after(event, expired);
    if next.at < batch.count {
        assert(actions =~= work.push(GroupAction::Decrypt(next.at)));
    } else {
        assert(actions =~= work);
    }
}

/// A payload that was read is handed on, once, and nothing is reported: the sending device is
/// looked up first, and the sender's devices are brought up to date where it is not known.
pub proof fn group_plaintexts_are_handed_on(batch: GroupBatch, expired: bool, later: bool)
    requires
        batch.wf(),
        batch.phase == GroupPhase::Attempt,
    ensures
        ({
            let (read, first) = batch.after(
                GroupEvent::Decrypted(GroupOutcome::Plaintext),
                expired,
            );
            &&& read.wf()
            &&& read.at == batch.at && read.count == batch.count
            &&& first == seq![GroupAction::CheckDevice]
            &&& leaves_group_payload(
                read,
                GroupEvent::DeviceKnown(true),
                later,
                seq![GroupAction::HandlePlaintext(batch.at)],
            )
            &&& leaves_group_payload(
                read,
                GroupEvent::DeviceKnown(false),
                later,
                seq![GroupAction::SyncDevices, GroupAction::HandlePlaintext(batch.at)],
            )
        }),
{
    let read = batch.after(GroupEvent::Decrypted(GroupOutcome::Plaintext), expired).0;
    settling_leaves_group_payload(
        read,
        GroupEvent::DeviceKnown(true),
        later,
        seq![GroupAction::HandlePlaintext(batch.at)],
    );
    settling_leaves_group_payload(
        read,
        GroupEvent::DeviceKnown(false),
        later,
        seq![GroupAction::SyncDevices, GroupAction::HandlePlaintext(batch.at)],
    );
}

/// A payload without a sender key is reported, once, and not handed on: the reason tells the
/// sender whether its device is known here. Where it is not, its devices are brought up to date.
pub proof fn missing_sender_keys_are_reported(batch: GroupBatch, later: bool)
    requires
        batch.wf(),
        batch.phase == GroupPhase::Attempt,
    ensures
        ({
            let (failed, first) = batch.after(
                GroupEvent::Decrypted(GroupOutcome::NoSenderKey),
                false,
            );
            &&& failed.wf()
            &&& failed.at == batch.at && failed.count == batch.count
            &&& first == seq![GroupAction::CheckDevice]
            &&& leaves_group_payload(
                failed,
                GroupEvent::DeviceKnown(true),
                later,
                seq![GroupAction::ReportFailure(RetryReason::NoSession)],
            )
            &&& leaves_group_payload(
                failed,
                GroupEvent::DeviceKnown(false),
                later,
                seq![
                    GroupAction::SyncDevices,
                    GroupAction::ReportFailure(RetryReason::UnknownCompanionNoPrekey),
                ],
            )
        }),
{
    let failed = batch.after(GroupEvent::Decrypted(GroupOutcome::NoSenderKey), false).0;
    settling_leaves_group_payload(
        failed,
        GroupEvent::DeviceKnown(true),
        later,
        seq![GroupAction::ReportFailure(RetryReason::NoSession)],
    );
    settling_leaves_group_payload(
        failed,
        GroupEvent::DeviceKnown(false),
        later,
        seq![
            GroupAction::SyncDevices,
            GroupAction::ReportFailure(RetryReason::UnknownCompanionNoPrekey),
        ],
    );
}

/// What was read before, and what fails in another way, is passed over without a word; so is a
/// missing key where the message is a status update that has expired.
pub proof fn other_group_payloads_are_passed_over(batch: GroupBatch, expired: bool)
    requires
        batch.wf(),
        batch.phase == GroupPhase::Attempt,
    ensures
        leaves_group_payload(
            batch,
            GroupEvent::Decrypted(GroupOutcome::Duplicate),
            expired,
            Seq::empty(),
        ),
        leaves_group_payload(
            batch,
            GroupEvent::Decrypted(GroupOutcome::Other),
            expired,
            Seq::empty(),
        ),
        leaves_group_payload(
            batch,
            GroupEvent::Decrypted(GroupOutcome::NoSenderKey),
            true,
            Seq::empty(),
        ),
{
    settling_leaves_group_payload(
        batch,
        GroupEvent::Decrypted(GroupOutcome::Duplicate),
        expired,
        Seq::empty(),
    );
    settling_leaves_group_payload(
        batch,
        GroupEvent::Decrypted(GroupOutcome::Other),
        expired,
        Seq::empty(),
    );
    settling_leaves_group_payload(
        batch,
        GroupEvent::Decrypted(GroupOutcome::NoSenderKey),
        true,
        Seq::empty(),
    );
}

/// A batch begins with its first payload, and an event that nobody waits for leads to nothing.
pub proof fn group_batches_begin_with_first_payload(
    count: usize,
    batch: GroupBatch,
    event: GroupEvent,
    expired: bool,
)
    ensures
        count > 0 ==> GroupBatch::at_payload(count, 0) == (
            GroupBatch { count, at: 0, phase: GroupPhase::Attempt },
            seq![GroupAction::Decrypt(0)],
        ),
        count == 0 ==> GroupBatch::at_payload(count, 0) == (
            GroupBatch { count, at: 0, phase: GroupPhase::Finished },
            Seq::<GroupAction>::empty(),
        ),
        batch.phase == GroupPhase::Finished || event is Decrypted && batch.phase
            != GroupPhase::Attempt || event is DeviceKnown && batch.phase == GroupPhase::Attempt
            ==> batch.after(event, expired) == (batch, Seq::<GroupAction>::empty()),
{
}

} // verus!
