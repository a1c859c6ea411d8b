//! From a classified message to decrypted payloads.

use vstd::prelude::*;
use crate::client::link::Link;
use crate::jid::{Jid, JidView, Server};
use crate::message::classify::ClassifiedMessage;
use crate::message::session::SessionResult;

verus! {

/// Groups and broadcasts have no sessions between two devices.
pub open spec fn group_sender(jid: JidView) -> bool {
    jid.server == Server::Group || jid.server == Server::Broadcast
}

/// Whether an address is a group or a broadcast.
pub fn is_group_sender(jid: &Jid) -> (r: bool)
    ensures
        r == group_sender(jid@),
{
    jid.is_group() || jid.is_broadcast_list() || jid.is_status_broadcast()
}

/// What is left to do once the session payloads are dealt with.
#[derive(Clone, Copy, Debug, PartialEq, Eq, Structural)]
pub enum GroupPass {
    /// Decrypt the group payloads.
    Decrypt,
    /// Report that the message cannot be read.
    Report,
    /// Nothing.
    Skip,
}

/// The result of a batch that held no payload.
pub open spec fn no_result() -> SessionResult {
    SessionResult { any_success: false, any_duplicate: false, dispatched_undecryptable: false }
}

/// Whether group payloads are worth a try: not if the payload that brought the sender's key
/// with it could not be read.
pub open spec fn tries_group(any_session: bool, result: SessionResult) -> bool {
    !any_session || result.any_success || result.any_duplicate
}

/// What is left to do, by whether there are session and group payloads, what came of the
/// former, and whether the message is a status update that has expired.
pub open spec fn group_pass(
    any_session: bool,
    any_group: bool,
    result: SessionResult,
    expired: bool,
) -> GroupPass {
    if any_group {
        if tries_group(any_session, result) {
            GroupPass::Decrypt
        } else if expired || result.dispatched_undecryptable {
            GroupPass::Skip
        } else {
            GroupPass::Report
        }
    } else if any_session && !result.any_success && !result.any_duplicate {
        GroupPass::Report
    } else {
        GroupPass::Skip
    }
}

/// Whether group payloads are worth a try.
pub fn should_process_skmsg(any_session: bool, result: SessionResult) -> (r: bool)
    ensures
        r == tries_group(any_session, result),
{
    !any_session || result.any_success || result.any_duplicate
}

/// What a message waits for on its way.
#[derive(Clone, Copy, Debug, PartialEq, Eq, Structural)]
pub enum RunPhase {
    /// A permit to process messages.
    Permit,
    /// The session payloads.
    Sessions,
    /// The group payloads.
    Group,
    /// Nothing more.
    Done,
}

/// What happens to a message on its way.
#[derive(Clone, Copy, Debug, PartialEq, Eq, Structural)]
pub enum RunEvent {
    /// A permit came: the generation of permits that it is of, and the current one.
    Permit { taken: u64, current: u64 },
    /// The session payloads are dealt with.
    SessionsDone(SessionResult),
    /// The group payloads are dealt with.
    GroupDone,
}

/// What is to be done for a message.
#[derive(Clone, Copy, Debug, PartialEq, Eq, Structural)]
pub enum RunAction {
    AcquirePermit,
    /// Give the permit back: it is of a past generation.
    DropPermit,
    DecryptSessions,
    DecryptGroup,
    /// Report that the message cannot be read.
    ReportUndecryptable,
    /// Write the keys that changed to the store.
    FlushSignalCache,
}

/// A message on its way.
#[derive(Clone, Copy, Debug, PartialEq, Eq, Structural)]
pub struct MessageRun {
    /// There are session payloads.
    pub any_session: bool,
    /// There are group payloads.
    pub any_group: bool,
    /// The sender can have sessions.
    pub from_device: bool,
    pub phase: RunPhase,
}

impl MessageRun {
    /// The message before its first step.
    pub open spec fn of(msg: ClassifiedMessage) -> MessageRun {
        MessageRun {
            any_session: msg.session_payloads@.len() > 0,
            any_group: msg.group_payloads@.len() > 0,
            from_device: !group_sender(msg.sender_encryption_jid@),
            phase: RunPhase::Permit,
        }
    }

    /// What comes after the session payloads.
    pub open spec fn past_sessions(self, result: SessionResult, expired: bool) -> (
        MessageRun,
        Seq<RunAction>,
    ) {
        match group_pass(self.any_session, self.any_group, result, expired) {
            GroupPass::Decrypt => (
                MessageRun { phase: RunPhase::Group, ..self },
                seq![RunAction::DecryptGroup],
            ),
            GroupPass::Report => (
                MessageRun { phase: RunPhase::Done, ..self },
                seq![RunAction::ReportUndecryptable, RunAction::FlushSignalCache],
            ),
            GroupPass::Skip => (
                MessageRun { phase: RunPhase::Done, ..self },
                seq![RunAction::FlushSignalCache],
            ),
        }
    }

    /// What an event makes of the message, and what is to be done. A permit of a past
    /// generation is given back, and a new one is asked for: no message is lost when the
    /// number of permits changes.
    pub open spec fn after(self, event: RunEvent, expired: bool) -> (MessageRun, Seq<RunAction>) {
        match (self.phase, event) {
            (RunPhase::Permit, RunEvent::Permit { taken, current }) => if taken != current {
                (self, seq![RunAction::DropPermit, RunAction::AcquirePermit])
            } else if self.from_device && self.any_session {
                (
                    MessageRun { phase: RunPhase::Sessions, ..self },
                    seq![RunAction::DecryptSessions],
                )
            } else {
                self.past_sessions(no_result(), expired)
            },
            (RunPhase::Sessions, RunEvent::SessionsDone(result)) => self.past_sessions(
                result,
                expired,
            ),
            (RunPhase::Group, RunEvent::GroupDone) => (
                MessageRun { phase: RunPhase::Done, ..self },
                seq![RunAction::FlushSignalCache],
            ),
            _ => (self, Seq::empty()),
        }
    }

    /// Sets a message on its way: the first thing to do is to ask for a permit.
    pub fn start(msg: &ClassifiedMessage) -> (r: (MessageRun, RunAction))
        ensures
            r == (MessageRun::of(*msg), RunAction::AcquirePermit),
    {
        (
            MessageRun {
                any_session: msg.session_payloads.len() > 0,
                any_group: msg.group_payloads.len() > 0,
                from_device: !is_group_sender(&msg.sender_encryption_jid),
                phase: RunPhase::Permit,
            },
            RunAction::AcquirePermit,
        )
    }

    fn finish_sessions(&mut self, result: SessionResult, expired: bool) -> (r: Vec<RunAction>)
        ensures
            (*final(self), r@) == old(self).past_sessions(result, expired),
    {
        let mut actions: Vec<RunAction> = Vec::new();
        if self.any_group && should_process_skmsg(self.any_session, result) {
            self.phase = RunPhase::Group;
            actions.push(RunAction::DecryptGroup);
        } else {
            self.phase = RunPhase::Done;
            let failed = self.any_session && !result.any_success && !result.any_duplicate;
            let report = if self.any_group {
                !expired && !result.dispatched_undecryptable
            } else {
                failed
            };
            if report {
                actions.push(RunAction::ReportUndecryptable);
            }
            actions.push(RunAction::FlushSignalCache);
        }
        assert(actions@ =~= old(self).past_sessions(result, expired).1);
        actions
    }

    /// Takes in an event, and says what to do next; `expired` tells whether the message is a
    /// status update that has expired.
    pub fn step(&mut self, event: RunEvent, expired: bool) -> (r: Vec<RunAction>)
        ensures
            (*final(self), r@) == old(self).after(event, expired),
    {
        let mut actions: Vec<RunAction> = Vec::new();
        assert(actions@ =~= Seq::empty());
        match (self.phase, event) {
            (RunPhase::Permit, RunEvent::Permit { taken, current }) => {
                if taken != current {
                    actions.push(RunAction::DropPermit);
                    actions.push(RunAction::AcquirePermit);
                    assert(actions@ =~= seq![RunAction::DropPermit, RunAction::AcquirePermit]);
                    actions
                } else if self.from_device && self.any_session {
                    self.phase = RunPhase::Sessions;
                    actions.push(RunAction::DecryptSessions);
                    assert(actions@ =~= seq![RunAction::DecryptSessions]);
                    actions
                } else {
                    let none = SessionResult {
                        any_success: false,
                        any_duplicate: false,
                        dispatched_undecryptable: false,
                    };
                    self.finish_sessions(none, expired)
                }
            },
            (RunPhase::Sessions, RunEvent::SessionsDone(result)) => self.finish_sessions(
                result,
                expired,
            ),
            (RunPhase::Group, RunEvent::GroupDone) => {
                self.phase = RunPhase::Done;
                actions.push(RunAction::FlushSignalCache);
                assert(actions@ =~= seq![RunAction::FlushSignalCache]);
                actions
            },
            _ => actions,
        }
    }
}

/// A change in the number of permits loses no message: a message that was given a permit before
/// the change gives it back and asks for a new one, with nothing else done.
pub proof fn stale_permits_are_given_back(run: MessageRun, link: Link, permits: usize, expired: bool)
    requires
        run.phase == RunPhase::Permit,
    ensures
        run.after(
            RunEvent::Permit {
                taken: link.permit_generation,
                current: link.with_permits(permits).permit_generation,
            },
            expired,
        ) == (run, seq![RunAction::DropPermit, RunAction::AcquirePermit]),
{
}

/// However a message ends, the keys that changed are written to the store last, and nothing is
/// written before the end.
pub proof fn runs_end_with_flush(run: MessageRun, event: RunEvent, expired: bool)
    requires
        run.phase != RunPhase::Done,
    ensures
        ({
            let (next, actions) = run.after(event, expired);
            &&& next.phase == RunPhase::Done ==> actions.len() > 0 && actions.last()
                == RunAction::FlushSignalCache
            &&& next.phase != RunPhase::Done ==> !actions.contains(RunAction::FlushSignalCache)
        }),
{
    let (next, actions) = run.after(event, expired);
    if next.phase != RunPhase::Done && actions.contains(RunAction::FlushSignalCache) {
        let i = actions.index_of(RunAction::FlushSignalCache);
        assert(actions[i] == RunAction::FlushSignalCache);
    }
}

/// Group payloads are passed over only where session payloads came with them and none of those
/// was read, now or before.
pub proof fn group_payloads_skipped_only_on_failure(
    any_session: bool,
    result: SessionResult,
    expired: bool,
)
    requires
        group_pass(any_session, true, result, expired) != GroupPass::Decrypt,
    ensures
        any_session,
        !result.any_success,
        !result.any_duplicate,
{
}

/// A message is never reported twice by its own run: where the session batch has reported it
/// and group payloads are skipped, the run does not.
pub proof fn no_second_report(any_session: bool, result: SessionResult, expired: bool)
    requires
        result.dispatched_undecryptable,
    ensures
        group_pass(any_session, true, result, expired) != GroupPass::Report,
{
}

/// A message with session payloads from a device is decrypted as soon as it has a permit. One
/// without them goes on to its group payloads. One with them, but from a sender that can have no
/// sessions, cannot be read, and is reported unless it is a status update that has expired.
pub proof fn session_payloads_come_first(run: MessageRun, permit: u64, expired: bool)
    requires
        run.phase == RunPhase::Permit,
    ensures
        ({
            let (next, actions) = run.after(
                RunEvent::Permit { taken: permit, current: permit },
                expired,
            );
            if run.any_session && run.from_device {
                &&& next == (MessageRun { phase: RunPhase::Sessions, ..run })
                &&& actions == seq![RunAction::DecryptSessions]
            } else if run.any_group && !run.any_session {
                &&& next == (MessageRun { phase: RunPhase::Group, ..run })
                &&& actions == seq![RunAction::DecryptGroup]
            } else {
                &&& next == (MessageRun { phase: RunPhase::Done, ..run })
                &&& actions == if run.any_session && !(run.any_group && expired) {
                    seq![RunAction::ReportUndecryptable, RunAction::FlushSignalCache]
                } else {
                    seq![RunAction::FlushSignalCache]
                }
            }
        }),
{
}

/// Group payloads are decrypted where any session payload was read, now or before, or where there
/// is none. Otherwise the message is reported, unless that was done or it is a status update that
/// has expired. A message of session payloads alone is reported where none of them was read.
pub proof fn group_payloads_follow_success(run: MessageRun, result: SessionResult, expired: bool)
    requires
        run.phase == RunPhase::Sessions,
    ensures
        ({
            let (next, actions) = run.after(RunEvent::SessionsDone(result), expired);
            let failed = run.any_session && !result.any_success && !result.any_duplicate;
            if run.any_group && !failed {
                &&& next == (MessageRun { phase: RunPhase::Group, ..run })
                &&& actions == seq![RunAction::DecryptGroup]
            } else {
                &&& next == (MessageRun { phase: RunPhase::Done, ..run })
                &&& actions == if failed && (!run.any_group || !expired
                    && !result.dispatched_undecryptable) {
                    seq![RunAction::ReportUndecryptable, RunAction::FlushSignalCache]
                } else {
                    seq![RunAction::FlushSignalCache]
                }
            }
        }),
{
}

/// A message is done with once its group payloads are. Events that it does not wait for lead to
/// nothing.
pub proof fn runs_wait_for_their_events(run: MessageRun, event: RunEvent, expired: bool)
    ensures
        run.phase == RunPhase::Group ==> run.after(RunEvent::GroupDone, expired) == (
            MessageRun { phase: RunPhase::Done, ..run },
            seq![RunAction::FlushSignalCache],
        ),
        run.phase == RunPhase::Done || event is Permit && run.phase != RunPhase::Permit || event
            is SessionsDone && run.phase != RunPhase::Sessions || event is GroupDone && run.phase
            != RunPhase::Group ==> run.after(event, expired) == (run, Seq::<RunAction>::empty()),
        forall|taken: u64, current: u64|
            run.phase == RunPhase::Permit && taken != current ==> #[trigger] run.after(
                RunEvent::Permit { taken, current },
                expired,
            ) == (run, seq![RunAction::DropPermit, RunAction::AcquirePermit]),
{
}

/// What a message holds decides what its run does: only groups and broadcasts can have no
/// sessions.
pub proof fn runs_know_their_message(msg: ClassifiedMessage)
    ensures
        ({
            let run = MessageRun::of(msg);
            let server = msg.sender_encryption_jid@.server;
            &&& run.phase == RunPhase::Permit
            &&& run.any_session <==> msg.session_payloads@.len() > 0
            &&& run.any_group <==> msg.group_payloads@.len() > 0
            &&& run.from_device <==> server != Server::Group && server != Server::Broadcast
        }),
{
}

} // verus!
