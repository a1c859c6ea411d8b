//! Decrypting the session payloads of one message.
//!
//! The decryption itself needs the key store, so it happens outside. A [`SessionBatch`] says
//! what to do next and takes in what came of it.

use vstd::prelude::*;
use crate::jid::{Jid, JidView, Server};
use crate::message::classify::{EncPayload, PayloadView, payload_views};
use crate::types::{EncType, RetryReason};

verus! {

/// What came of an attempt to decrypt a payload.
#[derive(Clone, Copy, Debug, PartialEq, Eq, Structural)]
pub enum DecryptOutcome {
    Plaintext,
    /// The payload was read before.
    Duplicate,
    UntrustedIdentity,
    SessionNotFound,
    BadMac,
    InvalidMessage,
    InvalidPreKeyId,
    Other,
}

/// What the batch waits for.
#[derive(Clone, Copy, Debug, PartialEq, Eq, Structural)]
pub enum SessionEvent {
    /// An attempt to decrypt has ended.
    Decrypted(DecryptOutcome),
    /// The deletion of the old identity was written to the store, or failed to be.
    IdentityFlushed(bool),
    /// Whether the phone number behind the sender's LID is known.
    PhoneNumberKnown(bool),
}

/// What is to be done.
#[derive(Clone, Copy, Debug, PartialEq, Eq, Structural)]
pub enum SessionAction {
    /// Try to decrypt the payload at this index.
    Decrypt(usize),
    /// Process the plaintext that the last attempt gave.
    HandlePlaintext(usize),
    /// Forget the sender's old identity key, and write that to the store at once. The session
    /// stays: messages under way may still need it.
    DeleteIdentity,
    /// Forget the session with the sender.
    DeleteSession,
    /// Find the phone number behind the sender's LID.
    LookUpPhoneNumber,
    /// Move the sessions kept under the phone number to the LID.
    MigrateSessions,
    /// Report that the message cannot be read, and ask the sender for it again.
    ReportFailure(RetryReason),
    /// Give the sender a fresh privacy token.
    ReissueToken,
}

/// Where the batch is with the payload at hand.
#[derive(Clone, Copy, Debug, PartialEq, Eq, Structural)]
pub enum SessionPhase {
    /// The first attempt is under way.
    FirstAttempt,
    /// The old identity is being deleted.
    IdentityDeletion,
    /// The attempt after the old identity was deleted is under way.
    SecondAttempt,
    /// The phone number is being looked up; without one, the failure is reported with this
    /// reason. The flag tells whether the identity was deleted before.
    NumberLookup(RetryReason, bool),
    /// The attempt after the sessions were moved is under way.
    MigratedAttempt(RetryReason, bool),
    /// No payload is left.
    Finished,
}

/// What came of a batch.
#[derive(Clone, Copy, Debug, PartialEq, Eq, Structural)]
pub struct SessionResult {
    pub any_success: bool,
    pub any_duplicate: bool,
    pub dispatched_undecryptable: bool,
}

/// How a payload is dealt with on an event.
pub enum Verdict {
    /// The event does not belong to the phase.
    Ignored,
    /// More is needed: do these, and go on in this phase.
    Await(Seq<SessionAction>, SessionPhase),
    /// The payload is dealt with. Do these, and take the next payload.
    Settled(Seq<SessionAction>, PayloadEnd),
}

/// How a payload ended.
#[derive(Clone, Copy, Debug, PartialEq, Eq, Structural)]
pub enum PayloadEnd {
    Read,
    Duplicate,
    Failed,
    Dropped,
}

/// What the verdicts depend on besides the phase and the event.
#[derive(Clone, Copy, Debug, PartialEq, Eq, Structural)]
pub struct SenderTraits {
    /// The sender is addressed by a LID, so sessions may still be kept under a phone number.
    pub is_lid: bool,
    /// The sender is a person: neither automated nor the status feed.
    pub gets_token: bool,
}

/// The token that the sender gets after an identity change.
pub open spec fn token(after_identity: bool, sender: SenderTraits) -> Seq<SessionAction> {
    if after_identity && sender.gets_token {
        seq![SessionAction::ReissueToken]
    } else {
        Seq::empty()
    }
}

/// The payload cannot be read: either sessions may be kept under the sender's phone number, or
/// the failure is reported.
pub open spec fn migrate_or_fail(
    reason: RetryReason,
    after_identity: bool,
    sender: SenderTraits,
) -> Verdict {
    if sender.is_lid {
        Verdict::Await(
            seq![SessionAction::LookUpPhoneNumber],
            SessionPhase::NumberLookup(reason, after_identity),
        )
    } else {
        fail(reason, after_identity, sender)
    }
}

/// The failure is reported.
pub open spec fn fail(reason: RetryReason, after_identity: bool, sender: SenderTraits) -> Verdict {
    Verdict::Settled(
        seq![SessionAction::ReportFailure(reason)] + token(after_identity, sender),
        PayloadEnd::Failed,
    )
}

/// The plaintext is processed.
pub open spec fn read(at: usize, after_identity: bool, sender: SenderTraits) -> Verdict {
    Verdict::Settled(
        seq![SessionAction::HandlePlaintext(at)] + token(after_identity, sender),
        PayloadEnd::Read,
    )
}

/// How the payload at index `at` is dealt with.
pub open spec fn verdict(
    phase: SessionPhase,
    event: SessionEvent,
    at: usize,
    sender: SenderTraits,
) -> Verdict {
    match (phase, event) {
        (SessionPhase::FirstAttempt, SessionEvent::Decrypted(outcome)) => match outcome {
            DecryptOutcome::Plaintext => read(at, false, sender),
            DecryptOutcome::Duplicate => Verdict::Settled(Seq::empty(), PayloadEnd::Duplicate),
            DecryptOutcome::UntrustedIdentity => Verdict::Await(
                seq![SessionAction::DeleteIdentity],
                SessionPhase::IdentityDeletion,
            ),
            DecryptOutcome::SessionNotFound => migrate_or_fail(
                RetryReason::NoSession,
                false,
                sender,
            ),
            DecryptOutcome::BadMac => Verdict::Settled(
                seq![
                    SessionAction::DeleteSession,
                    SessionAction::ReportFailure(RetryReason::BadMac),
                ],
                PayloadEnd::Failed,
            ),
            DecryptOutcome::InvalidMessage => Verdict::Settled(
                seq![
                    SessionAction::DeleteSession,
                    SessionAction::ReportFailure(RetryReason::InvalidMessage),
                ],
                PayloadEnd::Failed,
            ),
            DecryptOutcome::InvalidPreKeyId => migrate_or_fail(
                RetryReason::InvalidKeyId,
                false,
                sender,
            ),
            DecryptOutcome::Other => Verdict::Settled(Seq::empty(), PayloadEnd::Dropped),
        },
        (SessionPhase::IdentityDeletion, SessionEvent::IdentityFlushed(written)) => if written {
            Verdict::Await(seq![SessionAction::Decrypt(at)], SessionPhase::SecondAttempt)
        } else {
            Verdict::Settled(Seq::empty(), PayloadEnd::Dropped)
        },
        (SessionPhase::SecondAttempt, SessionEvent::Decrypted(outcome)) => match outcome {
            DecryptOutcome::Plaintext => read(at, true, sender),
            DecryptOutcome::Duplicate => Verdict::Settled(
                token(true, sender),
                PayloadEnd::Duplicate,
            ),
            DecryptOutcome::InvalidPreKeyId => migrate_or_fail(
                RetryReason::InvalidKeyId,
                true,
                sender,
            ),
            _ => fail(RetryReason::InvalidKey, true, sender),
        },
        (SessionPhase::NumberLookup(reason, after), SessionEvent::PhoneNumberKnown(known)) =>
            if known {
                Verdict::Await(
                    seq![SessionAction::MigrateSessions, SessionAction::Decrypt(at)],
                    SessionPhase::MigratedAttempt(reason, after),
                )
            } else {
                fail(reason, after, sender)
            },
        (SessionPhase::MigratedAttempt(reason, after), SessionEvent::Decrypted(outcome)) =>
            match outcome {
                DecryptOutcome::Plaintext => read(at, after, sender),
                DecryptOutcome::Duplicate => Verdict::Settled(
                    token(after, sender),
                    PayloadEnd::Read,
                ),
                _ => fail(reason, after, sender),
            },
        _ => Verdict::Ignored,
    }
}

/// Whether `PreKeySignalMessage::try_from` of libsignal accepts the bytes.
pub uninterp spec fn is_prekey_message(bytes: Seq<u8>) -> bool;

/// Whether `SignalMessage::try_from` of libsignal accepts the bytes.
pub uninterp spec fn is_signal_message(bytes: Seq<u8>) -> bool;

/// Calls `PreKeySignalMessage::try_from`, and tells whether it accepts the bytes: that depends
/// on the bytes alone, and is named. It never accepts an empty payload.
#[verifier::external_body]
fn parses_as_prekey_message(bytes: &[u8]) -> (r: bool)
    ensures
        r == is_prekey_message(bytes@),
        r ==> bytes@.len() > 0,
{
    wacore::libsignal::protocol::PreKeySignalMessage::try_from(bytes).is_ok()
}

/// Calls `SignalMessage::try_from`, and tells whether it accepts the bytes: that depends on
/// the bytes alone, and is named. It never accepts a payload without room for the eight bytes
/// of the authentication code and the version.
#[verifier::external_body]
fn parses_as_signal_message(bytes: &[u8]) -> (r: bool)
    ensures
        r == is_signal_message(bytes@),
        r ==> bytes@.len() >= 9,
{
    wacore::libsignal::protocol::SignalMessage::try_from(bytes).is_ok()
}

/// Whether a payload has the form that its type asks for.
pub open spec fn parses(payload: PayloadView) -> bool {
    if payload.enc_type == EncType::PreKeyMessage {
        is_prekey_message(payload.ciphertext)
    } else {
        is_signal_message(payload.ciphertext)
    }
}

/// The index of the first well-formed payload from `from` on; the length where there is none.
pub open spec fn next_parsable(payloads: Seq<PayloadView>, from: nat) -> nat
    decreases payloads.len() - from,
{
    if from >= payloads.len() {
        payloads.len()
    } else if parses(payloads[from as int]) {
        from
    } else {
        next_parsable(payloads, from + 1)
    }
}

fn payload_parses(payload: &EncPayload) -> (r: bool)
    ensures
        r == parses(payload@),
{
    if payload.enc_type == EncType::PreKeyMessage {
        parses_as_prekey_message(payload.ciphertext.as_slice())
    } else {
        parses_as_signal_message(payload.ciphertext.as_slice())
    }
}

fn find_parsable(payloads: &Vec<EncPayload>, from: usize) -> (r: usize)
    requires
        from <= payloads@.len(),
    ensures
        r == next_parsable(payload_views(payloads@), from as nat),
        from <= r <= payloads@.len(),
{
    let mut i: usize = from;
    while i < payloads.len()
        invariant
            from <= i <= payloads@.len(),
            next_parsable(payload_views(payloads@), from as nat) == next_parsable(
                payload_views(payloads@),
                i as nat,
            ),
        decreases payloads@.len() - i,
    {
        if payload_parses(&payloads[i]) {
            return i;
        }
        i += 1;
    }
    i
}

/// The session payloads of one message on their way to plaintext.
pub struct SessionBatch {
    payloads: Vec<EncPayload>,
    sender: SenderTraits,
    cursor: Cursor,
}

/// How far a batch has come.
struct Cursor {
    at: usize,
    phase: SessionPhase,
    result: SessionResult,
}

/// What a [`SessionBatch`] holds, as mathematics.
pub struct BatchView {
    pub payloads: Seq<PayloadView>,
    pub sender: SenderTraits,
    pub at: nat,
    pub phase: SessionPhase,
    pub result: SessionResult,
}

impl View for SessionBatch {
    type V = BatchView;

    closed spec fn view(&self) -> BatchView {
        BatchView {
            payloads: payload_views(self.payloads@),
            sender: self.sender,
            at: self.cursor.at as nat,
            phase: self.cursor.phase,
            result: self.cursor.result,
        }
    }
}

/// The result after one more payload.
pub open spec fn with_end(result: SessionResult, end: PayloadEnd) -> SessionResult {
    SessionResult {
        any_success: result.any_success || end == PayloadEnd::Read,
        any_duplicate: result.any_duplicate || end == PayloadEnd::Duplicate,
        dispatched_undecryptable: result.dispatched_undecryptable || end == PayloadEnd::Failed,
    }
}

impl BatchView {
    /// The batch is finished, or waits for something about a payload that exists.
    pub open spec fn wf(self) -> bool {
        &&& self.payloads.len() <= usize::MAX
        &&& self.at <= self.payloads.len()
        &&& (self.phase == SessionPhase::Finished <==> self.at == self.payloads.len())
    }

    /// The batch on its way to the next payload from `from` on, and what to do first.
    pub open spec fn advanced(self, from: nat) -> (BatchView, Seq<SessionAction>) {
        let at = next_parsable(self.payloads, from);
        if at < self.payloads.len() {
            (
                BatchView { at, phase: SessionPhase::FirstAttempt, ..self },
                seq![SessionAction::Decrypt(at as usize)],
            )
        } else {
            (BatchView { at, phase: SessionPhase::Finished, ..self }, Seq::empty())
        }
    }

    /// What an event makes of the batch, and what is to be done.
    pub open spec fn after(self, event: SessionEvent) -> (BatchView, Seq<SessionAction>) {
        match verdict(self.phase, event, self.at as usize, self.sender) {
            Verdict::Ignored => (self, Seq::empty()),
            Verdict::Await(actions, phase) => (BatchView { phase, ..self }, actions),
            Verdict::Settled(actions, end) => {
                let settled = BatchView { result: with_end(self.result, end), ..self };
                let (next, more) = settled.advanced(self.at + 1);
                (next, actions + more)
            },
        }
    }

    /// What a run of events makes of the batch, and all that is to be done on the way.
    pub open spec fn run(self, events: Seq<SessionEvent>) -> (BatchView, Seq<SessionAction>)
        decreases events.len(),
    {
        if events.len() == 0 {
            (self, Seq::empty())
        } else {
            let (before, done) = self.run(events.drop_last());
            let (next, actions) = before.after(events.last());
            (next, done + actions)
        }
    }
}

/// What a sender's addresses mean for the verdicts: the one that sessions are kept under, and
/// the one that the stanza gave.
pub open spec fn sender_traits(encryption_jid: JidView, sender: JidView) -> SenderTraits {
    SenderTraits {
        is_lid: encryption_jid.server == Server::Lid,
        gets_token: !sender.bot() && !sender.status_broadcast(),
    }
}

/// The batch before its first step.
pub open spec fn fresh(
    payloads: Seq<PayloadView>,
    encryption_jid: JidView,
    sender: JidView,
) -> BatchView {
    BatchView {
        payloads,
        sender: sender_traits(encryption_jid, sender),
        at: 0,
        phase: SessionPhase::Finished,
        result: SessionResult {
            any_success: false,
            any_duplicate: false,
            dispatched_undecryptable: false,
        },
    }
}

/// What is to be done, on the way to being collected.
enum Exec {
    Ignored,
    Await(Vec<SessionAction>, SessionPhase),
    Settled(Vec<SessionAction>, PayloadEnd),
}

impl Exec {
    spec fn is(self, v: Verdict) -> bool {
        match (self, v) {
            (Exec::Ignored, Verdict::Ignored) => true,
            (Exec::Await(a, p), Verdict::Await(b, q)) => a@ =~= b && p == q,
            (Exec::Settled(a, p), Verdict::Settled(b, q)) => a@ =~= b && p == q,
            _ => false,
        }
    }
}

impl SenderTraits {
    fn with_token(self, actions: Vec<SessionAction>, after_identity: bool) -> (r: Vec<
        SessionAction,
    >)
        ensures
            r@ == actions@ + token(after_identity, self),
    {
        let mut all = actions;
        if after_identity && self.gets_token {
            all.push(SessionAction::ReissueToken);
        }
        assert(all@ =~= actions@ + token(after_identity, self));
        all
    }

    fn fail(self, reason: RetryReason, after_identity: bool) -> (r: Exec)
        ensures
            r.is(fail(reason, after_identity, self)),
    {
        let actions: Vec<SessionAction> = vec![SessionAction::ReportFailure(reason)];
        Exec::Settled(self.with_token(actions, after_identity), PayloadEnd::Failed)
    }

    fn read(self, at: usize, after_identity: bool) -> (r: Exec)
        ensures
            r.is(read(at, after_identity, self)),
    {
        let actions: Vec<SessionAction> = vec![SessionAction::HandlePlaintext(at)];
        Exec::Settled(self.with_token(actions, after_identity), PayloadEnd::Read)
    }

    fn migrate_or_fail(self, reason: RetryReason, after_identity: bool) -> (r: Exec)
        ensures
            r.is(migrate_or_fail(reason, after_identity, self)),
    {
        if self.is_lid {
            Exec::Await(
                vec![SessionAction::LookUpPhoneNumber],
                SessionPhase::NumberLookup(reason, after_identity),
            )
        } else {
            self.fail(reason, after_identity)
        }
    }

    fn first_attempt(self, outcome: DecryptOutcome, at: usize) -> (r: Exec)
        ensures
            r.is(
                verdict(SessionPhase::FirstAttempt, SessionEvent::Decrypted(outcome), at, self),
            ),
    {
        match outcome {
            DecryptOutcome::Plaintext => self.read(at, false),
            DecryptOutcome::Duplicate => Exec::Settled(Vec::new(), PayloadEnd::Duplicate),
            DecryptOutcome::UntrustedIdentity => Exec::Await(
                vec![SessionAction::DeleteIdentity],
                SessionPhase::IdentityDeletion,
            ),
            DecryptOutcome::SessionNotFound => self.migrate_or_fail(RetryReason::NoSession, false),
            DecryptOutcome::BadMac => Exec::Settled(
                vec![
                    SessionAction::DeleteSession,
                    SessionAction::ReportFailure(RetryReason::BadMac),
                ],
                PayloadEnd::Failed,
            ),
            DecryptOutcome::InvalidMessage => Exec::Settled(
                vec![
                    SessionAction::DeleteSession,
                    SessionAction::ReportFailure(RetryReason::InvalidMessage),
                ],
                PayloadEnd::Failed,
            ),
            DecryptOutcome::InvalidPreKeyId => self.migrate_or_fail(
                RetryReason::InvalidKeyId,
                false,
            ),
            DecryptOutcome::Other => Exec::Settled(Vec::new(), PayloadEnd::Dropped),
        }
    }

    fn second_attempt(self, outcome: DecryptOutcome, at: usize) -> (r: Exec)
        ensures
            r.is(
                verdict(SessionPhase::SecondAttempt, SessionEvent::Decrypted(outcome), at, self),
            ),
    {
        match outcome {
            DecryptOutcome::Plaintext => self.read(at, true),
            DecryptOutcome::Duplicate => {
                let actions = self.with_token(Vec::new(), true);
                assert(actions@ =~= token(true, self));
                Exec::Settled(actions, PayloadEnd::Duplicate)
            },
            DecryptOutcome::InvalidPreKeyId => self.migrate_or_fail(
                RetryReason::InvalidKeyId,
                true,
            ),
            _ => self.fail(RetryReason::InvalidKey, true),
        }
    }

    fn migrated_attempt(
        self,
        reason: RetryReason,
        after_identity: bool,
        outcome: DecryptOutcome,
        at: usize,
    ) -> (r: Exec)
        ensures
            r.is(
                verdict(
                    SessionPhase::MigratedAttempt(reason, after_identity),
                    SessionEvent::Decrypted(outcome),
                    at,
                    self,
                ),
            ),
    {
        match outcome {
            DecryptOutcome::Plaintext => self.read(at, after_identity),
            DecryptOutcome::Duplicate => {
                let actions = self.with_token(Vec::new(), after_identity);
                assert(actions@ =~= token(after_identity, self));
                Exec::Settled(actions, PayloadEnd::Read)
            },
            _ => self.fail(reason, after_identity),
        }
    }

    fn judge(self, phase: SessionPhase, event: SessionEvent, at: usize) -> (r: Exec)
        ensures
            r.is(verdict(phase, event, at, self)),
    {
        match (phase, event) {
            (SessionPhase::FirstAttempt, SessionEvent::Decrypted(outcome)) => self.first_attempt(
                outcome,
                at,
            ),
            (SessionPhase::IdentityDeletion, SessionEvent::IdentityFlushed(written)) => {
                if written {
                    Exec::Await(vec![SessionAction::Decrypt(at)], SessionPhase::SecondAttempt)
                } else {
                    Exec::Settled(Vec::new(), PayloadEnd::Dropped)
                }
            },
            (SessionPhase::SecondAttempt, SessionEvent::Decrypted(outcome)) => self.second_attempt(
                outcome,
                at,
            ),
            (
                SessionPhase::NumberLookup(reason, after),
                SessionEvent::PhoneNumberKnown(known),
            ) => {
                if known {
                    Exec::Await(
                        vec![SessionAction::MigrateSessions, SessionAction::Decrypt(at)],
                        SessionPhase::MigratedAttempt(reason, after),
                    )
                } else {
                    self.fail(reason, after)
                }
            },
            (
                SessionPhase::MigratedAttempt(reason, after),
                SessionEvent::Decrypted(outcome),
            ) => self.migrated_attempt(reason, after, outcome, at),
            _ => Exec::Ignored,
        }
    }
}

impl SessionBatch {
    #[verifier::type_invariant]
    spec fn inv(self) -> bool {
        self@.wf()
    }

    /// Starts on the session payloads of a message: `encryption_jid` is the address that
    /// sessions with the sender are kept under, `sender` the one that the stanza gave. Gives
    /// the batch and what to do first.
    pub fn start(payloads: Vec<EncPayload>, encryption_jid: &Jid, sender: &Jid) -> (r: (
        SessionBatch,
        Vec<SessionAction>,
    ))
        ensures
            (r.0@, r.1@) == fresh(
                payload_views(payloads@),
                encryption_jid@,
                sender@,
            ).advanced(0),
    {
        let traits = SenderTraits {
            is_lid: encryption_jid.is_lid(),
            gets_token: !sender.is_bot() && !sender.is_status_broadcast(),
        };
        let at: usize = find_parsable(&payloads, 0);
        let mut actions: Vec<SessionAction> = Vec::new();
        let phase = if at < payloads.len() {
            actions.push(SessionAction::Decrypt(at));
            SessionPhase::FirstAttempt
        } else {
            SessionPhase::Finished
        };
        let ghost expected = fresh(payload_views(payloads@), encryption_jid@, sender@).advanced(0);
        let batch = SessionBatch {
            payloads,
            sender: traits,
            cursor: Cursor {
                at,
                phase,
                result: SessionResult {
                    any_success: false,
                    any_duplicate: false,
                    dispatched_undecryptable: false,
                },
            },
        };
        assert(actions@ =~= expected.1);
        assert(batch@ == expected.0);
        (batch, actions)
    }

    /// Takes in an event, and says what to do next.
    pub fn step(&mut self, event: SessionEvent) -> (r: Vec<SessionAction>)
        ensures
            (final(self)@, r@) == old(self)@.after(event),
    {
        proof {
            use_type_invariant(&*self);
        }
        let ghost before = self@;
        let at: usize = self.cursor.at;
        let old_result = self.cursor.result;
        match self.sender.judge(self.cursor.phase, event, at) {
            Exec::Ignored => {
                let none: Vec<SessionAction> = Vec::new();
                assert(none@ =~= before.after(event).1);
                none
            },
            Exec::Await(actions, phase) => {
                self.cursor = Cursor { at, phase, result: old_result };
                actions
            },
            Exec::Settled(mut actions, end) => {
                let next: usize = find_parsable(&self.payloads, at + 1);
                let result = SessionResult {
                    any_success: old_result.any_success || end == PayloadEnd::Read,
                    any_duplicate: old_result.any_duplicate || end == PayloadEnd::Duplicate,
                    dispatched_undecryptable: old_result.dispatched_undecryptable || end
                        == PayloadEnd::Failed,
                };
                let phase = if next < self.payloads.len() {
                    actions.push(SessionAction::Decrypt(next));
                    SessionPhase::FirstAttempt
                } else {
                    SessionPhase::Finished
                };
                self.cursor = Cursor { at: next, phase, result };
                assert(actions@ =~= before.after(event).1);
                actions
            },
        }
    }

    /// Whether no payload is left.
    pub fn is_finished(&self) -> (r: bool)
        ensures
            r == (self@.phase == SessionPhase::Finished),
    {
        self.cursor.phase == SessionPhase::Finished
    }

    /// What has come of the payloads so far.
    pub fn result(&self) -> (r: SessionResult)
        ensures
            r == self@.result,
    {
        self.cursor.result
    }

    /// The payload at an index.
    pub fn payload(&self, at: usize) -> (r: Option<&EncPayload>)
        ensures
            match r {
                Some(p) => at < self@.payloads.len() && p@ == self@.payloads[at as int],
                None => at >= self@.payloads.len(),
            },
    {
        if at < self.payloads.len() {
            Some(&self.payloads[at])
        } else {
            None
        }
    }
}

/// Whether a failure is reported among some actions.
pub open spec fn reports_failure(actions: Seq<SessionAction>) -> bool {
    exists|i: int| 0 <= i < actions.len() && (#[trigger] actions[i]) is ReportFailure
}

/// What the batch waits for in a phase comes from this action.
pub open spec fn awaited(phase: SessionPhase, at: nat) -> Option<SessionAction> {
    match phase {
        SessionPhase::FirstAttempt => Some(SessionAction::Decrypt(at as usize)),
        SessionPhase::IdentityDeletion => Some(SessionAction::DeleteIdentity),
        SessionPhase::SecondAttempt => Some(SessionAction::Decrypt(at as usize)),
        SessionPhase::NumberLookup(_, _) => Some(SessionAction::LookUpPhoneNumber),
        SessionPhase::MigratedAttempt(_, _) => Some(SessionAction::Decrypt(at as usize)),
        SessionPhase::Finished => None,
    }
}

/// How many events a payload can still take in a phase.
pub open spec fn steps_left(phase: SessionPhase) -> nat {
    match phase {
        SessionPhase::FirstAttempt => 5,
        SessionPhase::IdentityDeletion => 4,
        SessionPhase::SecondAttempt => 3,
        SessionPhase::NumberLookup(_, _) => 2,
        SessionPhase::MigratedAttempt(_, _) => 1,
        SessionPhase::Finished => 0,
    }
}

impl BatchView {
    /// How many events the batch can still take.
    pub open spec fn fuel(self) -> int {
        if self.at < self.payloads.len() {
            5 * (self.payloads.len() - self.at - 1) + steps_left(self.phase)
        } else {
            0
        }
    }

    /// Whether an event belongs to what the batch waits for.
    pub open spec fn expects(self, event: SessionEvent) -> bool {
        !(verdict(self.phase, event, self.at as usize, self.sender) is Ignored)
    }
}

proof fn next_parsable_bounds(payloads: Seq<PayloadView>, from: nat)
    requires
        from <= payloads.len(),
    ensures
        from <= next_parsable(payloads, from) <= payloads.len(),
        next_parsable(payloads, from) < payloads.len() ==> parses(
            payloads[next_parsable(payloads, from) as int],
        ),
        forall|i: int| from <= i < next_parsable(payloads, from) ==> !parses(#[trigger] payloads[i]),
    decreases payloads.len() - from,
{
    if from < payloads.len() && !parses(payloads[from as int]) {
        next_parsable_bounds(payloads, from + 1);
    }
}

proof fn reports_split(a: Seq<SessionAction>, b: Seq<SessionAction>)
    ensures
        reports_failure(a + b) == (reports_failure(a) || reports_failure(b)),
{
    if reports_failure(a) {
        let i = choose|i: int| 0 <= i < a.len() && (#[trigger] a[i]) is ReportFailure;
        assert((a + b)[i] == a[i]);
    }
    if reports_failure(b) {
        let i = choose|i: int| 0 <= i < b.len() && (#[trigger] b[i]) is ReportFailure;
        assert((a + b)[a.len() + i] == b[i]);
    }
}

/// A payload ends as failed exactly where the failure is reported.
proof fn verdict_reports(phase: SessionPhase, event: SessionEvent, at: usize, sender: SenderTraits)
    ensures
        match verdict(phase, event, at, sender) {
            Verdict::Ignored => true,
            Verdict::Await(actions, _) => !reports_failure(actions),
            Verdict::Settled(actions, end) => reports_failure(actions) == (end
                == PayloadEnd::Failed),
        },
{
    assert forall|reason: RetryReason| reports_failure(
        #[trigger] seq![SessionAction::ReportFailure(reason)],
    ) by {
        assert(seq![SessionAction::ReportFailure(reason)][0] is ReportFailure);
    }
    assert forall|reason: RetryReason| reports_failure(
        #[trigger] seq![SessionAction::DeleteSession, SessionAction::ReportFailure(reason)],
    ) by {
        assert(seq![SessionAction::DeleteSession, SessionAction::ReportFailure(reason)][1]
            is ReportFailure);
    }
    assert forall|after: bool, reason: RetryReason| reports_failure(
        #[trigger] (seq![SessionAction::ReportFailure(reason)] + token(after, sender)),
    ) by {
        reports_split(seq![SessionAction::ReportFailure(reason)], token(after, sender));
    }
}

/// An event that the batch waits for brings it nearer to its end: a payload takes five events
/// at the most.
pub proof fn every_event_counts(batch: BatchView, event: SessionEvent)
    requires
        batch.wf(),
        batch.expects(event),
    ensures
        batch.after(event).0.wf(),
        0 <= batch.after(event).0.fuel() < batch.fuel(),
{
    next_parsable_bounds(batch.payloads, batch.at + 1);
}

/// As long as the batch is not finished, the last thing to be done is the one whose outcome it
/// waits for: no batch stands still.
pub proof fn batch_never_stalls(batch: BatchView, event: SessionEvent)
    requires
        batch.wf(),
        batch.expects(event),
    ensures
        ({
            let (next, actions) = batch.after(event);
            next.phase != SessionPhase::Finished ==> actions.len() > 0 && Some(actions.last())
                == awaited(next.phase, next.at)
        }),
{
    next_parsable_bounds(batch.payloads, batch.at + 1);
}

/// A failed payload is reported, and nothing else is: after any run of events, the result says
/// that the message was reported as undecryptable exactly where a report was among the actions.
pub proof fn reports_match_result(batch: BatchView, events: Seq<SessionEvent>)
    requires
        !batch.result.dispatched_undecryptable,
    ensures
        batch.run(events).0.result.dispatched_undecryptable == reports_failure(
            batch.run(events).1,
        ),
    decreases events.len(),
{
    if events.len() > 0 {
        reports_match_result(batch, events.drop_last());
        let (before, done) = batch.run(events.drop_last());
        let event = events.last();
        verdict_reports(before.phase, event, before.at as usize, before.sender);
        reports_split(done, before.after(event).1);
        match verdict(before.phase, event, before.at as usize, before.sender) {
            Verdict::Settled(actions, end) => {
                let settled = BatchView { result: with_end(before.result, end), ..before };
                reports_split(actions, settled.advanced(before.at + 1).1);
            },
            _ => {},
        }
    }
}

/// What was found of the payloads so far is never taken back.
pub proof fn results_only_grow(batch: BatchView, events: Seq<SessionEvent>)
    ensures
        batch.result.any_success ==> batch.run(events).0.result.any_success,
        batch.result.any_duplicate ==> batch.run(events).0.result.any_duplicate,
        batch.result.dispatched_undecryptable ==> batch.run(
            events,
        ).0.result.dispatched_undecryptable,
    decreases events.len(),
{
    if events.len() > 0 {
        results_only_grow(batch, events.drop_last());
    }
}

/// A session is forgotten only where the first attempt shows that it is out of step. An
/// identity change never costs the session.
pub proof fn sessions_survive_identity_changes(batch: BatchView, event: SessionEvent)
    requires
        batch.after(event).1.contains(SessionAction::DeleteSession),
    ensures
        batch.phase == SessionPhase::FirstAttempt,
        event == SessionEvent::Decrypted(DecryptOutcome::BadMac) || event
            == SessionEvent::Decrypted(DecryptOutcome::InvalidMessage),
{
    let actions = batch.after(event).1;
    let i = actions.index_of(SessionAction::DeleteSession);
    assert(actions[i] == SessionAction::DeleteSession);
}

/// A payload that was read before leaves no trace but the flag: nothing is processed, reported
/// or deleted, and the next payload is taken.
pub proof fn duplicates_are_silent(batch: BatchView)
    requires
        batch.phase == SessionPhase::FirstAttempt,
    ensures
        ({
            let event = SessionEvent::Decrypted(DecryptOutcome::Duplicate);
            let (next, actions) = batch.after(event);
            &&& next.result == (SessionResult { any_duplicate: true, ..batch.result })
            &&& actions == (if next.at < batch.payloads.len() {
                seq![SessionAction::Decrypt(next.at as usize)]
            } else {
                Seq::empty()
            })
        }),
{
    let (next, actions) = batch.after(SessionEvent::Decrypted(DecryptOutcome::Duplicate));
    assert(actions =~= (if next.at < batch.payloads.len() {
        seq![SessionAction::Decrypt(next.at as usize)]
    } else {
        Seq::empty()
    }));
}

/// What came of two batches, taken together.
pub open spec fn joined(first: SessionResult, second: SessionResult) -> SessionResult {
    SessionResult {
        any_success: first.any_success || second.any_success,
        any_duplicate: first.any_duplicate || second.any_duplicate,
        dispatched_undecryptable: first.dispatched_undecryptable
            || second.dispatched_undecryptable,
    }
}

/// The batch after its first step.
pub open spec fn started(
    payloads: Seq<PayloadView>,
    encryption_jid: JidView,
    sender: JidView,
) -> BatchView {
    fresh(payloads, encryption_jid, sender).advanced(0).0
}

impl BatchView {
    /// Whether each of some events belongs to what the batch waits for when it comes.
    pub open spec fn fits(self, events: Seq<SessionEvent>) -> bool {
        forall|i: int|
            0 <= i < events.len() ==> self.run(events.take(i)).0.expects(#[trigger] events[i])
    }
}

/// The batch on more payloads, of which the first ones are done with.
spec fn behind(batch: BatchView, first: Seq<PayloadView>, result: SessionResult) -> BatchView {
    BatchView {
        payloads: first + batch.payloads,
        at: first.len() + batch.at,
        result: joined(result, batch.result),
        ..batch
    }
}

proof fn next_parsable_behind(first: Seq<PayloadView>, second: Seq<PayloadView>, from: nat)
    ensures
        next_parsable(first + second, first.len() + from) == first.len() + if from <= second.len() {
            next_parsable(second, from)
        } else {
            second.len()
        },
    decreases second.len() - from,
{
    if from < second.len() {
        assert((first + second)[(first.len() + from) as int] == second[from as int]);
        if !parses(second[from as int]) {
            next_parsable_behind(first, second, from + 1);
        }
    }
}

proof fn next_parsable_in_front(first: Seq<PayloadView>, second: Seq<PayloadView>, from: nat)
    requires
        from <= first.len(),
    ensures
        next_parsable(first + second, from) == (if next_parsable(first, from) < first.len() {
            next_parsable(first, from)
        } else {
            first.len() + next_parsable(second, 0)
        }),
    decreases first.len() - from,
{
    if from < first.len() {
        assert((first + second)[from as int] == first[from as int]);
        if !parses(first[from as int]) {
            next_parsable_in_front(first, second, from + 1);
        }
    } else {
        next_parsable_behind(first, second, 0);
    }
}

/// Where a payload stands has no bearing on how it is dealt with.
proof fn verdict_anywhere(
    phase: SessionPhase,
    event: SessionEvent,
    at: usize,
    elsewhere: usize,
    sender: SenderTraits,
)
    ensures
        match (verdict(phase, event, at, sender), verdict(phase, event, elsewhere, sender)) {
            (Verdict::Ignored, Verdict::Ignored) => true,
            (Verdict::Await(_, here), Verdict::Await(_, there)) => here == there,
            (Verdict::Settled(_, here), Verdict::Settled(_, there)) => here == there,
            _ => false,
        },
{
}

/// A batch with more payloads at its end, where `rest` is the batch on those alone.
spec fn ahead(batch: BatchView, rest: BatchView) -> BatchView {
    if batch.phase == SessionPhase::Finished {
        behind(rest, batch.payloads, batch.result)
    } else {
        BatchView { payloads: batch.payloads + rest.payloads, ..batch }
    }
}

/// A batch is on its first payload, or has none to try.
spec fn just_started(batch: BatchView) -> bool {
    &&& batch.at == next_parsable(batch.payloads, 0)
    &&& batch.phase == if batch.at < batch.payloads.len() {
        SessionPhase::FirstAttempt
    } else {
        SessionPhase::Finished
    }
    &&& batch.result == (SessionResult {
        any_success: false,
        any_duplicate: false,
        dispatched_undecryptable: false,
    })
}

/// A batch is finished exactly where no payload is left.
spec fn in_step(batch: BatchView) -> bool {
    &&& batch.at <= batch.payloads.len()
    &&& batch.phase == SessionPhase::Finished <==> batch.at == batch.payloads.len()
}

/// The way to the next payload is the same with more payloads at the end.
proof fn front_advances_alone(batch: BatchView, rest: BatchView, from: nat)
    requires
        from <= batch.payloads.len(),
        just_started(rest),
        rest.sender == batch.sender,
    ensures
        (BatchView { payloads: batch.payloads + rest.payloads, ..batch }).advanced(from).0 == ahead(
            batch.advanced(from).0,
            rest,
        ),
        in_step(batch.advanced(from).0),
{
    next_parsable_bounds(batch.payloads, from);
    next_parsable_bounds(rest.payloads, 0);
    next_parsable_in_front(batch.payloads, rest.payloads, from);
}

/// An event that the batch waits for does the same with more payloads at the end.
proof fn front_steps_alone(batch: BatchView, rest: BatchView, event: SessionEvent)
    requires
        in_step(batch),
        batch.expects(event),
        just_started(rest),
        rest.sender == batch.sender,
    ensures
        ahead(batch, rest).after(event).0 == ahead(batch.after(event).0, rest),
        in_step(batch.after(event).0),
        batch.after(event).0.payloads == batch.payloads,
        batch.after(event).0.sender == batch.sender,
{
    assert(batch.phase != SessionPhase::Finished);
    match verdict(batch.phase, event, batch.at as usize, batch.sender) {
        Verdict::Settled(_, end) => {
            let settled = BatchView { result: with_end(batch.result, end), ..batch };
            front_advances_alone(settled, rest, batch.at + 1);
        },
        Verdict::Await(_, phase) => {
            awaiting_is_unfinished(batch.phase, event, batch.at as usize, batch.sender);
        },
        Verdict::Ignored => {},
    }
}

/// A batch that waits for something is not finished.
proof fn awaiting_is_unfinished(
    phase: SessionPhase,
    event: SessionEvent,
    at: usize,
    sender: SenderTraits,
)
    ensures
        verdict(phase, event, at, sender) matches Verdict::Await(_, next) ==> next
            != SessionPhase::Finished,
{
}

/// The payloads at the front are dealt with as if there were no others.
proof fn front_goes_alone(batch: BatchView, rest: BatchView, events: Seq<SessionEvent>)
    requires
        in_step(batch),
        batch.fits(events),
        just_started(rest),
        rest.sender == batch.sender,
    ensures
        ahead(batch, rest).run(events).0 == ahead(batch.run(events).0, rest),
        in_step(batch.run(events).0),
        batch.run(events).0.payloads == batch.payloads,
        batch.run(events).0.sender == batch.sender,
    decreases events.len(),
{
    if events.len() > 0 {
        let front = events.drop_last();
        assert forall|i: int| 0 <= i < front.len() implies batch.run(front.take(i)).0.expects(
            #[trigger] front[i],
        ) by {
            assert(front.take(i) =~= events.take(i));
            assert(front[i] == events[i]);
        }
        front_goes_alone(batch, rest, front);
        assert(events.take(events.len() - 1) =~= front);
        assert(batch.run(front).0.expects(events[events.len() - 1]));
        front_steps_alone(batch.run(front).0, rest, events.last());
    }
}

/// The way to the next payload is the same with payloads in front that are done with.
proof fn back_advances_alone(
    batch: BatchView,
    first: Seq<PayloadView>,
    result: SessionResult,
    from: nat,
)
    requires
        from <= batch.payloads.len(),
    ensures
        behind(batch, first, result).advanced(first.len() + from).0 == behind(
            batch.advanced(from).0,
            first,
            result,
        ),
        in_step(batch.advanced(from).0),
{
    next_parsable_bounds(batch.payloads, from);
    next_parsable_behind(first, batch.payloads, from);
}

/// An event does the same with payloads in front that are done with.
proof fn back_steps_alone(
    batch: BatchView,
    first: Seq<PayloadView>,
    result: SessionResult,
    event: SessionEvent,
)
    requires
        in_step(batch),
    ensures
        behind(batch, first, result).after(event).0 == behind(batch.after(event).0, first, result),
        in_step(batch.after(event).0),
        batch.after(event).0.payloads == batch.payloads,
{
    let there = behind(batch, first, result);
    let at = batch.at as usize;
    verdict_anywhere(batch.phase, event, at, there.at as usize, batch.sender);
    awaiting_is_unfinished(batch.phase, event, at, batch.sender);
    match verdict(batch.phase, event, at, batch.sender) {
        Verdict::Settled(_, end) => {
            let settled = BatchView { result: with_end(batch.result, end), ..batch };
            assert(behind(settled, first, result).result == with_end(there.result, end));
            back_advances_alone(settled, first, result, batch.at + 1);
        },
        _ => {},
    }
}

/// The payloads at the end are dealt with as if there were none in front.
proof fn back_goes_alone(
    batch: BatchView,
    first: Seq<PayloadView>,
    result: SessionResult,
    events: Seq<SessionEvent>,
)
    requires
        in_step(batch),
    ensures
        behind(batch, first, result).run(events).0 == behind(batch.run(events).0, first, result),
        in_step(batch.run(events).0),
    decreases events.len(),
{
    if events.len() > 0 {
        back_goes_alone(batch, first, result, events.drop_last());
        back_steps_alone(batch.run(events.drop_last()).0, first, result, events.last());
    }
}

proof fn runs_join(batch: BatchView, first: Seq<SessionEvent>, second: Seq<SessionEvent>)
    ensures
        batch.run(first + second).0 == batch.run(first).0.run(second).0,
    decreases second.len(),
{
    if second.len() == 0 {
        assert(first + second =~= first);
    } else {
        assert((first + second).drop_last() =~= first + second.drop_last());
        runs_join(batch, first, second.drop_last());
    }
}

/// A batch over two lists of payloads comes to the results of the two batches taken together, in
/// the same state: a payload that cannot be read neither stops those after it nor takes anything
/// back. No payloads come to nothing.
pub proof fn batches_join(
    first: Seq<PayloadView>,
    second: Seq<PayloadView>,
    encryption_jid: JidView,
    sender: JidView,
    first_events: Seq<SessionEvent>,
    second_events: Seq<SessionEvent>,
)
    requires
        started(first, encryption_jid, sender).fits(first_events),
        started(first, encryption_jid, sender).run(first_events).0.phase == SessionPhase::Finished,
    ensures
        ({
            let one = started(first, encryption_jid, sender).run(first_events).0;
            let other = started(second, encryption_jid, sender).run(second_events).0;
            let both = started(first + second, encryption_jid, sender).run(
                first_events + second_events,
            ).0;
            &&& both.result == joined(one.result, other.result)
            &&& both.phase == other.phase
        }),
        ({
            let none = started(Seq::empty(), encryption_jid, sender);
            &&& none.phase == SessionPhase::Finished
            &&& none.result == (SessionResult {
                any_success: false,
                any_duplicate: false,
                dispatched_undecryptable: false,
            })
        }),
{
    let front = started(first, encryption_jid, sender);
    let rest = started(second, encryption_jid, sender);
    let both = started(first + second, encryption_jid, sender);
    let one = front.run(first_events).0;
    next_parsable_bounds(second, 0);
    front_advances_alone(fresh(first, encryption_jid, sender), rest, 0);
    assert(both == ahead(front, rest));
    front_goes_alone(front, rest, first_events);
    runs_join(both, first_events, second_events);
    back_goes_alone(rest, first, one.result, second_events);
}

/// Only well-formed payloads are tried, and no well-formed payload is passed over.
pub proof fn payloads_in_order(batch: BatchView, from: nat)
    requires
        from <= batch.payloads.len(),
    ensures
        ({
            let at = batch.advanced(from).0.at;
            &&& from <= at <= batch.payloads.len()
            &&& at < batch.payloads.len() ==> parses(batch.payloads[at as int])
            &&& forall|i: int| from <= i < at ==> !parses(#[trigger] batch.payloads[i])
        }),
{
    next_parsable_bounds(batch.payloads, from);
}

/// Whether a batch does some work on the payload at hand and then leaves it: it tries the next
/// well-formed payload, or is finished where there is none.
pub open spec fn leaves_payload(
    batch: BatchView,
    event: SessionEvent,
    work: Seq<SessionAction>,
    result: SessionResult,
) -> bool {
    let (next, actions) = batch.after(event);
    &&& next.payloads == batch.payloads
    &&& next.sender == batch.sender
    &&& next.result == result
    &&& batch.at < next.at <= batch.payloads.len()
    &&& forall|i: int| batch.at < i < next.at ==> !parses(#[trigger] batch.payloads[i])
    &&& if next.at < batch.payloads.len() {
        &&& parses(batch.payloads[next.at as int])
        &&& next.phase == SessionPhase::FirstAttempt
        &&& actions == work.push(SessionAction::Decrypt(next.at as usize))
    } else {
        &&& next.phase == SessionPhase::Finished
        &&& actions == work
    }
}

/// Whether a batch does some work and then waits for something about the payload at hand.
pub open spec fn waits_for(
    batch: BatchView,
    event: SessionEvent,
    work: Seq<SessionAction>,
    phase: SessionPhase,
) -> bool {
    batch.after(event) == (BatchView { phase, ..batch }, work)
}

/// A payload that settles is left for the next one.
proof fn settling_leaves_payload(
    batch: BatchView,
    event: SessionEvent,
    work: Seq<SessionAction>,
    end: PayloadEnd,
)
    requires
        batch.wf(),
        batch.at < batch.payloads.len(),
        verdict(batch.phase, event, batch.at as usize, batch.sender) == Verdict::Settled(work, end),
    ensures
        leaves_payload(batch, event, work, with_end(batch.result, end)),
{
    next_parsable_bounds(batch.payloads, batch.at + 1);
    let (next, actions) = batch.after(event);
    if next.at < batch.payloads.len() {
        assert(actions =~= work.push(SessionAction::Decrypt(next.at as usize)));
    } else {
        assert(actions =~= work);
    }
}

/// Whatever attempt a plaintext comes from, and whoever sent it, it is handed on, once, and the
/// batch counts a success. Nothing is reported. Only a sender whose identity was renewed on the
/// way gets a token, and only a person.
pub proof fn plaintexts_are_handed_on(batch: BatchView)
    requires
        batch.wf(),
        batch.phase is FirstAttempt || batch.phase is SecondAttempt || batch.phase
            is MigratedAttempt,
    ensures
        ({
            let at = batch.at as usize;
            let renewed = batch.phase is SecondAttempt || batch.phase matches
                SessionPhase::MigratedAttempt(_, true);
            leaves_payload(
                batch,
                SessionEvent::Decrypted(DecryptOutcome::Plaintext),
                if renewed && batch.sender.gets_token {
                    seq![SessionAction::HandlePlaintext(at), SessionAction::ReissueToken]
                } else {
                    seq![SessionAction::HandlePlaintext(at)]
                },
                SessionResult { any_success: true, ..batch.result },
            )
        }),
{
    let at = batch.at as usize;
    let event = SessionEvent::Decrypted(DecryptOutcome::Plaintext);
    let handled = seq![SessionAction::HandlePlaintext(at)];
    assert(handled + Seq::<SessionAction>::empty() =~= handled);
    assert(handled + seq![SessionAction::ReissueToken] =~= seq![
        SessionAction::HandlePlaintext(at),
        SessionAction::ReissueToken,
    ]);
    match verdict(batch.phase, event, at, batch.sender) {
        Verdict::Settled(work, end) => {
            settling_leaves_payload(batch, event, work, end);
        },
        _ => {},
    }
}

/// Nothing but a plaintext is handed on, and it is that of the payload at hand.
pub proof fn only_plaintexts_are_handed_on(batch: BatchView, event: SessionEvent, index: usize)
    requires
        batch.wf(),
        batch.after(event).1.contains(SessionAction::HandlePlaintext(index)),
    ensures
        event == SessionEvent::Decrypted(DecryptOutcome::Plaintext),
        index == batch.at,
        batch.phase is FirstAttempt || batch.phase is SecondAttempt || batch.phase
            is MigratedAttempt,
{
    let actions = batch.after(event).1;
    let i = actions.index_of(SessionAction::HandlePlaintext(index));
    assert(actions[i] == SessionAction::HandlePlaintext(index));
}

/// A payload that was read before is passed over. After a renewed identity the sender still gets
/// a token; after the sessions were moved, the payload counts as read.
pub proof fn duplicates_are_passed_over(batch: BatchView)
    requires
        batch.wf(),
        batch.phase is FirstAttempt || batch.phase is SecondAttempt || batch.phase
            is MigratedAttempt,
    ensures
        ({
            let renewed = batch.phase is SecondAttempt || batch.phase matches
                SessionPhase::MigratedAttempt(_, true);
            leaves_payload(
                batch,
                SessionEvent::Decrypted(DecryptOutcome::Duplicate),
                if renewed && batch.sender.gets_token {
                    seq![SessionAction::ReissueToken]
                } else {
                    Seq::empty()
                },
                if batch.phase is MigratedAttempt {
                    SessionResult { any_success: true, ..batch.result }
                } else {
                    SessionResult { any_duplicate: true, ..batch.result }
                },
            )
        }),
{
    let event = SessionEvent::Decrypted(DecryptOutcome::Duplicate);
    match verdict(batch.phase, event, batch.at as usize, batch.sender) {
        Verdict::Settled(work, end) => {
            settling_leaves_payload(batch, event, work, end);
        },
        _ => {},
    }
}

/// A session that is out of step is forgotten, and the sender is asked again, for the reason that
/// the attempt gave. An error of another kind costs nothing but the payload.
pub proof fn stale_sessions_are_forgotten(batch: BatchView)
    requires
        batch.wf(),
        batch.phase == SessionPhase::FirstAttempt,
    ensures
        leaves_payload(
            batch,
            SessionEvent::Decrypted(DecryptOutcome::BadMac),
            seq![
                SessionAction::DeleteSession,
                SessionAction::ReportFailure(RetryReason::BadMac),
            ],
            SessionResult { dispatched_undecryptable: true, ..batch.result },
        ),
        leaves_payload(
            batch,
            SessionEvent::Decrypted(DecryptOutcome::InvalidMessage),
            seq![
                SessionAction::DeleteSession,
                SessionAction::ReportFailure(RetryReason::InvalidMessage),
            ],
            SessionResult { dispatched_undecryptable: true, ..batch.result },
        ),
        leaves_payload(
            batch,
            SessionEvent::Decrypted(DecryptOutcome::Other),
            Seq::empty(),
            batch.result,
        ),
{
    settling_leaves_payload(
        batch,
        SessionEvent::Decrypted(DecryptOutcome::Other),
        Seq::empty(),
        PayloadEnd::Dropped,
    );
    settling_leaves_payload(
        batch,
        SessionEvent::Decrypted(DecryptOutcome::BadMac),
        seq![SessionAction::DeleteSession, SessionAction::ReportFailure(RetryReason::BadMac)],
        PayloadEnd::Failed,
    );
    settling_leaves_payload(
        batch,
        SessionEvent::Decrypted(DecryptOutcome::InvalidMessage),
        seq![
            SessionAction::DeleteSession,
            SessionAction::ReportFailure(RetryReason::InvalidMessage),
        ],
        PayloadEnd::Failed,
    );
}

/// An identity that is not trusted is renewed: the old one is deleted, and once that is written
/// the same payload is tried again. Where it cannot be written, the payload is dropped.
pub proof fn identities_are_renewed(batch: BatchView)
    requires
        batch.wf(),
    ensures
        batch.phase == SessionPhase::FirstAttempt ==> waits_for(
            batch,
            SessionEvent::Decrypted(DecryptOutcome::UntrustedIdentity),
            seq![SessionAction::DeleteIdentity],
            SessionPhase::IdentityDeletion,
        ),
        batch.phase == SessionPhase::IdentityDeletion ==> waits_for(
            batch,
            SessionEvent::IdentityFlushed(true),
            seq![SessionAction::Decrypt(batch.at as usize)],
            SessionPhase::SecondAttempt,
        ),
        batch.phase == SessionPhase::IdentityDeletion ==> leaves_payload(
            batch,
            SessionEvent::IdentityFlushed(false),
            Seq::empty(),
            batch.result,
        ),
{
    if batch.phase == SessionPhase::IdentityDeletion {
        settling_leaves_payload(
            batch,
            SessionEvent::IdentityFlushed(false),
            Seq::empty(),
            PayloadEnd::Dropped,
        );
    }
}

/// A sender without a session, or whose key is not known, may have sessions under its phone
/// number: a LID is looked up, the sessions are moved, and the same payload is tried again. What
/// then cannot be read is reported for the first reason; so it is at once for other senders, and
/// where no phone number is known. After a renewed identity any other failure is reported too.
pub proof fn missing_sessions_are_looked_for(batch: BatchView, outcome: DecryptOutcome)
    requires
        batch.wf(),
        batch.phase is FirstAttempt && (outcome is SessionNotFound || outcome is InvalidPreKeyId)
            || batch.phase is SecondAttempt && outcome is InvalidPreKeyId,
    ensures
        ({
            let event = SessionEvent::Decrypted(outcome);
            let renewed = batch.phase is SecondAttempt;
            let reason = if outcome is SessionNotFound {
                RetryReason::NoSession
            } else {
                RetryReason::InvalidKeyId
            };
            let report = if renewed && batch.sender.gets_token {
                seq![SessionAction::ReportFailure(reason), SessionAction::ReissueToken]
            } else {
                seq![SessionAction::ReportFailure(reason)]
            };
            let reported = SessionResult { dispatched_undecryptable: true, ..batch.result };
            let asked = batch.after(event).0;
            let moved = asked.after(SessionEvent::PhoneNumberKnown(true)).0;
            if batch.sender.is_lid {
                &&& waits_for(batch, event, seq![SessionAction::LookUpPhoneNumber], asked.phase)
                &&& waits_for(
                    asked,
                    SessionEvent::PhoneNumberKnown(true),
                    seq![SessionAction::MigrateSessions, SessionAction::Decrypt(batch.at as usize)],
                    moved.phase,
                )
                &&& moved.phase is MigratedAttempt
                &&& leaves_payload(asked, SessionEvent::PhoneNumberKnown(false), report, reported)
                &&& forall|again: DecryptOutcome|
                    !(again is Plaintext) && !(again is Duplicate) ==> #[trigger] leaves_payload(
                        moved,
                        SessionEvent::Decrypted(again),
                        report,
                        reported,
                    )
            } else {
                leaves_payload(batch, event, report, reported)
            }
        }),
{
    let event = SessionEvent::Decrypted(outcome);
    let renewed = batch.phase is SecondAttempt;
    let reason = if outcome is SessionNotFound {
        RetryReason::NoSession
    } else {
        RetryReason::InvalidKeyId
    };
    let report = if renewed && batch.sender.gets_token {
        seq![SessionAction::ReportFailure(reason), SessionAction::ReissueToken]
    } else {
        seq![SessionAction::ReportFailure(reason)]
    };
    report_with_token(reason, renewed, batch.sender);
    if batch.sender.is_lid {
        let asked = batch.after(event).0;
        let moved = asked.after(SessionEvent::PhoneNumberKnown(true)).0;
        assert(asked.phase == SessionPhase::NumberLookup(reason, renewed));
        assert(moved.phase == SessionPhase::MigratedAttempt(reason, renewed));
        settling_leaves_payload(
            asked,
            SessionEvent::PhoneNumberKnown(false),
            report,
            PayloadEnd::Failed,
        );
        assert forall|again: DecryptOutcome|
            !(again is Plaintext) && !(again is Duplicate) implies #[trigger] leaves_payload(
            moved,
            SessionEvent::Decrypted(again),
            report,
            SessionResult { dispatched_undecryptable: true, ..batch.result },
        ) by {
            settling_leaves_payload(
                moved,
                SessionEvent::Decrypted(again),
                report,
                PayloadEnd::Failed,
            );
        }
    } else {
        settling_leaves_payload(batch, event, report, PayloadEnd::Failed);
    }
}

proof fn report_with_token(reason: RetryReason, renewed: bool, sender: SenderTraits)
    ensures
        seq![SessionAction::ReportFailure(reason)] + token(renewed, sender) == (if renewed
            && sender.gets_token {
            seq![SessionAction::ReportFailure(reason), SessionAction::ReissueToken]
        } else {
            seq![SessionAction::ReportFailure(reason)]
        }),
{
    assert(seq![SessionAction::ReportFailure(reason)] + token(renewed, sender) =~= (if renewed
        && sender.gets_token {
        seq![SessionAction::ReportFailure(reason), SessionAction::ReissueToken]
    } else {
        seq![SessionAction::ReportFailure(reason)]
    }));
}

/// A payload that cannot be read with a renewed identity either is reported as such, and the
/// sender gets a token, if it is a person.
pub proof fn failures_after_renewal_are_reported(batch: BatchView, outcome: DecryptOutcome)
    requires
        batch.wf(),
        batch.phase == SessionPhase::SecondAttempt,
        !(outcome is Plaintext) && !(outcome is Duplicate) && !(outcome is InvalidPreKeyId),
    ensures
        leaves_payload(
            batch,
            SessionEvent::Decrypted(outcome),
            if batch.sender.gets_token {
                seq![
                    SessionAction::ReportFailure(RetryReason::InvalidKey),
                    SessionAction::ReissueToken,
                ]
            } else {
                seq![SessionAction::ReportFailure(RetryReason::InvalidKey)]
            },
            SessionResult { dispatched_undecryptable: true, ..batch.result },
        ),
{
    report_with_token(RetryReason::InvalidKey, true, batch.sender);
    settling_leaves_payload(
        batch,
        SessionEvent::Decrypted(outcome),
        seq![SessionAction::ReportFailure(RetryReason::InvalidKey)] + token(true, batch.sender),
        PayloadEnd::Failed,
    );
}

/// An event that nobody waits for changes nothing and leads to nothing.
pub proof fn stray_events_are_ignored(batch: BatchView, event: SessionEvent)
    requires
        event is Decrypted ==> !(batch.phase is FirstAttempt) && !(batch.phase is SecondAttempt)
            && !(batch.phase is MigratedAttempt),
        event is IdentityFlushed ==> !(batch.phase is IdentityDeletion),
        event is PhoneNumberKnown ==> !(batch.phase is NumberLookup),
    ensures
        batch.after(event) == (batch, Seq::<SessionAction>::empty()),
{
}

/// A batch begins with the first well-formed payload, with nothing found yet. A payload is well
/// formed by the reading that its type calls for. Who is addressed by a LID may have sessions
/// elsewhere; tokens are for people, not for bots or the status feed.
pub proof fn batches_begin_with_first_payload(
    payloads: Seq<PayloadView>,
    encryption_jid: JidView,
    sender: JidView,
)
    ensures
        ({
            let (batch, actions) = fresh(payloads, encryption_jid, sender).advanced(0);
            &&& batch.payloads == payloads
            &&& batch.at <= payloads.len()
            &&& forall|i: int| 0 <= i < batch.at ==> !parses(#[trigger] payloads[i])
            &&& if batch.at < payloads.len() {
                &&& parses(payloads[batch.at as int])
                &&& batch.phase == SessionPhase::FirstAttempt
                &&& actions == seq![SessionAction::Decrypt(batch.at as usize)]
            } else {
                &&& batch.phase == SessionPhase::Finished
                &&& actions == Seq::<SessionAction>::empty()
            }
            &&& !batch.result.any_success
            &&& !batch.result.any_duplicate
            &&& !batch.result.dispatched_undecryptable
            &&& batch.sender.is_lid <==> encryption_jid.server == Server::Lid
            &&& batch.sender.gets_token <==> !sender.bot() && !sender.status_broadcast()
        }),
        forall|payload: PayloadView|
            payload.enc_type == EncType::PreKeyMessage ==> #[trigger] parses(payload)
                == is_prekey_message(payload.ciphertext),
        forall|payload: PayloadView|
            payload.enc_type == EncType::Message ==> #[trigger] parses(payload)
                == is_signal_message(payload.ciphertext),
{
    next_parsable_bounds(payloads, 0);
}

} // verus!
