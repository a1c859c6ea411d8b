//! Inbound messages on their way to the application.

use vstd::prelude::*;
use crate::message::retry::{
    MessageKeys, RetryCount, RetryCounts, remembered, remembering,
};
use crate::jid::JidView;
use crate::node::Node;
use crate::text::same;
use crate::text_map::TextMap;
use crate::types::{DecryptFailMode, MessageInfo, UnavailableType, UndecryptableMessage};

verus! {

/// A message that the application has not confirmed yet.
pub struct PendingInboundCommit {
    pub info: MessageInfo,
    /// The application has the message safe.
    pub committed: bool,
    /// The sender is to be told that the message has arrived.
    pub send_delivery_receipt: bool,
}

/// What is left to do for a message stanza whose payloads were dealt with.
pub enum FinishStep {
    /// Wait until the application confirms the message.
    Wait,
    /// Tell the sender, where that is due, and then acknowledge the stanza.
    Acknowledge { receipt: Option<MessageInfo> },
}

/// The messages between the connection and the application.
pub struct Inbound {
    /// Message stanzas are taken in.
    pub accepting: bool,
    /// The identifiers of the stanzas that were taken in and are not done with.
    pub under_way: Vec<Option<String>>,
    /// The messages that were handed to the application, by identifier.
    pub commits: TextMap<PendingInboundCommit>,
    /// How often messages were asked for again.
    pub retry_counts: RetryCounts,
    /// The messages that were reported as undecryptable.
    pub reported: MessageKeys,
}

/// The identifier of a stanza, which may be missing.
pub open spec fn id_view(id: Option<String>) -> Option<Seq<char>> {
    match id {
        Some(id) => Some(id@),
        None => None,
    }
}

/// The identifiers of a list of stanzas.
pub open spec fn id_views(ids: Seq<Option<String>>) -> Seq<Option<Seq<char>>> {
    ids.map_values(|id: Option<String>| id_view(id))
}

/// A list of stanzas without the last one of an identifier.
pub open spec fn without_one(ids: Seq<Option<Seq<char>>>, id: Option<Seq<char>>) -> Seq<
    Option<Seq<char>>,
>
    decreases ids.len(),
{
    if ids.len() == 0 {
        ids
    } else if ids.last() == id {
        ids.drop_last()
    } else {
        without_one(ids.drop_last(), id).push(ids.last())
    }
}

proof fn without_one_removes(ids: Seq<Option<Seq<char>>>, id: Option<Seq<char>>, at: int)
    requires
        0 <= at < ids.len(),
        ids[at] == id,
        forall|j: int| at < j < ids.len() ==> #[trigger] ids[j] != id,
    ensures
        without_one(ids, id) == ids.remove(at),
    decreases ids.len(),
{
    if at < ids.len() - 1 {
        without_one_removes(ids.drop_last(), id, at);
        assert(ids.drop_last().remove(at).push(ids.last()) =~= ids.remove(at));
    } else {
        assert(ids.drop_last() =~= ids.remove(at));
    }
}

proof fn without_one_keeps(ids: Seq<Option<Seq<char>>>, id: Option<Seq<char>>)
    requires
        !ids.contains(id),
    ensures
        without_one(ids, id) == ids,
    decreases ids.len(),
{
    if ids.len() > 0 {
        assert(ids[ids.len() - 1] == ids.last());
        if ids.drop_last().contains(id) {
            let j = ids.drop_last().index_of(id);
            assert(ids[j] == id);
        }
        without_one_keeps(ids.drop_last(), id);
        assert(ids.drop_last().push(ids.last()) =~= ids);
    }
}

proof fn others_stay(
    ids: Seq<Option<Seq<char>>>,
    id: Option<Seq<char>>,
    other: Option<Seq<char>>,
)
    requires
        id != other,
        ids.contains(other),
    ensures
        without_one(ids, id).contains(other),
    decreases ids.len(),
{
    let front = ids.drop_last();
    let j = ids.index_of(other);
    if ids.last() == id {
        assert(front[j] == other);
    } else {
        let shorter = without_one(front, id);
        let rest = shorter.push(ids.last());
        if j < front.len() {
            assert(front[j] == other);
            others_stay(front, id, other);
            let k = shorter.index_of(other);
            assert(rest[k] == other);
        } else {
            assert(rest[rest.len() - 1] == other);
        }
    }
}

/// The messages that wait for the application's word, after one more was handed to it. One that
/// waits already stays as it is.
pub open spec fn registered(
    commits: Map<Seq<char>, PendingInboundCommit>,
    info: MessageInfo,
    send_delivery_receipt: bool,
) -> Map<Seq<char>, PendingInboundCommit> {
    if commits.dom().contains(info.id@) {
        commits
    } else {
        commits.insert(
            info.id@,
            PendingInboundCommit { info, committed: false, send_delivery_receipt },
        )
    }
}

/// The messages that wait for the application's word, after it has given it for one of them.
pub open spec fn confirmed(commits: Map<Seq<char>, PendingInboundCommit>, id: Seq<char>) -> Map<
    Seq<char>,
    PendingInboundCommit,
> {
    if commits.dom().contains(id) {
        commits.insert(id, PendingInboundCommit { committed: true, ..commits[id] })
    } else {
        commits
    }
}

/// What happens to the messages between the connection and the application.
pub enum InboundEvent {
    /// A stanza is taken in.
    Accept(Option<Seq<char>>),
    /// A message is handed to the application.
    HandOver { info: MessageInfo, send_delivery_receipt: bool },
    /// The application has a message safe.
    Confirm(Seq<char>),
    /// The payloads of a stanza were dealt with.
    Finish(Option<Seq<char>>),
    /// A stanza is given up: it is not acknowledged, and the server sends it again.
    GiveUp(Option<Seq<char>>),
    /// No more stanzas are taken in.
    Quiesce,
}

/// The messages between the connection and the application, as mathematics.
pub struct InboundFlow {
    pub accepting: bool,
    pub under_way: Seq<Option<Seq<char>>>,
    pub commits: Map<Seq<char>, PendingInboundCommit>,
}

impl InboundFlow {
    /// Whether a stanza's message waits for the application's word.
    pub open spec fn waits(self, id: Option<Seq<char>>) -> bool {
        id is Some && self.commits.dom().contains(id->0) && !self.commits[id->0].committed
    }

    /// The messages after an event.
    pub open spec fn after(self, event: InboundEvent) -> InboundFlow {
        match event {
            InboundEvent::Accept(id) => InboundFlow { under_way: self.under_way.push(id), ..self },
            InboundEvent::HandOver { info, send_delivery_receipt } => InboundFlow {
                commits: registered(self.commits, info, send_delivery_receipt),
                ..self
            },
            InboundEvent::Confirm(id) => InboundFlow {
                commits: confirmed(self.commits, id),
                ..self
            },
            InboundEvent::Finish(id) => if self.waits(id) {
                self
            } else {
                InboundFlow {
                    under_way: without_one(self.under_way, id),
                    commits: match id {
                        Some(id) => self.commits.remove(id),
                        None => self.commits,
                    },
                    ..self
                }
            },
            InboundEvent::GiveUp(id) => InboundFlow {
                under_way: without_one(self.under_way, id),
                ..self
            },
            InboundEvent::Quiesce => InboundFlow { accepting: false, ..self },
        }
    }

    /// The messages after a run of events.
    pub open spec fn run(self, events: Seq<InboundEvent>) -> InboundFlow
        decreases events.len(),
    {
        if events.len() == 0 {
            self
        } else {
            self.run(events.drop_last()).after(events.last())
        }
    }

    /// Every stanza that was taken in is done with.
    pub open spec fn quiescent(self) -> bool {
        self.under_way.len() == 0
    }

    /// Whether a step is the one for a stanza whose payloads were dealt with: if the application
    /// was handed its message, it must have confirmed it first. The sender is told where the
    /// application was handed the message and that was asked for.
    pub open spec fn is_finish_step(self, id: Option<Seq<char>>, step: FinishStep) -> bool {
        let handed_over = id is Some && self.commits.dom().contains(id->0);
        match step {
            FinishStep::Wait => self.waits(id),
            FinishStep::Acknowledge { receipt } => !self.waits(id) && match receipt {
                Some(info) => handed_over && self.commits[id->0].send_delivery_receipt && info
                    == self.commits[id->0].info,
                None => !handed_over || !self.commits[id->0].send_delivery_receipt,
            },
        }
    }
}

impl Inbound {
    /// What of the messages decides when they are acknowledged.
    pub open spec fn flow(self) -> InboundFlow {
        InboundFlow {
            accepting: self.accepting,
            under_way: id_views(self.under_way@),
            commits: self.commits@,
        }
    }

    /// No messages yet, given how long retries and reports are remembered.
    pub fn new(retry_counts_lifetime_ms: u64, reported_lifetime_ms: u64) -> (r: Inbound)
        ensures
            r.is_new(retry_counts_lifetime_ms, reported_lifetime_ms),
    {
        let under_way: Vec<Option<String>> = Vec::new();
        assert(id_views(under_way@) =~= Seq::<Option<Seq<char>>>::empty());
        Inbound {
            accepting: true,
            under_way,
            commits: TextMap::new(),
            retry_counts: RetryCounts::new(retry_counts_lifetime_ms),
            reported: MessageKeys::new(reported_lifetime_ms),
        }
    }

    /// Whether there are no messages yet, and retries and reports are remembered as given.
    pub open spec fn is_new(self, retry_counts_lifetime_ms: u64, reported_lifetime_ms: u64) -> bool {
        &&& self.flow() == (InboundFlow {
            accepting: true,
            under_way: Seq::empty(),
            commits: Map::empty(),
        })
        &&& self.retry_counts@ == Map::<Seq<char>, RetryCount>::empty()
        &&& self.retry_counts.lifetime() == retry_counts_lifetime_ms
        &&& self.reported@ == Set::<(JidView, Seq<char>, u64)>::empty()
        &&& self.reported.lifetime() == reported_lifetime_ms
    }

    /// Whether message stanzas are taken in.
    pub fn can_accept(&self) -> (r: bool)
        ensures
            r == self.accepting,
    {
        self.accepting
    }

    /// How many stanzas are under way.
    pub fn pending(&self) -> (r: usize)
        ensures
            r == self.flow().under_way.len(),
    {
        self.under_way.len()
    }

    /// Takes in a message stanza, which from now on is under way until it is finished.
    pub fn accept(&mut self, id: Option<String>)
        ensures
            final(self).flow() == old(self).flow().after(InboundEvent::Accept(id_view(id))),
            *final(self) == (Inbound { under_way: final(self).under_way, ..*old(self) }),
    {
        let ghost before = self.under_way@;
        self.under_way.push(id);
        assert(id_views(self.under_way@) =~= id_views(before).push(id_view(id)));
    }

    /// Counts a stanza of an identifier as done with.
    fn take_off(&mut self, id: &Option<String>)
        ensures
            id_views(final(self).under_way@) == without_one(
                id_views(old(self).under_way@),
                id_view(*id),
            ),
            *final(self) == (Inbound { under_way: final(self).under_way, ..*old(self) }),
    {
        let ghost views = id_views(self.under_way@);
        let mut i: usize = self.under_way.len();
        while i > 0
            invariant
                i <= self.under_way@.len(),
                *self == *old(self),
                views == id_views(self.under_way@),
                forall|j: int| i <= j < views.len() ==> #[trigger] views[j] != id_view(*id),
            decreases i,
        {
            i -= 1;
            let found = match (&self.under_way[i], id) {
                (Some(held), Some(id)) => same(held.as_str(), id.as_str()),
                (None, None) => true,
                _ => false,
            };
            assert(views[i as int] == id_view(self.under_way@[i as int]));
            if found {
                proof {
                    without_one_removes(views, id_view(*id), i as int);
                }
                let _ = self.under_way.remove(i);
                assert(id_views(self.under_way@) =~= views.remove(i as int));
                return ;
            }
        }
        proof {
            without_one_keeps(views, id_view(*id));
        }
    }

    /// Gives a stanza up: it is not acknowledged, and the server sends it again.
    pub fn give_up(&mut self, node: &Node)
        ensures
            final(self).flow() == old(self).flow().after(
                InboundEvent::GiveUp(node.attr_text("id"@)),
            ),
            *final(self) == (Inbound { under_way: final(self).under_way, ..*old(self) }),
    {
        let id = node.get_text("id");
        self.take_off(&id);
    }

    /// Whether every message that was taken in is done with.
    pub fn wait_for_inbound_quiescence(&self) -> (r: bool)
        ensures
            r == self.flow().quiescent(),
    {
        self.under_way.len() == 0
    }

    /// Notes that a message was handed to the application: it is acknowledged only after the
    /// application has confirmed it.
    pub fn register_inbound_commit(&mut self, info: &MessageInfo, send_delivery_receipt: bool)
        ensures
            final(self).flow() == old(self).flow().after(
                InboundEvent::HandOver { info: *info, send_delivery_receipt },
            ),
            *final(self) == (Inbound { commits: final(self).commits, ..*old(self) }),
    {
        if !self.commits.contains(info.id.as_str()) {
            self.commits.insert(
                info.id.as_str(),
                PendingInboundCommit {
                    info: info.clone(),
                    committed: false,
                    send_delivery_receipt,
                },
            );
        }
    }

    /// Takes in that the application has a message safe. Tells whether there is such a message.
    pub fn acknowledge_inbound_message(&mut self, id: &str) -> (r: bool)
        ensures
            r == old(self).commits@.dom().contains(id@),
            final(self).flow() == old(self).flow().after(InboundEvent::Confirm(id@)),
            *final(self) == (Inbound { commits: final(self).commits, ..*old(self) }),
    {
        match self.commits.remove(id) {
            Some(pending) => {
                self.commits.insert(
                    id,
                    PendingInboundCommit {
                        info: pending.info,
                        committed: true,
                        send_delivery_receipt: pending.send_delivery_receipt,
                    },
                );
                assert(self.commits@ =~= confirmed(old(self).commits@, id@));
                true
            },
            None => {
                assert(self.commits@ =~= old(self).commits@);
                false
            },
        }
    }

    /// Takes in no more message stanzas. Those that were taken in are processed to the end.
    pub fn begin_inbound_quiesce(&mut self)
        ensures
            final(self).flow() == old(self).flow().after(InboundEvent::Quiesce),
            *final(self) == (Inbound { accepting: false, ..*old(self) }),
    {
        self.accepting = false;
    }

    /// What is left to do for a stanza whose payloads were dealt with. One that is to be
    /// acknowledged is done with.
    pub fn finish_incoming_message(&mut self, node: &Node) -> (r: FinishStep)
        ensures
            old(self).flow().is_finish_step(node.attr_text("id"@), r),
            final(self).flow() == old(self).flow().after(
                InboundEvent::Finish(node.attr_text("id"@)),
            ),
            *final(self) == (Inbound {
                commits: final(self).commits,
                under_way: final(self).under_way,
                ..*old(self)
            }),
    {
        let id = node.get_text("id");
        let receipt = match &id {
            Some(text) => {
                match self.commits.get(text.as_str()) {
                    Some(pending) => {
                        if !pending.committed {
                            return FinishStep::Wait;
                        }
                    },
                    None => {},
                }
                match self.commits.remove(text.as_str()) {
                    Some(pending) => if pending.send_delivery_receipt {
                        Some(pending.info)
                    } else {
                        None
                    },
                    None => None,
                }
            },
            None => None,
        };
        self.take_off(&id);
        FinishStep::Acknowledge { receipt }
    }

    /// Reports a message as undecryptable, unless it was reported before and that is remembered:
    /// gives what the application is told.
    pub fn dispatch_undecryptable_event(
        &mut self,
        info: &MessageInfo,
        is_unavailable: bool,
        unavailable_type: UnavailableType,
        decrypt_fail_mode: DecryptFailMode,
        now: u64,
    ) -> (r: Option<UndecryptableMessage>)
        ensures
            r == (if remembered(
                old(self).reported@,
                old(self).reported.lifetime(),
                info.source.chat@,
                info.id@,
                now,
            ) {
                None
            } else {
                Some(
                    UndecryptableMessage {
                        info: *info,
                        is_unavailable,
                        unavailable_type,
                        decrypt_fail_mode,
                    },
                )
            }),
            final(self).reported@ == remembering(
                old(self).reported@,
                old(self).reported.lifetime(),
                info.source.chat@,
                info.id@,
                now,
            ),
            final(self).reported.lifetime() == old(self).reported.lifetime(),
            final(self).flow() == (if r is Some {
                old(self).flow().after(
                    InboundEvent::HandOver { info: *info, send_delivery_receipt: false },
                )
            } else {
                old(self).flow()
            }),
            *final(self) == (Inbound {
                commits: final(self).commits,
                reported: final(self).reported,
                ..*old(self)
            }),
    {
        if !self.reported.add(&info.source.chat, info.id.as_str(), now) {
            return None;
        }
        self.register_inbound_commit(info, false);
        Some(
            UndecryptableMessage {
                info: info.clone(),
                is_unavailable,
                unavailable_type,
                decrypt_fail_mode,
            },
        )
    }
}

/// A message is acknowledged only after the application has confirmed it: handing it over holds
/// its stanza back, and the application's word is what lets it go. The sender is told that it has
/// arrived exactly where that was asked for, which it is not for a message that could not be
/// read.
pub proof fn acknowledgement_waits_for_commit(before: InboundFlow, info: MessageInfo, receipt: bool)
    requires
        !before.commits.dom().contains(info.id@),
    ensures
        ({
            let id = Some(info.id@);
            let held = before.after(
                InboundEvent::HandOver { info, send_delivery_receipt: receipt },
            );
            let released = held.after(InboundEvent::Confirm(info.id@));
            &&& forall|step: FinishStep| #[trigger]
                held.is_finish_step(id, step) <==> step == FinishStep::Wait
            &&& held.after(InboundEvent::Finish(id)) == held
            &&& forall|step: FinishStep| #[trigger]
                released.is_finish_step(id, step) <==> step == (FinishStep::Acknowledge {
                    receipt: if receipt {
                        Some(info)
                    } else {
                        None
                    },
                })
            &&& released.after(InboundEvent::Finish(id)) == (InboundFlow {
                under_way: without_one(before.under_way, id),
                ..before
            })
        }),
{
    let held = before.after(InboundEvent::HandOver { info, send_delivery_receipt: receipt });
    let released = held.after(InboundEvent::Confirm(info.id@));
    assert(released.commits.remove(info.id@) =~= before.commits);
}

/// Whether an event may end the wait for the application's word on a message: the application
/// gives it, or the stanza is given up.
pub open spec fn ends_wait(event: InboundEvent, id: Seq<char>) -> bool {
    event == InboundEvent::Confirm(id) || event == InboundEvent::GiveUp(Some(id))
}

/// A stanza that is under way and whose message waits for the application's word stays under way,
/// whatever else happens: there is no quiescence before the application confirms the message, or
/// its stanza is given up for the server to send it again.
pub proof fn quiescence_waits_for_commits(
    flow: InboundFlow,
    id: Seq<char>,
    events: Seq<InboundEvent>,
)
    requires
        flow.under_way.contains(Some(id)),
        flow.waits(Some(id)),
        forall|i: int| 0 <= i < events.len() ==> !ends_wait(#[trigger] events[i], id),
    ensures
        flow.run(events).under_way.contains(Some(id)),
        flow.run(events).waits(Some(id)),
        !flow.run(events).quiescent(),
    decreases events.len(),
{
    if events.len() > 0 {
        let front = events.drop_last();
        let event = events.last();
        assert forall|i: int| 0 <= i < front.len() implies !ends_wait(#[trigger] front[i], id) by {
            assert(front[i] == events[i]);
        }
        quiescence_waits_for_commits(flow, id, front);
        assert(!ends_wait(events[events.len() - 1], id));
        let before = flow.run(front);
        match event {
            InboundEvent::Accept(other) => {
                let j = before.under_way.index_of(Some(id));
                assert(before.under_way.push(other)[j] == Some(id));
            },
            InboundEvent::Finish(other) => {
                if !before.waits(other) {
                    others_stay(before.under_way, other, Some(id));
                }
            },
            InboundEvent::GiveUp(other) => {
                others_stay(before.under_way, other, Some(id));
            },
            _ => {},
        }
    }
}

/// A message that was taken in and handed to the application waits for its word, unless that was
/// given before.
pub proof fn messages_handed_over_wait(flow: InboundFlow, info: MessageInfo, receipt: bool)
    requires
        flow.under_way.contains(Some(info.id@)),
        !flow.commits.dom().contains(info.id@),
    ensures
        ({
            let held = flow.after(
                InboundEvent::HandOver { info, send_delivery_receipt: receipt },
            );
            held.under_way.contains(Some(info.id@)) && held.waits(Some(info.id@))
        }),
{
}

/// Whether an event takes a stanza in.
pub open spec fn takes_in(event: InboundEvent) -> bool {
    event is Accept
}

/// Where no stanza is taken in, the stanzas under way only become fewer.
pub proof fn quiesced_inbound_only_drains(flow: InboundFlow, event: InboundEvent)
    requires
        !takes_in(event),
    ensures
        flow.after(event).under_way.len() <= flow.under_way.len(),
        flow.after(InboundEvent::Quiesce).after(event).accepting == false,
{
    match event {
        InboundEvent::Finish(id) => {
            without_one_is_shorter(flow.under_way, id);
        },
        InboundEvent::GiveUp(id) => {
            without_one_is_shorter(flow.under_way, id);
        },
        _ => {},
    }
}

proof fn without_one_is_shorter(ids: Seq<Option<Seq<char>>>, id: Option<Seq<char>>)
    ensures
        without_one(ids, id).len() == (if ids.contains(id) {
            ids.len() - 1
        } else {
            ids.len() as int
        }),
    decreases ids.len(),
{
    if ids.len() > 0 {
        let front = ids.drop_last();
        without_one_is_shorter(front, id);
        if ids.last() == id {
            assert(ids[ids.len() - 1] == id);
        } else if ids.contains(id) {
            let j = ids.index_of(id);
            assert(front[j] == id);
        } else if front.contains(id) {
            let j = front.index_of(id);
            assert(ids[j] == id);
        }
    }
}

/// A stanza that is finished, or given up, leaves exactly itself out of those under way.
pub proof fn finished_stanzas_are_done_with(flow: InboundFlow, id: Option<Seq<char>>)
    requires
        flow.under_way.contains(id),
    ensures
        !flow.waits(id) ==> flow.after(InboundEvent::Finish(id)).under_way.len()
            == flow.under_way.len() - 1,
        flow.after(InboundEvent::GiveUp(id)).under_way.len() == flow.under_way.len() - 1,
{
    without_one_is_shorter(flow.under_way, id);
}

/// Handing the same message over again changes nothing.
pub proof fn registering_twice_is_once(
    commits: Map<Seq<char>, PendingInboundCommit>,
    info: MessageInfo,
    first: bool,
    second: bool,
)
    ensures
        registered(registered(commits, info, first), info, second) == registered(
            commits,
            info,
            first,
        ),
{
}

/// A stanza that is done with leaves the others in their order: of several with the same
/// identifier, the one that came last.
pub proof fn stanzas_leave_one_by_one(
    ids: Seq<Option<Seq<char>>>,
    id: Option<Seq<char>>,
    other: Option<Seq<char>>,
)
    requires
        id != other,
    ensures
        without_one(Seq::empty(), id) == Seq::<Option<Seq<char>>>::empty(),
        without_one(ids.push(id), id) == ids,
        without_one(ids.push(other), id) == without_one(ids, id).push(other),
{
    assert(ids.push(id).drop_last() =~= ids);
    assert(ids.push(other).drop_last() =~= ids);
}

/// A stanza that is taken in is under way, behind those that came before. Handing a message over
/// and the application's word on it change nothing of what is under way.
pub proof fn stanzas_come_in_order(flow: InboundFlow, id: Option<Seq<char>>, event: InboundEvent)
    ensures
        flow.after(InboundEvent::Accept(id)).under_way == flow.under_way.push(id),
        flow.after(InboundEvent::Accept(id)).commits == flow.commits,
        event is HandOver || event is Confirm || event is Quiesce ==> flow.after(event).under_way
            == flow.under_way,
        event is GiveUp || event is Quiesce ==> flow.after(event).commits == flow.commits,
        event is Quiesce ==> !flow.after(event).accepting,
        !(event is Quiesce) ==> flow.after(event).accepting == flow.accepting,
        flow.quiescent() <==> flow.under_way =~= Seq::<Option<Seq<char>>>::empty(),
        !flow.after(InboundEvent::Accept(id)).quiescent(),
{
}

/// A message that is handed over is kept until the application's word, and the word on one message
/// says nothing of another. A word on a message that nobody was handed changes nothing.
pub proof fn words_are_on_one_message(
    flow: InboundFlow,
    info: MessageInfo,
    receipt: bool,
    other: Seq<char>,
)
    requires
        other != info.id@,
    ensures
        ({
            let held = flow.after(
                InboundEvent::HandOver { info, send_delivery_receipt: receipt },
            );
            let told = flow.after(InboundEvent::Confirm(info.id@));
            &&& held.commits.dom().contains(info.id@)
            &&& flow.commits.dom().contains(info.id@) ==> held == flow
            &&& !flow.commits.dom().contains(info.id@) ==> held.commits[info.id@] == (
            PendingInboundCommit { info, committed: false, send_delivery_receipt: receipt })
            &&& held.waits(Some(other)) == flow.waits(Some(other))
            &&& told.waits(Some(other)) == flow.waits(Some(other))
            &&& !told.waits(Some(info.id@))
            &&& !flow.commits.dom().contains(info.id@) ==> told == flow
            &&& flow.commits.dom().contains(info.id@) ==> {
                &&& told.commits[info.id@].committed
                &&& told.commits[info.id@].info == flow.commits[info.id@].info
                &&& told.commits[info.id@].send_delivery_receipt
                    == flow.commits[info.id@].send_delivery_receipt
            }
        }),
{
}

/// A stanza waits exactly where its message was handed to the application, which has not given its
/// word. Any other stanza is acknowledged at once; its sender is told exactly where its message was
/// handed over and that was asked for.
pub proof fn stanzas_are_finished_by_word(flow: InboundFlow, id: Seq<char>, step: FinishStep)
    ensures
        flow.is_finish_step(None, step) <==> step == (FinishStep::Acknowledge { receipt: None }),
        !flow.commits.dom().contains(id) ==> (flow.is_finish_step(Some(id), step) <==> step == (
        FinishStep::Acknowledge { receipt: None })),
        flow.commits.dom().contains(id) && !flow.commits[id].committed ==> (flow.is_finish_step(
            Some(id),
            step,
        ) <==> step == FinishStep::Wait),
        flow.commits.dom().contains(id) && flow.commits[id].committed
            && flow.commits[id].send_delivery_receipt ==> (flow.is_finish_step(Some(id), step)
            <==> step == (FinishStep::Acknowledge { receipt: Some(flow.commits[id].info) })),
        flow.commits.dom().contains(id) && flow.commits[id].committed
            && !flow.commits[id].send_delivery_receipt ==> (flow.is_finish_step(Some(id), step)
            <==> step == (FinishStep::Acknowledge { receipt: None })),
{
}

/// A message is forgotten when its stanza is finished, and not before; no other message is.
pub proof fn finished_messages_are_forgotten(flow: InboundFlow, id: Seq<char>, other: Seq<char>)
    requires
        other != id,
    ensures
        ({
            let after = flow.after(InboundEvent::Finish(Some(id)));
            &&& flow.waits(Some(id)) ==> after == flow
            &&& !flow.waits(Some(id)) ==> !after.commits.dom().contains(id)
            &&& after.commits.dom().contains(other) == flow.commits.dom().contains(other)
            &&& flow.commits.dom().contains(other) ==> after.commits[other] == flow.commits[other]
        }),
        flow.after(InboundEvent::Finish(None)).commits == flow.commits,
{
}

/// New messages are taken in, none is under way, nobody waits, and nothing is remembered.
pub proof fn inbound_starts_empty(inbound: Inbound, retries_ms: u64, reports_ms: u64)
    requires
        inbound.is_new(retries_ms, reports_ms),
    ensures
        inbound.accepting,
        inbound.flow().quiescent(),
        forall|id: Option<Seq<char>>| !(#[trigger] inbound.flow().waits(id)),
        forall|key: Seq<char>| !(#[trigger] inbound.retry_counts@.dom().contains(key)),
        forall|entry: (JidView, Seq<char>, u64)| !(#[trigger] inbound.reported@.contains(entry)),
        inbound.retry_counts.lifetime() == retries_ms,
        inbound.reported.lifetime() == reports_ms,
{
    assert(inbound.accepting == inbound.flow().accepting);
}

/// Identifiers are looked at as they are, and lists of them one by one. The flow of the messages is
/// that of the fields it is made of.
pub proof fn identifiers_are_looked_at_whole(
    id: Option<String>,
    ids: Seq<Option<String>>,
    inbound: Inbound,
)
    ensures
        id_view(id) is Some <==> id is Some,
        id matches Some(text) ==> id_view(id) == Some(text@),
        id_views(ids.push(id)) == id_views(ids).push(id_view(id)),
        id_views(Seq::empty()) == Seq::<Option<Seq<char>>>::empty(),
        inbound.flow().accepting == inbound.accepting,
        inbound.flow().under_way == id_views(inbound.under_way@),
        inbound.flow().commits == inbound.commits@,
{
    assert(id_views(ids.push(id)) =~= id_views(ids).push(id_view(id)));
    assert(id_views(Seq::empty()) =~= Seq::<Option<Seq<char>>>::empty());
}

} // verus!
