//! Message stanzas are put in line, one line for each chat.
//!
//! The messages of a chat are processed one after the other. So no message is read before the
//! one that sets up the session it needs.

use async_channel::{Receiver, Sender};
use vstd::prelude::*;
use crate::client::inbound::{Inbound, InboundEvent, InboundFlow, id_view};
use crate::jid::{Jid, JidView};
use crate::node::Node;
use crate::wire::Stanza;

verus! {

/// Processing one message should take no longer than this, in milliseconds.
pub const MAX_MESSAGE_DELAY_MS: u64 = 20_000;

/// How many messages of a chat may stand in line. A slow application cannot fill the memory:
/// what does not fit is not acknowledged, and the server sends it again.
pub const CHAT_LANE_QUEUE_CAPACITY: usize = 256;

/// The sending half of an `async_channel` channel.
#[verifier::external_type_specification]
#[verifier::external_body]
#[verifier::reject_recursive_types(T)]
pub struct ExSender<T>(async_channel::Sender<T>);

/// The receiving half of an `async_channel` channel.
#[verifier::external_type_specification]
#[verifier::external_body]
#[verifier::reject_recursive_types(T)]
pub struct ExReceiver<T>(async_channel::Receiver<T>);

/// How many stanzas the channel behind a sending half holds at the most.
pub uninterp spec fn lane_capacity(sender: async_channel::Sender<Stanza>) -> usize;

/// Whether a receiving half takes out what is put in through a sending half: the two are halves
/// of one channel.
pub uninterp spec fn receives_from(
    receiver: async_channel::Receiver<Stanza>,
    sender: async_channel::Sender<Stanza>,
) -> bool;

/// Calls `async_channel::bounded`: the channel holds at most as many stanzas as it was made for,
/// and the two halves belong together. A channel for none cannot be made.
#[verifier::external_body]
fn bounded_lane(capacity: usize) -> (r: (Sender<Stanza>, Receiver<Stanza>))
    requires
        capacity > 0,
    ensures
        lane_capacity(r.0) == capacity,
        receives_from(r.1, r.0),
{
    async_channel::bounded(capacity)
}

/// What came of putting a stanza in line.
#[derive(Clone, Copy, Debug, PartialEq, Eq, Structural)]
pub enum Enqueued {
    Taken,
    /// There is no room.
    Full,
    /// Nobody takes stanzas out any more.
    Closed,
}

/// What may come of offering a stanza, given by its bytes, to the channel behind a sending half.
pub uninterp spec fn send_outcomes(
    sender: async_channel::Sender<Stanza>,
    stanza: Seq<u8>,
) -> Set<Enqueued>;

/// Calls `async_channel::Sender::try_send`: the given stanza is offered to the given channel, and
/// the answer is one that this offer may have. Which one depends on how many stanzas are in the
/// channel at that moment and on whether its other half is still there, so no more is claimed.
#[verifier::external_body]
fn try_enqueue(lane: &Sender<Stanza>, stanza: Stanza) -> (r: Enqueued)
    ensures
        send_outcomes(*lane, stanza.bytes()).contains(r),
{
    match lane.try_send(stanza) {
        Ok(()) => Enqueued::Taken,
        Err(async_channel::TrySendError::Full(_)) => Enqueued::Full,
        Err(async_channel::TrySendError::Closed(_)) => Enqueued::Closed,
    }
}

/// Makes the line for a chat.
pub fn create_chat_lane_queue() -> (r: (Sender<Stanza>, Receiver<Stanza>))
    ensures
        lane_capacity(r.0) == CHAT_LANE_QUEUE_CAPACITY,
        receives_from(r.1, r.0),
{
    bounded_lane(CHAT_LANE_QUEUE_CAPACITY)
}

/// The line of one chat.
pub struct ChatLane {
    pub chat: Jid,
    pub sender: Sender<Stanza>,
}

/// The lines of all chats: each chat has one at the most, and there are no more than a given
/// number. Where one more would be too many, the oldest is given up.
pub struct ChatLanes {
    list: Vec<ChatLane>,
    capacity: usize,
}

impl View for ChatLanes {
    type V = Seq<JidView>;

    closed spec fn view(&self) -> Seq<JidView> {
        self.list@.map_values(|lane: ChatLane| lane.chat@)
    }
}

/// The chats that have lines, after one of them asked for its line.
pub open spec fn with_lane(chats: Seq<JidView>, capacity: nat, chat: JidView) -> Seq<JidView> {
    if chats.contains(chat) {
        chats
    } else if chats.len() >= capacity {
        chats.skip(1).push(chat)
    } else {
        chats.push(chat)
    }
}

impl ChatLanes {
    #[verifier::type_invariant]
    spec fn inv(self) -> bool {
        self.capacity >= 1 && self.list@.len() <= self.capacity && self@.no_duplicates()
    }

    /// How many lines there may be.
    pub closed spec fn limit(self) -> nat {
        self.capacity as nat
    }

    /// The sending half of a chat's line.
    pub closed spec fn lane(self, chat: JidView) -> async_channel::Sender<Stanza> {
        self.list@[self@.index_of(chat)].sender
    }

    /// No lines yet. There may be as many as given, and one in any case.
    pub fn new(capacity: usize) -> (r: ChatLanes)
        ensures
            r@ == Seq::<JidView>::empty(),
            r.limit() == (if capacity >= 1 {
                capacity as nat
            } else {
                1
            }),
    {
        let capacity: usize = if capacity >= 1 {
            capacity
        } else {
            1
        };
        let lanes = ChatLanes { list: Vec::new(), capacity };
        assert(lanes@ =~= Seq::<JidView>::empty());
        lanes
    }

    /// How many lines there are.
    pub fn len(&self) -> (r: usize)
        ensures
            r == self@.len(),
            r <= self.limit(),
            self@.no_duplicates(),
    {
        proof {
            use_type_invariant(self);
        }
        self.list.len()
    }

    fn position(&self, chat: &Jid) -> (r: Option<usize>)
        ensures
            match r {
                Some(i) => i < self.list@.len() && self.list@[i as int].chat@ == chat@
                    && self@.contains(chat@),
                None => !self@.contains(chat@),
            },
    {
        let mut i: usize = 0;
        while i < self.list.len()
            invariant
                i <= self.list@.len(),
                forall|j: int| 0 <= j < i ==> #[trigger] self.list@[j].chat@ != chat@,
            decreases self.list@.len() - i,
        {
            if self.list[i].chat.same_as(chat) {
                assert(self@[i as int] == chat@);
                return Some(i);
            }
            i += 1;
        }
        proof {
            if self@.contains(chat@) {
                let j = self@.index_of(chat@);
                assert(self.list@[j].chat@ == chat@);
            }
        }
        None
    }

    /// Whether a receiving half is the worker's end of a chat's line, and the line has the usual
    /// room.
    pub open spec fn works_on(self, worker: async_channel::Receiver<Stanza>, chat: JidView) -> bool {
        receives_from(worker, self.lane(chat)) && lane_capacity(self.lane(chat))
            == CHAT_LANE_QUEUE_CAPACITY
    }

    /// Whether the chats that have a line in both have the same line.
    pub open spec fn keeps_lanes(self, after: ChatLanes) -> bool {
        forall|other: JidView|
            self@.contains(other) && after@.contains(other) ==> self.lane(other)
                == #[trigger] after.lane(other)
    }

    /// Sees to it that a chat has a line. Where a new one was made, its other end is given back,
    /// for the one worker that is to be started for it.
    pub fn lane_for(&mut self, chat: &Jid) -> (r: Option<Receiver<Stanza>>)
        ensures
            r is Some <==> !old(self)@.contains(chat@),
            final(self)@ == with_lane(old(self)@, old(self).limit(), chat@),
            final(self).limit() == old(self).limit(),
            old(self).keeps_lanes(*final(self)),
            r matches Some(worker) ==> final(self).works_on(worker, chat@),
    {
        proof {
            use_type_invariant(&*self);
        }
        if self.position(chat).is_some() {
            return None;
        }
        let ghost before = self@;
        let (sender, receiver) = create_chat_lane_queue();
        let mut list: Vec<ChatLane> = Vec::new();
        std::mem::swap(&mut self.list, &mut list);
        if list.len() >= self.capacity {
            list.remove(0);
        }
        list.push(ChatLane { chat: chat.clone(), sender });
        proof {
            let after = list@.map_values(|lane: ChatLane| lane.chat@);
            assert(after =~= with_lane(before, old(self).limit(), chat@));
            assert(after.no_duplicates()) by {
                assert forall|i: int, j: int| 0 <= i < j < after.len() implies after[i]
                    != after[j] by {
                    let skipped: int = if before.len() >= self.capacity {
                        1
                    } else {
                        0
                    };
                    assert(after[i] == before[i + skipped]);
                    if j < after.len() - 1 {
                        assert(after[j] == before[j + skipped]);
                    } else {
                        assert(before.contains(before[i + skipped]));
                    }
                }
            }
        }
        self.list = list;
        proof {
            assert forall|other: JidView| old(self)@.contains(other) && self@.contains(
                other,
            ) implies #[trigger] self.lane(other) == old(self).lane(other) by {
                let skipped: int = if before.len() >= self.capacity {
                    1
                } else {
                    0
                };
                let i = self@.index_of(other);
                assert(before[i + skipped] == other);
            }
            let last = self@.len() - 1;
            assert(self@[last] == chat@ && self@[last] == self@[self@.index_of(chat@)]);
        }
        Some(receiver)
    }

    /// Puts a stanza in its chat's line. Without a line the answer is as if the line was closed.
    fn enqueue(&self, chat: &Jid, stanza: Stanza) -> (r: Enqueued)
        ensures
            if self@.contains(chat@) {
                send_outcomes(self.lane(chat@), stanza.bytes()).contains(r)
            } else {
                r == Enqueued::Closed
            },
    {
        proof {
            use_type_invariant(self);
        }
        match self.position(chat) {
            Some(i) => {
                assert(self@[i as int] == self@[self@.index_of(chat@)]);
                try_enqueue(&self.list[i].sender, stanza)
            },
            None => Enqueued::Closed,
        }
    }

    /// Gives all lines up: what stands in them is still processed, and then their workers end.
    pub fn clear(&mut self)
        ensures
            final(self)@ == Seq::<JidView>::empty(),
            final(self).limit() == old(self).limit(),
    {
        proof {
            use_type_invariant(&*self);
        }
        self.list = Vec::new();
        assert(self@ =~= Seq::<JidView>::empty());
    }
}

/// A chat has one line at the most, and asking for its line again changes nothing. So a chat
/// never has two workers at once, unless its line was given up in between.
pub proof fn one_lane_for_each_chat(chats: Seq<JidView>, capacity: nat, chat: JidView)
    requires
        chats.no_duplicates(),
        1 <= capacity,
        chats.len() <= capacity,
    ensures
        with_lane(chats, capacity, chat).no_duplicates(),
        with_lane(chats, capacity, chat).len() <= capacity,
        with_lane(chats, capacity, chat).contains(chat),
        with_lane(with_lane(chats, capacity, chat), capacity, chat) == with_lane(
            chats,
            capacity,
            chat,
        ),
{
    let after = with_lane(chats, capacity, chat);
    if !chats.contains(chat) {
        assert(after[after.len() - 1] == chat);
        let skipped: int = if chats.len() >= capacity {
            1
        } else {
            0
        };
        assert forall|i: int, j: int| 0 <= i < j < after.len() implies after[i] != after[j] by {
            assert(after[i] == chats[i + skipped]);
            if j < after.len() - 1 {
                assert(after[j] == chats[j + skipped]);
            } else {
                assert(chats.contains(chats[i + skipped]));
            }
        }
    }
}

/// Takes message stanzas.
#[derive(Clone, Copy, Debug)]
pub struct MessageHandler;

impl Default for MessageHandler {
    fn default() -> (r: MessageHandler) {
        MessageHandler
    }
}

/// The chat in whose line a stanza belongs: the address that it came from, without the device.
pub open spec fn chat_of(node: Node) -> Option<JidView> {
    match node.attr_jid("from"@) {
        Some(jid) => if jid.device > 0 || jid.agent > 0 {
            Some(jid.non_ad())
        } else {
            Some(jid)
        },
        None => None,
    }
}

/// What comes of putting a stanza in line: one that was taken is under way from now on; for any
/// other the acknowledgement is cancelled, so that the server sends it again.
pub open spec fn enqueue_settled(
    flow: InboundFlow,
    cancelled: bool,
    id: Option<Seq<char>>,
    enqueued: Enqueued,
) -> (InboundFlow, bool) {
    if enqueued == Enqueued::Taken {
        (flow.after(InboundEvent::Accept(id)), cancelled)
    } else {
        (flow, true)
    }
}

/// Takes in what came of putting a stanza in line, given the stanza's identifier.
pub fn settle_enqueue(
    inbound: &mut Inbound,
    cancelled: &mut bool,
    id: Option<String>,
    enqueued: Enqueued,
)
    ensures
        (final(inbound).flow(), *final(cancelled)) == enqueue_settled(
            old(inbound).flow(),
            *old(cancelled),
            id_view(id),
            enqueued,
        ),
        *final(inbound) == (Inbound { under_way: final(inbound).under_way, ..*old(inbound) }),
{
    match enqueued {
        Enqueued::Taken => {
            inbound.accept(id);
        },
        _ => {
            *cancelled = true;
        },
    }
}

/// What became of a message stanza.
pub struct Handled {
    /// The stanza was a message stanza.
    pub known: bool,
    /// A new line was made: a worker is to be started on it.
    pub worker: Option<Receiver<Stanza>>,
}

impl MessageHandler {
    /// The tag of message stanzas.
    pub fn tag(&self) -> (r: &'static str)
        ensures
            r@ == "message"@,
    {
        "message"
    }

    /// The chat in whose line a stanza belongs.
    pub fn chat(&self, node: &Node) -> (r: Option<Jid>)
        ensures
            match r {
                Some(jid) => chat_of(*node) == Some(jid@),
                None => chat_of(*node) is None,
            },
    {
        match node.get_jid("from") {
            Some(jid) => if jid.device > 0 || jid.agent > 0 {
                Some(jid.to_non_ad())
            } else {
                Some(jid)
            },
            None => None,
        }
    }

    /// Puts a message stanza in the line of its chat. One that does not say where it came from
    /// is not taken. While no messages are taken in, and where there is no room, the
    /// acknowledgement is cancelled, so that the server sends the stanza again.
    pub fn handle(
        &self,
        inbound: &mut Inbound,
        lanes: &mut ChatLanes,
        stanza: Stanza,
        cancelled: &mut bool,
    ) -> (r: Handled)
        ensures
            r.known == (chat_of(stanza.content()) is Some),
            !r.known || !old(inbound).accepting ==> *final(inbound) == *old(inbound)
                && *final(lanes) == *old(lanes) && r.worker is None,
            !r.known ==> *final(cancelled) == *old(cancelled),
            r.known && !old(inbound).accepting ==> *final(cancelled),
            r.known && old(inbound).accepting ==> {
                let chat = chat_of(stanza.content())->0;
                &&& r.worker is Some <==> !old(lanes)@.contains(chat)
                &&& final(lanes)@ == with_lane(old(lanes)@, old(lanes).limit(), chat)
                &&& final(lanes).limit() == old(lanes).limit()
                &&& old(lanes).keeps_lanes(*final(lanes))
                &&& r.worker matches Some(worker) ==> final(lanes).works_on(worker, chat)
                &&& exists|enqueued: Enqueued|
                    send_outcomes(final(lanes).lane(chat), stanza.bytes()).contains(enqueued) && (
                    final(inbound).flow(), *final(cancelled)) == #[trigger] enqueue_settled(
                        old(inbound).flow(),
                        *old(cancelled),
                        stanza.content().attr_text("id"@),
                        enqueued,
                    )
            },
            *final(inbound) == (Inbound { under_way: final(inbound).under_way, ..*old(inbound) }),
    {
        let chat = match self.chat(stanza.node()) {
            Some(chat) => chat,
            None => return Handled { known: false, worker: None },
        };
        if !inbound.can_accept() {
            *cancelled = true;
            return Handled { known: true, worker: None };
        }
        proof {
            use_type_invariant(&*lanes);
            one_lane_for_each_chat(lanes@, lanes.limit(), chat@);
        }
        let worker = lanes.lane_for(&chat);
        let id = stanza.node().get_text("id");
        let enqueued = lanes.enqueue(&chat, stanza);
        settle_enqueue(inbound, cancelled, id, enqueued);
        Handled { known: true, worker }
    }
}

/// Whether the worker of a line goes on with the next stanza: not once the connection that it
/// was started on is gone. What is still in line was not acknowledged, and comes again.
pub fn worker_goes_on(started: u64, current: u64) -> (r: bool)
    ensures
        r == (started == current),
{
    started == current
}

/// Whether processing a message took too long.
pub fn is_slow(elapsed_ms: u64) -> (r: bool)
    ensures
        r == (elapsed_ms > MAX_MESSAGE_DELAY_MS),
{
    elapsed_ms > MAX_MESSAGE_DELAY_MS
}

/// A chat without a line gets the last one. Where there are as many as there may be, the oldest is
/// given up for it, and no other; where there is room, none is.
pub proof fn oldest_lane_makes_room(chats: Seq<JidView>, capacity: nat, chat: JidView)
    requires
        1 <= capacity,
        chats.len() <= capacity,
        !chats.contains(chat),
    ensures
        ({
            let after = with_lane(chats, capacity, chat);
            &&& after.last() == chat
            &&& chats.len() < capacity ==> after.drop_last() == chats
            &&& chats.len() == capacity ==> seq![chats[0]] + after.drop_last() == chats
        }),
        CHAT_LANE_QUEUE_CAPACITY == 256,
        MAX_MESSAGE_DELAY_MS == 20 * 1000,
{
    let after = with_lane(chats, capacity, chat);
    if chats.len() < capacity {
        assert(after.drop_last() =~= chats);
    } else {
        assert(seq![chats[0]] + after.drop_last() =~= chats);
    }
}

/// A stanza belongs in the line of the account that it came from: all devices of a person share
/// one. One that does not say where it came from belongs in none.
pub proof fn lanes_are_for_accounts(node: Node, other: Node)
    ensures
        chat_of(node) is None <==> node.attr_jid("from"@) is None,
        node.attr_jid("from"@) matches Some(from) ==> chat_of(node) == Some(
            JidView { device: 0, agent: 0, ..from },
        ),
        node.attr_jid("from"@) matches Some(from) ==> other.attr_jid("from"@) matches Some(also)
            ==> from.user == also.user && from.server == also.server && from.integrator
            == also.integrator ==> chat_of(node) == chat_of(other),
{
}

/// A stanza that was put in line is under way, and its acknowledgement is not touched. One that
/// was not is not under way, and is not acknowledged.
pub proof fn stanzas_in_line_are_under_way(
    flow: InboundFlow,
    cancelled: bool,
    id: Option<Seq<char>>,
    enqueued: Enqueued,
)
    ensures
        ({
            let (after, cancelled_after) = enqueue_settled(flow, cancelled, id, enqueued);
            &&& enqueued == Enqueued::Taken ==> after.under_way == flow.under_way.push(id)
                && cancelled_after == cancelled
            &&& enqueued == Enqueued::Full || enqueued == Enqueued::Closed ==> after == flow
                && cancelled_after
            &&& after.commits == flow.commits
            &&& after.accepting == flow.accepting
        }),
{
}

/// A worker takes out what is put in its own chat's line, which has room for as many stanzas as
/// every line has; and a chat that has a line before and after has the same one.
pub proof fn workers_have_their_own_lane(
    before: ChatLanes,
    lanes: ChatLanes,
    worker: async_channel::Receiver<Stanza>,
    chat: JidView,
)
    ensures
        lanes.works_on(worker, chat) ==> receives_from(worker, lanes.lane(chat)) && lane_capacity(
            lanes.lane(chat),
        ) == 256,
        before.keeps_lanes(lanes) && before@.contains(chat) && lanes@.contains(chat) ==> before.lane(
            chat,
        ) == lanes.lane(chat),
{
}

} // verus!
