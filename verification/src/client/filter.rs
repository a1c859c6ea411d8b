//! Waiting for stanzas.

use vstd::prelude::*;
use crate::jid::Jid;
use crate::node::Node;
use crate::text::same;

verus! {

/// Matches stanzas by tag and attributes.
#[derive(Debug)]
pub struct NodeFilter {
    tag: String,
    attrs: Vec<(String, String)>,
}

/// What a [`NodeFilter`] asks for: a tag, and texts that attributes must have.
pub struct FilterView {
    pub tag: Seq<char>,
    pub attrs: Seq<(Seq<char>, Seq<char>)>,
}

/// What a list of pairs of texts holds.
pub open spec fn text_pairs(pairs: Seq<(String, String)>) -> Seq<(Seq<char>, Seq<char>)> {
    pairs.map_values(|p: (String, String)| (p.0@, p.1@))
}

impl View for NodeFilter {
    type V = FilterView;

    closed spec fn view(&self) -> FilterView {
        FilterView { tag: self.tag@, attrs: text_pairs(self.attrs@) }
    }
}

impl Clone for NodeFilter {
    fn clone(&self) -> (r: NodeFilter)
        ensures
            r@ == self@,
    {
        let mut attrs: Vec<(String, String)> = Vec::new();
        let mut i: usize = 0;
        while i < self.attrs.len()
            invariant
                i <= self.attrs@.len(),
                attrs@.len() == i,
                forall|j: int|
                    0 <= j < i ==> ((#[trigger] attrs@[j]).0@, attrs@[j].1@) == (
                    self.attrs@[j].0@,
                    self.attrs@[j].1@,
                ),
            decreases self.attrs@.len() - i,
        {
            attrs.push((self.attrs[i].0.clone(), self.attrs[i].1.clone()));
            i += 1;
        }
        let r = NodeFilter { tag: self.tag.clone(), attrs };
        assert(r@.attrs =~= self@.attrs);
        r
    }
}

impl FilterView {
    /// Whether a stanza has the tag, and each attribute with the text that is asked for.
    pub open spec fn accepts(self, node: Node) -> bool {
        &&& node.tag@ == self.tag
        &&& forall|i: int|
            0 <= i < self.attrs.len() ==> node.attr_text((#[trigger] self.attrs[i]).0) == Some(
                self.attrs[i].1,
            )
    }
}

impl NodeFilter {
    /// A filter for stanzas with a given tag.
    pub fn tag(tag: &str) -> (r: NodeFilter)
        ensures
            r@ == (FilterView { tag: tag@, attrs: Seq::empty() }),
    {
        let r = NodeFilter { tag: tag.to_owned(), attrs: Vec::new() };
        assert(r@.attrs =~= Seq::empty());
        r
    }

    /// Asks for an attribute as well.
    pub fn attr(self, key: &str, value: &str) -> (r: NodeFilter)
        ensures
            r@ == (FilterView { tag: self@.tag, attrs: self@.attrs.push((key@, value@)) }),
    {
        let ghost before = self@;
        let mut attrs = self.attrs;
        attrs.push((key.to_owned(), value.to_owned()));
        let r = NodeFilter { tag: self.tag, attrs };
        assert(r@.attrs =~= before.attrs.push((key@, value@)));
        r
    }

    /// Asks for the attribute `from` with the written form of an address.
    pub fn from_jid(self, jid: &Jid) -> (r: NodeFilter)
        ensures
            r@ == (FilterView { tag: self@.tag, attrs: self@.attrs.push(("from"@, jid@.text())) }),
    {
        let text = jid.to_text();
        self.attr("from", text.as_str())
    }

    /// Whether a stanza is the kind that is asked for.
    pub fn matches(&self, node: &Node) -> (r: bool)
        ensures
            r == self@.accepts(*node),
    {
        if !same(node.tag.as_str(), self.tag.as_str()) {
            return false;
        }
        let mut i: usize = 0;
        while i < self.attrs.len()
            invariant
                i <= self.attrs@.len(),
                node.tag@ == self@.tag,
                forall|j: int|
                    0 <= j < i ==> node.attr_text((#[trigger] self@.attrs[j]).0) == Some(
                        self@.attrs[j].1,
                    ),
            decreases self.attrs@.len() - i,
        {
            assert(self@.attrs[i as int] == (self.attrs@[i as int].0@, self.attrs@[i as int].1@));
            if !node.attr_is(self.attrs[i].0.as_str(), self.attrs[i].1.as_str()) {
                return false;
            }
            i += 1;
        }
        true
    }
}

/// Someone who waits for a stanza.
#[derive(Debug)]
pub struct NodeWaiter {
    /// Whom to wake.
    pub id: u64,
    pub filter: NodeFilter,
    /// Nobody waits any more.
    pub cancelled: bool,
}

/// Whether a stanza is what a waiter waits for.
pub open spec fn served(waiter: NodeWaiter, node: Node) -> bool {
    !waiter.cancelled && waiter.filter@.accepts(node)
}

/// Whether a waiter goes on waiting after a stanza.
pub open spec fn keeps_waiting(waiter: NodeWaiter, node: Node) -> bool {
    !waiter.cancelled && !waiter.filter@.accepts(node)
}

/// The waiters that go on waiting after a stanza.
pub open spec fn remaining(waiters: Seq<NodeWaiter>, node: Node) -> Seq<NodeWaiter> {
    waiters.filter(|w: NodeWaiter| keeps_waiting(w, node))
}

/// Whom a stanza wakes, in the order in which they came.
pub open spec fn woken(waiters: Seq<NodeWaiter>, node: Node) -> Seq<u64> {
    waiters.filter(|w: NodeWaiter| served(w, node)).map_values(|w: NodeWaiter| w.id)
}

/// The ones among some waiters that go on waiting, before and after one more.
proof fn split_step(waiters: Seq<NodeWaiter>, i: int, node: Node)
    requires
        0 <= i < waiters.len(),
    ensures
        remaining(waiters.take(i + 1), node) == if keeps_waiting(waiters[i], node) {
            remaining(waiters.take(i), node).push(waiters[i])
        } else {
            remaining(waiters.take(i), node)
        },
        woken(waiters.take(i + 1), node) == if served(waiters[i], node) {
            woken(waiters.take(i), node).push(waiters[i].id)
        } else {
            woken(waiters.take(i), node)
        },
{
    reveal(Seq::filter);
    assert(waiters.take(i + 1).drop_last() =~= waiters.take(i));
    assert(waiters.take(i + 1).last() == waiters[i]);
    let before = waiters.take(i).filter(|w: NodeWaiter| served(w, node));
    if served(waiters[i], node) {
        assert(before.push(waiters[i]).map_values(|w: NodeWaiter| w.id) =~= before.map_values(
            |w: NodeWaiter| w.id,
        ).push(waiters[i].id));
    }
}

/// Those who wait for stanzas.
#[derive(Debug)]
pub struct Waiters {
    pub list: Vec<NodeWaiter>,
    /// The number of the next waiter.
    pub next_id: u64,
}

impl Waiters {
    pub fn new() -> (r: Waiters)
        ensures
            r.list@ == Seq::<NodeWaiter>::empty(),
            r.next_id == 0,
    {
        Waiters { list: Vec::new(), next_id: 0 }
    }

    /// Lets someone wait for a stanza, and gives the number to wake.
    pub fn register(&mut self, filter: NodeFilter) -> (r: u64)
        ensures
            r == old(self).next_id,
            final(self).next_id == old(self).next_id.wrapping_add(1),
            final(self).list@ == old(self).list@.push(
                NodeWaiter { id: r, filter, cancelled: false },
            ),
    {
        let id: u64 = self.next_id;
        self.next_id = id.wrapping_add(1);
        self.list.push(NodeWaiter { id, filter, cancelled: false });
        id
    }

    /// How many wait.
    pub fn count(&self) -> (r: usize)
        ensures
            r == self.list@.len(),
    {
        self.list.len()
    }

    /// Takes in a stanza: everyone who waits for it is woken, and those who have gone are
    /// forgotten.
    pub fn resolve(&mut self, node: &Node) -> (r: Vec<u64>)
        ensures
            r@ == woken(old(self).list@, *node),
            final(self).list@ == remaining(old(self).list@, *node),
            final(self).next_id == old(self).next_id,
    {
        let ghost all = self.list@;
        let mut ids: Vec<u64> = Vec::new();
        let mut i: usize = 0;
        let ghost mut seen: int = 0;
        proof {
            reveal(Seq::filter);
            assert(remaining(all.take(0), *node) =~= Seq::empty());
            assert(woken(all.take(0), *node) =~= Seq::empty());
            assert(all.skip(0) =~= all);
            assert(self.list@ =~= remaining(all.take(0), *node) + all.skip(0));
        }
        while i < self.list.len()
            invariant
                0 <= seen <= all.len(),
                i == remaining(all.take(seen), *node).len(),
                self.list@ == remaining(all.take(seen), *node) + all.skip(seen),
                ids@ == woken(all.take(seen), *node),
                self.next_id == old(self).next_id,
            decreases all.len() - seen,
        {
            proof {
                split_step(all, seen, *node);
                assert(self.list@[i as int] == all[seen]);
                assert(all.skip(seen)[0] == all[seen]);
                assert(all.skip(seen).skip(1) =~= all.skip(seen + 1));
            }
            if self.list[i].cancelled {
                self.list.remove(i);
            } else if self.list[i].filter.matches(node) {
                let id: u64 = self.list[i].id;
                self.list.remove(i);
                ids.push(id);
            } else {
                i += 1;
            }
            proof {
                seen = seen + 1;
                assert(self.list@ =~= remaining(all.take(seen), *node) + all.skip(seen));
            }
        }
        proof {
            assert(seen == all.len());
            assert(all.take(seen) =~= all);
            assert(all.skip(seen) =~= Seq::empty());
            assert(self.list@ =~= remaining(all, *node));
        }
        ids
    }

    /// Forgets everyone who waits.
    pub fn clear(&mut self)
        ensures
            final(self).list@ == Seq::<NodeWaiter>::empty(),
            final(self).next_id == old(self).next_id,
    {
        self.list.clear();
    }
}

/// A stanza wakes everyone who waits for it, not only the first: whoever still waits afterwards
/// was there before and waits for something else.
pub proof fn every_match_is_woken(waiters: Seq<NodeWaiter>, node: Node)
    ensures
        forall|i: int|
            0 <= i < waiters.len() && served(#[trigger] waiters[i], node) ==> woken(
                waiters,
                node,
            ).contains(waiters[i].id),
        forall|w: NodeWaiter| #[trigger]
            remaining(waiters, node).contains(w) ==> waiters.contains(w) && !served(w, node),
{
    broadcast use vstd::seq_lib::group_filter_ensures;

    let pick = waiters.filter(|w: NodeWaiter| served(w, node));
    assert forall|i: int| 0 <= i < waiters.len() && served(#[trigger] waiters[i], node) implies woken(
        waiters,
        node,
    ).contains(waiters[i].id) by {
        assert(pick.contains(waiters[i]));
        let j = pick.index_of(waiters[i]);
        assert(woken(waiters, node)[j] == waiters[i].id);
    }
    let kept = remaining(waiters, node);
    assert forall|w: NodeWaiter| #[trigger] kept.contains(w) implies waiters.contains(w) && !served(
        w,
        node,
    ) by {
        let keep = |w: NodeWaiter| keeps_waiting(w, node);
        waiters.lemma_filter_contains_rev(keep, w);
        let j = kept.index_of(w);
        assert(keep(kept[j]));
    }
}

/// Every stanza of its tag passes a filter that asks for nothing more. One more attribute lets
/// those pass that passed before and have the attribute with that text.
pub proof fn filters_narrow_down(
    filter: FilterView,
    key: Seq<char>,
    value: Seq<char>,
    node: Node,
)
    ensures
        (FilterView { tag: filter.tag, attrs: Seq::empty() }).accepts(node) <==> node.tag@
            == filter.tag,
        (FilterView { tag: filter.tag, attrs: filter.attrs.push((key, value)) }).accepts(node)
            <==> filter.accepts(node) && node.attr_text(key) == Some(value),
{
    let more = FilterView { tag: filter.tag, attrs: filter.attrs.push((key, value)) };
    if more.accepts(node) {
        assert(more.attrs[filter.attrs.len() as int] == (key, value));
        assert forall|i: int| 0 <= i < filter.attrs.len() implies node.attr_text(
            (#[trigger] filter.attrs[i]).0,
        ) == Some(filter.attrs[i].1) by {
            assert(more.attrs[i] == filter.attrs[i]);
        }
    }
    if filter.accepts(node) && node.attr_text(key) == Some(value) {
        assert forall|i: int| 0 <= i < more.attrs.len() implies node.attr_text(
            (#[trigger] more.attrs[i]).0,
        ) == Some(more.attrs[i].1) by {
            if i < filter.attrs.len() {
                assert(more.attrs[i] == filter.attrs[i]);
            }
        }
    }
}

/// What a stanza does for one waiter more: someone who waits for it is woken, after those who came
/// before, and waits no longer. Someone who waits for another one goes on. Someone who has gone is
/// forgotten and not woken.
pub proof fn waiters_are_woken_in_order(waiters: Seq<NodeWaiter>, waiter: NodeWaiter, node: Node)
    ensures
        woken(Seq::empty(), node) == Seq::<u64>::empty(),
        remaining(Seq::empty(), node) == Seq::<NodeWaiter>::empty(),
        waiter.cancelled ==> woken(waiters.push(waiter), node) == woken(waiters, node)
            && remaining(waiters.push(waiter), node) == remaining(waiters, node),
        !waiter.cancelled && waiter.filter@.accepts(node) ==> woken(waiters.push(waiter), node)
            == woken(waiters, node).push(waiter.id) && remaining(waiters.push(waiter), node)
            == remaining(waiters, node),
        !waiter.cancelled && !waiter.filter@.accepts(node) ==> woken(waiters.push(waiter), node)
            == woken(waiters, node) && remaining(waiters.push(waiter), node) == remaining(
            waiters,
            node,
        ).push(waiter),
{
    reveal(Seq::filter);
    let all = waiters.push(waiter);
    split_step(all, waiters.len() as int, node);
    assert(all.take(waiters.len() as int) =~= waiters);
    assert(all.take(waiters.len() as int + 1) =~= all);
    assert(woken(Seq::empty(), node) =~= Seq::<u64>::empty());
}

/// The pairs of a filter are looked at one by one.
pub proof fn pairs_of_texts_are_looked_at_whole(
    pairs: Seq<(String, String)>,
    pair: (String, String),
)
    ensures
        text_pairs(pairs.push(pair)) == text_pairs(pairs).push((pair.0@, pair.1@)),
        text_pairs(Seq::empty()) == Seq::<(Seq<char>, Seq<char>)>::empty(),
{
    assert(text_pairs(pairs.push(pair)) =~= text_pairs(pairs).push((pair.0@, pair.1@)));
    assert(text_pairs(Seq::empty()) =~= Seq::<(Seq<char>, Seq<char>)>::empty());
}

} // verus!
