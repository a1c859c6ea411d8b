//! Stanzas: a tag, attributes and a content.

use vstd::prelude::*;
use crate::jid::{Jid, JidView, jid_of_text};
use crate::text::{parse_u64, parsed_u64, same};

verus! {

/// The value of an attribute: a text, or an address that was sent as such.
#[derive(Debug, PartialEq, Eq)]
pub enum AttrValue {
    Text(String),
    Jid(Jid),
}

/// What an [`AttrValue`] holds, as mathematics.
pub enum ValueView {
    Text(Seq<char>),
    Jid(JidView),
}

impl View for AttrValue {
    type V = ValueView;

    open spec fn view(&self) -> ValueView {
        match self {
            AttrValue::Text(s) => ValueView::Text(s@),
            AttrValue::Jid(j) => ValueView::Jid(j@),
        }
    }
}

impl ValueView {
    /// The value as text.
    pub open spec fn text(self) -> Seq<char> {
        match self {
            ValueView::Text(s) => s,
            ValueView::Jid(j) => j.text(),
        }
    }

    /// The value as an address; a text that writes none has none.
    pub open spec fn jid(self) -> Option<JidView> {
        match self {
            ValueView::Text(s) => jid_of_text(s),
            ValueView::Jid(j) => Some(j),
        }
    }
}

impl Clone for AttrValue {
    fn clone(&self) -> (r: AttrValue)
        ensures
            r == *self,
    {
        match self {
            AttrValue::Text(s) => AttrValue::Text(s.clone()),
            AttrValue::Jid(j) => AttrValue::Jid(j.clone()),
        }
    }
}

impl AttrValue {
    /// A value that is a text.
    pub fn from_text(text: &str) -> (r: AttrValue)
        ensures
            r@ == ValueView::Text(text@),
    {
        AttrValue::Text(text.to_owned())
    }

    /// The value as text.
    pub fn to_text(&self) -> (r: String)
        ensures
            r@ == self@.text(),
    {
        match self {
            AttrValue::Text(s) => s.clone(),
            AttrValue::Jid(j) => j.to_text(),
        }
    }

    /// The value as an address.
    pub fn to_jid(&self) -> (r: Option<Jid>)
        ensures
            match r {
                Some(jid) => self@.jid() == Some(jid@),
                None => self@.jid() is None,
            },
    {
        match self {
            AttrValue::Text(s) => Jid::parse(s.as_str()),
            AttrValue::Jid(j) => Some(j.clone()),
        }
    }
}

/// A named attribute.
#[derive(Debug, PartialEq, Eq)]
pub struct Attr {
    pub name: String,
    pub value: AttrValue,
}

/// An attribute's name and value, as mathematics.
pub type AttrPair = (Seq<char>, ValueView);

impl View for Attr {
    type V = AttrPair;

    open spec fn view(&self) -> AttrPair {
        (self.name@, self.value@)
    }
}

impl Clone for Attr {
    fn clone(&self) -> (r: Attr)
        ensures
            r == *self,
    {
        Attr { name: self.name.clone(), value: self.value.clone() }
    }
}

impl Attr {
    /// An attribute whose value is a text.
    pub fn text(name: &str, value: &str) -> (r: Attr)
        ensures
            r@ == (name@, ValueView::Text(value@)),
    {
        Attr { name: name.to_owned(), value: AttrValue::from_text(value) }
    }

    /// An attribute with a given value.
    pub fn with(name: &str, value: AttrValue) -> (r: Attr)
        ensures
            r@ == (name@, value@),
    {
        Attr { name: name.to_owned(), value }
    }
}

/// The names and values of a list of attributes.
pub open spec fn attr_pairs(attrs: Seq<Attr>) -> Seq<AttrPair> {
    attrs.map_values(|a: Attr| a@)
}

/// The value of the first attribute of a given name.
pub open spec fn find_attr(attrs: Seq<AttrPair>, name: Seq<char>) -> Option<ValueView>
    decreases attrs.len(),
{
    if attrs.len() == 0 {
        None
    } else if attrs[0].0 == name {
        Some(attrs[0].1)
    } else {
        find_attr(attrs.skip(1), name)
    }
}

/// What a stanza holds besides its attributes.
#[derive(Debug, PartialEq, Eq)]
pub enum NodeContent {
    Empty,
    Bytes(Vec<u8>),
    Text(String),
    Nodes(Vec<Node>),
}

/// A stanza.
#[derive(Debug, PartialEq, Eq)]
pub struct Node {
    pub tag: String,
    pub attrs: Vec<Attr>,
    pub content: NodeContent,
}

/// What a stanza holds, as mathematics.
pub struct NodeView {
    pub tag: Seq<char>,
    pub attrs: Seq<AttrPair>,
    pub content: ContentView,
}

/// What a stanza holds besides its attributes, as mathematics.
pub enum ContentView {
    Empty,
    Bytes(Seq<u8>),
    Text(Seq<char>),
    Nodes(Seq<NodeView>),
}

/// What a stanza and all below it hold.
pub open spec fn node_view(node: Node) -> NodeView
    decreases node,
{
    NodeView {
        tag: node.tag@,
        attrs: attr_pairs(node.attrs@),
        content: match node.content {
            NodeContent::Empty => ContentView::Empty,
            NodeContent::Bytes(b) => ContentView::Bytes(b@),
            NodeContent::Text(s) => ContentView::Text(s@),
            NodeContent::Nodes(nodes) => ContentView::Nodes(
                Seq::new(
                    nodes@.len(),
                    |i: int|
                        if 0 <= i < nodes@.len() {
                            node_view(nodes@[i])
                        } else {
                            arbitrary()
                        },
                ),
            ),
        },
    }
}

impl View for Node {
    type V = NodeView;

    open spec fn view(&self) -> NodeView {
        node_view(*self)
    }
}

impl NodeView {
    /// The value of the first attribute of a given name.
    pub open spec fn attr(self, name: Seq<char>) -> Option<ValueView> {
        find_attr(self.attrs, name)
    }
}

impl Node {
    /// The names and values of the attributes.
    pub open spec fn pairs(self) -> Seq<AttrPair> {
        attr_pairs(self.attrs@)
    }

    /// The value of the first attribute of a given name.
    pub open spec fn attr(self, name: Seq<char>) -> Option<ValueView> {
        find_attr(self.pairs(), name)
    }

    /// The first attribute of a given name, as text.
    pub open spec fn attr_text(self, name: Seq<char>) -> Option<Seq<char>> {
        match self.attr(name) {
            Some(v) => Some(v.text()),
            None => None,
        }
    }

    /// The first attribute of a given name, as an address.
    pub open spec fn attr_jid(self, name: Seq<char>) -> Option<JidView> {
        match self.attr(name) {
            Some(v) => v.jid(),
            None => None,
        }
    }

    /// The first attribute of a given name, as a number.
    pub open spec fn attr_u64(self, name: Seq<char>) -> Option<u64> {
        match self.attr(name) {
            Some(v) => parsed_u64(v.text()),
            None => None,
        }
    }

    /// The children; a stanza that holds bytes, text or nothing has none.
    pub open spec fn child_nodes(self) -> Seq<Node> {
        match self.content {
            NodeContent::Nodes(nodes) => nodes@,
            _ => Seq::empty(),
        }
    }

    /// The children of a given tag, in order.
    pub open spec fn children_tagged(self, tag: Seq<char>) -> Seq<Node> {
        tagged(self.child_nodes(), tag)
    }

    /// The first child of a given tag.
    pub open spec fn child(self, tag: Seq<char>) -> Option<Node> {
        let tagged = self.children_tagged(tag);
        if tagged.len() > 0 {
            Some(tagged[0])
        } else {
            None
        }
    }

    /// The bytes that the stanza holds.
    pub open spec fn bytes(self) -> Option<Seq<u8>> {
        match self.content {
            NodeContent::Bytes(b) => Some(b@),
            _ => None,
        }
    }
}

/// The values behind a list of references.
pub open spec fn deref_all<T>(refs: Seq<&T>) -> Seq<T> {
    Seq::new(refs.len(), |i: int| *refs[i])
}

/// The stanzas of a given tag, in order.
pub open spec fn tagged(nodes: Seq<Node>, tag: Seq<char>) -> Seq<Node> {
    nodes.filter(|n: Node| n.tag@ == tag)
}

proof fn tagged_step(nodes: Seq<Node>, i: int, tag: Seq<char>)
    requires
        0 <= i < nodes.len(),
    ensures
        tagged(nodes.take(i + 1), tag) == if nodes[i].tag@ == tag {
            tagged(nodes.take(i), tag).push(nodes[i])
        } else {
            tagged(nodes.take(i), tag)
        },
{
    reveal(Seq::filter);
    assert(nodes.take(i + 1).drop_last() =~= nodes.take(i));
    assert(nodes.take(i + 1).last() == nodes[i]);
}

/// A stanza without content.
pub open spec fn leaf_view(tag: Seq<char>, attrs: Seq<AttrPair>) -> NodeView {
    NodeView { tag, attrs, content: ContentView::Empty }
}

/// A stanza with children.
pub open spec fn parent_view(
    tag: Seq<char>,
    attrs: Seq<AttrPair>,
    children: Seq<NodeView>,
) -> NodeView {
    NodeView { tag, attrs, content: ContentView::Nodes(children) }
}

/// What each of a list of stanzas holds.
pub open spec fn node_views(nodes: Seq<Node>) -> Seq<NodeView> {
    Seq::new(nodes.len(), |i: int| nodes[i]@)
}

impl Node {
    /// A stanza without content.
    pub fn leaf(tag: &str, attrs: Vec<Attr>) -> (r: Node)
        ensures
            r@ == leaf_view(tag@, attr_pairs(attrs@)),
    {
        Node { tag: tag.to_owned(), attrs, content: NodeContent::Empty }
    }

    /// A stanza with children.
    pub fn parent(tag: &str, attrs: Vec<Attr>, children: Vec<Node>) -> (r: Node)
        ensures
            r@ == parent_view(tag@, attr_pairs(attrs@), node_views(children@)),
    {
        let ghost views = node_views(children@);
        let r = Node { tag: tag.to_owned(), attrs, content: NodeContent::Nodes(children) };
        assert(r@.content->Nodes_0 =~= views);
        r
    }

    /// A stanza that holds bytes.
    pub fn with_bytes(tag: &str, attrs: Vec<Attr>, bytes: Vec<u8>) -> (r: Node)
        ensures
            r@ == (NodeView {
                tag: tag@,
                attrs: attr_pairs(attrs@),
                content: ContentView::Bytes(bytes@),
            }),
    {
        Node { tag: tag.to_owned(), attrs, content: NodeContent::Bytes(bytes) }
    }

    /// Whether the tag is `tag`.
    pub fn is(&self, tag: &str) -> (r: bool)
        ensures
            r == (self.tag@ == tag@),
    {
        same(self.tag.as_str(), tag)
    }

    /// The value of the first attribute of a given name.
    pub fn get_attr(&self, name: &str) -> (r: Option<&AttrValue>)
        ensures
            match r {
                Some(v) => self.attr(name@) == Some(v@),
                None => self.attr(name@) is None,
            },
    {
        let mut i: usize = 0;
        assert(self.pairs().skip(0) =~= self.pairs());
        while i < self.attrs.len()
            invariant
                i <= self.attrs@.len(),
                find_attr(self.pairs(), name@) == find_attr(self.pairs().skip(i as int), name@),
            decreases self.attrs@.len() - i,
        {
            proof {
                let rest = self.pairs().skip(i as int);
                assert(rest[0] == self.attrs@[i as int]@);
                assert(rest.skip(1) =~= self.pairs().skip(i + 1));
            }
            if same(self.attrs[i].name.as_str(), name) {
                return Some(&self.attrs[i].value);
            }
            i += 1;
        }
        None
    }

    /// Whether there is an attribute of a given name.
    pub fn has_attr(&self, name: &str) -> (r: bool)
        ensures
            r == (self.attr(name@) is Some),
    {
        self.get_attr(name).is_some()
    }

    /// The first attribute of a given name, as text.
    pub fn get_text(&self, name: &str) -> (r: Option<String>)
        ensures
            match r {
                Some(s) => self.attr_text(name@) == Some(s@),
                None => self.attr_text(name@) is None,
            },
    {
        match self.get_attr(name) {
            Some(v) => Some(v.to_text()),
            None => None,
        }
    }

    /// Whether the first attribute of a given name is `value`, as text.
    pub fn attr_is(&self, name: &str, value: &str) -> (r: bool)
        ensures
            r == (self.attr_text(name@) == Some(value@)),
    {
        match self.get_text(name) {
            Some(s) => same(s.as_str(), value),
            None => false,
        }
    }

    /// The first attribute of a given name, as an address.
    pub fn get_jid(&self, name: &str) -> (r: Option<Jid>)
        ensures
            match r {
                Some(jid) => self.attr_jid(name@) == Some(jid@),
                None => self.attr_jid(name@) is None,
            },
    {
        match self.get_attr(name) {
            Some(v) => v.to_jid(),
            None => None,
        }
    }

    /// The first attribute of a given name, as a number.
    pub fn get_u64(&self, name: &str) -> (r: Option<u64>)
        ensures
            r == self.attr_u64(name@),
    {
        match self.get_attr(name) {
            Some(v) => {
                let text = v.to_text();
                parse_u64(text.as_str())
            },
            None => None,
        }
    }

    /// The children of a given tag, in order.
    pub fn get_children_by_tag(&self, tag: &str) -> (r: Vec<&Node>)
        ensures
            deref_all(r@) == self.children_tagged(tag@),
    {
        let mut out: Vec<&Node> = Vec::new();
        proof {
            reveal(Seq::filter);
        }
        match &self.content {
            NodeContent::Nodes(nodes) => {
                let mut i: usize = 0;
                assert(deref_all(out@) =~= tagged(nodes@.take(0), tag@));
                while i < nodes.len()
                    invariant
                        i <= nodes@.len(),
                        deref_all(out@) == tagged(nodes@.take(i as int), tag@),
                    decreases nodes@.len() - i,
                {
                    proof {
                        tagged_step(nodes@, i as int, tag@);
                    }
                    let ghost before = out@;
                    if same(nodes[i].tag.as_str(), tag) {
                        out.push(&nodes[i]);
                        assert(deref_all(out@) =~= deref_all(before).push(nodes@[i as int]));
                    }
                    i += 1;
                }
                assert(nodes@.take(nodes@.len() as int) =~= nodes@);
            },
            _ => {
                assert(deref_all(out@) =~= self.children_tagged(tag@));
            },
        }
        out
    }

    /// The first child of a given tag.
    pub fn get_optional_child(&self, tag: &str) -> (r: Option<&Node>)
        ensures
            match r {
                Some(n) => self.child(tag@) == Some(*n),
                None => self.child(tag@) is None,
            },
    {
        let tagged = self.get_children_by_tag(tag);
        if tagged.len() > 0 {
            assert(deref_all(tagged@)[0] == *tagged@[0]);
            Some(tagged[0])
        } else {
            assert(deref_all(tagged@).len() == 0);
            None
        }
    }

    /// The bytes that the stanza holds.
    pub fn content_bytes(&self) -> (r: Option<&Vec<u8>>)
        ensures
            match r {
                Some(b) => self.bytes() == Some(b@),
                None => self.bytes() is None,
            },
    {
        match &self.content {
            NodeContent::Bytes(b) => Some(b),
            _ => None,
        }
    }
}

/// An attribute is looked up by its name, and the first of that name counts.
pub proof fn first_attribute_counts(attrs: Seq<AttrPair>, name: Seq<char>, at: int)
    ensures
        0 <= at < attrs.len() && attrs[at].0 == name && (forall|j: int|
            0 <= j < at ==> (#[trigger] attrs[j]).0 != name) ==> find_attr(attrs, name) == Some(
            attrs[at].1,
        ),
        (forall|j: int| 0 <= j < attrs.len() ==> (#[trigger] attrs[j]).0 != name) <==> find_attr(
            attrs,
            name,
        ) is None,
    decreases attrs.len(),
{
    if attrs.len() > 0 {
        let rest = attrs.skip(1);
        first_attribute_counts(rest, name, at - 1);
        assert forall|j: int| 0 <= j < rest.len() implies rest[j] == #[trigger] attrs[j + 1] by {}
        if attrs[0].0 != name {
            if 0 <= at < attrs.len() && attrs[at].0 == name && (forall|j: int|
                0 <= j < at ==> (#[trigger] attrs[j]).0 != name) {
                assert forall|j: int| 0 <= j < at - 1 implies (#[trigger] rest[j]).0 != name by {
                    assert(rest[j] == attrs[j + 1]);
                }
                assert(rest[at - 1] == attrs[at]);
            }
            if forall|j: int| 0 <= j < rest.len() ==> (#[trigger] rest[j]).0 != name {
                assert forall|j: int| 0 <= j < attrs.len() implies (#[trigger] attrs[j]).0
                    != name by {
                    if j > 0 {
                        assert(rest[j - 1] == attrs[j]);
                    }
                }
            }
            if forall|j: int| 0 <= j < attrs.len() ==> (#[trigger] attrs[j]).0 != name {
                assert forall|j: int| 0 <= j < rest.len() implies (#[trigger] rest[j]).0
                    != name by {
                    assert(rest[j] == attrs[j + 1]);
                }
            }
        }
    }
}

/// What is read of a stanza is what it holds: attributes as texts, numbers and addresses, its
/// bytes, and its children.
pub proof fn stanzas_are_read_as_they_are(node: Node, name: Seq<char>)
    ensures
        node.attr(name) == find_attr(node.attrs@.map_values(|a: Attr| (a.name@, a.value@)), name),
        node.attr(name) is None ==> node.attr_text(name) is None && node.attr_jid(name) is None
            && node.attr_u64(name) is None,
        node.attr(name) matches Some(value) ==> {
            &&& node.attr_text(name) == Some(value.text())
            &&& node.attr_jid(name) == value.jid()
            &&& node.attr_u64(name) == parsed_u64(value.text())
        },
        forall|text: Seq<char>| #[trigger] ValueView::Text(text).text() == text,
        forall|text: Seq<char>| #[trigger] ValueView::Text(text).jid() == jid_of_text(text),
        forall|jid: JidView| #[trigger] ValueView::Jid(jid).text() == jid.text(),
        forall|jid: JidView| #[trigger] ValueView::Jid(jid).jid() == Some(jid),
        node.content matches NodeContent::Bytes(bytes) ==> node.bytes() == Some(bytes@),
        !(node.content is Bytes) ==> node.bytes() is None,
        node.content matches NodeContent::Nodes(nodes) ==> node.child_nodes() == nodes@,
        !(node.content is Nodes) ==> node.child_nodes().len() == 0,
{
    assert(attr_pairs(node.attrs@) =~= node.attrs@.map_values(|a: Attr| (a.name@, a.value@)));
}

/// The children of a tag are exactly those of the stanza's children that have it, in order, and
/// the first of them is the child of that tag.
pub proof fn children_are_found_by_tag(nodes: Seq<Node>, last: Node, node: Node, tag: Seq<char>)
    ensures
        tagged(Seq::empty(), tag) == Seq::<Node>::empty(),
        last.tag@ == tag ==> tagged(nodes.push(last), tag) == tagged(nodes, tag).push(last),
        last.tag@ != tag ==> tagged(nodes.push(last), tag) == tagged(nodes, tag),
        node.children_tagged(tag) == tagged(node.child_nodes(), tag),
        node.children_tagged(tag).len() == 0 ==> node.child(tag) is None,
        node.children_tagged(tag).len() > 0 ==> node.child(tag) == Some(
            node.children_tagged(tag)[0],
        ),
{
    reveal(Seq::filter);
    assert(nodes.push(last).drop_last() =~= nodes);
}

/// What a stanza that is built holds.
pub proof fn built_stanzas_hold_what_is_given(
    tag: Seq<char>,
    attrs: Seq<AttrPair>,
    children: Seq<NodeView>,
    nodes: Seq<Node>,
)
    ensures
        leaf_view(tag, attrs).tag == tag && leaf_view(tag, attrs).attrs == attrs,
        leaf_view(tag, attrs).content is Empty,
        parent_view(tag, attrs, children).tag == tag,
        parent_view(tag, attrs, children).attrs == attrs,
        parent_view(tag, attrs, children).content == ContentView::Nodes(children),
        node_views(nodes).len() == nodes.len(),
        forall|i: int| 0 <= i < nodes.len() ==> #[trigger] node_views(nodes)[i] == node_view(nodes[i]),
{
}

/// What is known of a stanza is all that it holds, down to its last child.
pub proof fn views_hold_everything(node: Node)
    ensures
        node@.tag == node.tag@,
        node@.attrs.len() == node.attrs@.len(),
        forall|i: int|
            0 <= i < node.attrs@.len() ==> #[trigger] node@.attrs[i] == (
                node.attrs@[i].name@,
                node.attrs@[i].value@,
            ),
        match node.content {
            NodeContent::Empty => node@.content is Empty,
            NodeContent::Bytes(bytes) => node@.content == ContentView::Bytes(bytes@),
            NodeContent::Text(text) => node@.content == ContentView::Text(text@),
            NodeContent::Nodes(nodes) => node@.content is Nodes && node@.content->Nodes_0
                == node_views(nodes@),
        },
{
    match node.content {
        NodeContent::Nodes(nodes) => {
            assert(node@.content->Nodes_0 =~= node_views(nodes@));
        },
        _ => {},
    }
}

} // verus!
