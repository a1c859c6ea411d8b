//! The state of the application that the account's devices share.

use vstd::prelude::*;

use crate::node::{
    Attr, Node, NodeView, ValueView, attr_pairs, leaf_view, node_views, parent_view,
};
use crate::text::{decimal, decimal_text, same};

verus! {

/// The collections that the shared state is made of.
#[derive(Clone, Copy, Debug, PartialEq, Eq, Structural)]
pub enum PatchName {
    CriticalBlock,
    CriticalUnblockLow,
    RegularLow,
    RegularHigh,
    Regular,
    Unknown,
}

impl PatchName {
    pub open spec fn name(self) -> Seq<char> {
        match self {
            PatchName::CriticalBlock => "critical_block"@,
            PatchName::CriticalUnblockLow => "critical_unblock_low"@,
            PatchName::RegularLow => "regular_low"@,
            PatchName::RegularHigh => "regular_high"@,
            PatchName::Regular => "regular"@,
            PatchName::Unknown => "unknown"@,
        }
    }

    /// The collection of a given name.
    pub open spec fn of_name(name: Seq<char>) -> PatchName {
        if name == "critical_block"@ {
            PatchName::CriticalBlock
        } else if name == "critical_unblock_low"@ {
            PatchName::CriticalUnblockLow
        } else if name == "regular_low"@ {
            PatchName::RegularLow
        } else if name == "regular_high"@ {
            PatchName::RegularHigh
        } else if name == "regular"@ {
            PatchName::Regular
        } else {
            PatchName::Unknown
        }
    }

    pub fn as_str(self) -> (r: &'static str)
        ensures
            r@ == self.name(),
    {
        match self {
            PatchName::CriticalBlock => "critical_block",
            PatchName::CriticalUnblockLow => "critical_unblock_low",
            PatchName::RegularLow => "regular_low",
            PatchName::RegularHigh => "regular_high",
            PatchName::Regular => "regular",
            PatchName::Unknown => "unknown",
        }
    }

    pub fn parse(name: &str) -> (r: PatchName)
        ensures
            r == PatchName::of_name(name@),
    {
        if same(name, "critical_block") {
            PatchName::CriticalBlock
        } else if same(name, "critical_unblock_low") {
            PatchName::CriticalUnblockLow
        } else if same(name, "regular_low") {
            PatchName::RegularLow
        } else if same(name, "regular_high") {
            PatchName::RegularHigh
        } else if same(name, "regular") {
            PatchName::Regular
        } else {
            PatchName::Unknown
        }
    }
}

/// The collections that the first login after pairing waits for.
pub fn critical_collections() -> (r: Vec<PatchName>)
    ensures
        r@ == seq![PatchName::CriticalBlock, PatchName::CriticalUnblockLow],
{
    let r: Vec<PatchName> = vec![PatchName::CriticalBlock, PatchName::CriticalUnblockLow];
    assert(r@ =~= seq![PatchName::CriticalBlock, PatchName::CriticalUnblockLow]);
    r
}

/// The collections that are synced in the background.
pub fn regular_collections() -> (r: Vec<PatchName>)
    ensures
        r@ == seq![PatchName::RegularLow, PatchName::RegularHigh, PatchName::Regular],
{
    let r: Vec<PatchName> = vec![
        PatchName::RegularLow,
        PatchName::RegularHigh,
        PatchName::Regular,
    ];
    assert(r@ =~= seq![PatchName::RegularLow, PatchName::RegularHigh, PatchName::Regular]);
    r
}

// ---------------------------------------------------------------------------
// Collections that are being synced
// ---------------------------------------------------------------------------

/// The collections that are being synced.
pub struct InFlight {
    names: Vec<PatchName>,
}

impl View for InFlight {
    type V = Set<PatchName>;

    closed spec fn view(&self) -> Set<PatchName> {
        self.names@.to_set()
    }
}

/// What is claimed of a list of collections: those that are not being synced yet, each once.
pub open spec fn claimed(busy: Set<PatchName>, names: Seq<PatchName>) -> Seq<PatchName>
    decreases names.len(),
{
    if names.len() == 0 {
        Seq::empty()
    } else {
        let rest = claimed(busy, names.drop_last());
        if busy.contains(names.last()) || rest.contains(names.last()) {
            rest
        } else {
            rest.push(names.last())
        }
    }
}

impl InFlight {
    /// No collection stands twice.
    #[verifier::type_invariant]
    spec fn inv(self) -> bool {
        self.names@.no_duplicates()
    }

    pub fn new() -> (r: InFlight)
        ensures
            r@ == Set::<PatchName>::empty(),
    {
        let r = InFlight { names: Vec::new() };
        assert(r@ =~= Set::<PatchName>::empty());
        r
    }

    fn position(&self, name: PatchName) -> (r: Option<usize>)
        ensures
            match r {
                Some(i) => i < self.names@.len() && self.names@[i as int] == name && self@.contains(
                    name,
                ),
                None => !self@.contains(name),
            },
    {
        let mut i: usize = 0;
        while i < self.names.len()
            invariant
                i <= self.names@.len(),
                forall|j: int| 0 <= j < i ==> self.names@[j] != name,
            decreases self.names@.len() - i,
        {
            if self.names[i] == name {
                assert(self.names@.contains(name));
                return Some(i);
            }
            i += 1;
        }
        None
    }

    /// How many collections are being synced.
    pub fn len(&self) -> (r: usize)
        ensures
            r == self@.len(),
    {
        proof {
            use_type_invariant(self);
            self.names@.unique_seq_to_set();
        }
        self.names.len()
    }

    /// Whether a collection is being synced.
    pub fn contains(&self, name: PatchName) -> (r: bool)
        ensures
            r == self@.contains(name),
    {
        self.position(name).is_some()
    }

    /// Claims a collection. Tells whether it was free.
    pub fn insert(&mut self, name: PatchName) -> (r: bool)
        ensures
            r == !old(self)@.contains(name),
            final(self)@ == old(self)@.insert(name),
    {
        proof {
            use_type_invariant(&*self);
        }
        if self.position(name).is_some() {
            assert(self@ =~= old(self)@.insert(name));
            return false;
        }
        let ghost before = self.names@;
        let mut names: Vec<PatchName> = Vec::new();
        std::mem::swap(&mut self.names, &mut names);
        names.push(name);
        proof {
            assert forall|n: PatchName| #[trigger] names@.contains(n) == (before.contains(n) || n
                == name) by {
                if before.contains(n) {
                    let j = before.index_of(n);
                    assert(names@[j] == n);
                }
                if n == name {
                    assert(names@[before.len() as int] == n);
                }
                if names@.contains(n) {
                    let j = names@.index_of(n);
                    if j < before.len() {
                        assert(before[j] == n);
                    }
                }
            }
            assert forall|i: int, j: int| 0 <= i < j < names@.len() implies names@[i] != names@[j] by {
                assert(before.contains(before[i]));
            }
        }
        self.names = names;
        assert(self@ =~= old(self)@.insert(name));
        true
    }

    /// Frees a collection.
    pub fn remove(&mut self, name: PatchName)
        ensures
            final(self)@ == old(self)@.remove(name),
    {
        proof {
            use_type_invariant(&*self);
        }
        let mut kept: Vec<PatchName> = Vec::new();
        let mut i: usize = 0;
        while i < self.names.len()
            invariant
                i <= self.names@.len(),
                *self == *old(self),
                self.names@.no_duplicates(),
                kept@.no_duplicates(),
                forall|n: PatchName| #[trigger]
                    kept@.contains(n) <==> n != name && self.names@.take(i as int).contains(n),
            decreases self.names@.len() - i,
        {
            let ghost before = kept@;
            let ghost item = self.names@[i as int];
            proof {
                let longer = self.names@.take(i + 1);
                let shorter = self.names@.take(i as int);
                assert forall|n: PatchName| #[trigger] longer.contains(n) == (shorter.contains(n)
                    || n == item) by {
                    if longer.contains(n) {
                        let j = longer.index_of(n);
                        if j < i {
                            assert(shorter[j] == n);
                        }
                    }
                    if shorter.contains(n) {
                        let j = shorter.index_of(n);
                        assert(longer[j] == n);
                    }
                    if n == item {
                        assert(longer[i as int] == n);
                    }
                }
            }
            if self.names[i] != name {
                proof {
                    if kept@.contains(item) {
                        let j = self.names@.take(i as int).index_of(item);
                        assert(self.names@[j] == item);
                    }
                }
                kept.push(self.names[i]);
                proof {
                    assert forall|m: int, n: int| 0 <= m < n < kept@.len() implies kept@[m]
                        != kept@[n] by {
                        assert(before.contains(before[m]));
                    }
                    assert forall|n: PatchName| #[trigger] kept@.contains(n) == (before.contains(n) || n
                        == item) by {
                        if before.contains(n) {
                            let j = before.index_of(n);
                            assert(kept@[j] == n);
                        }
                        if n == item {
                            assert(kept@[before.len() as int] == n);
                        }
                        if kept@.contains(n) {
                            let j = kept@.index_of(n);
                            if j < before.len() {
                                assert(before[j] == n);
                            }
                        }
                    }
                }
            }
            i += 1;
        }
        assert(self.names@.take(self.names@.len() as int) =~= self.names@);
        self.names = kept;
        assert(self@ =~= old(self)@.remove(name));
    }

    /// Claims those of a list of collections that are free.
    pub fn claim(&mut self, names: &Vec<PatchName>) -> (r: Vec<PatchName>)
        ensures
            r@ == claimed(old(self)@, names@),
            final(self)@ == old(self)@.union(r@.to_set()),
    {
        let mut taken: Vec<PatchName> = Vec::new();
        let mut i: usize = 0;
        assert(self@ =~= old(self)@.union(taken@.to_set()));
        assert(taken@ =~= claimed(old(self)@, names@.take(0)));
        while i < names.len()
            invariant
                i <= names@.len(),
                taken@ == claimed(old(self)@, names@.take(i as int)),
                self@ == old(self)@.union(taken@.to_set()),
            decreases names@.len() - i,
        {
            let ghost before = taken@;
            let ghost busy = self@;
            let name = names[i];
            proof {
                assert(names@.take(i + 1).drop_last() =~= names@.take(i as int));
            }
            if self.insert(name) {
                taken.push(name);
                proof {
                    assert forall|n: PatchName| #[trigger] taken@.contains(n) == (before.contains(n) || n
                        == name) by {
                        if before.contains(n) {
                            let j = before.index_of(n);
                            assert(taken@[j] == n);
                        }
                        if n == name {
                            assert(taken@[before.len() as int] == n);
                        }
                        if taken@.contains(n) {
                            let j = taken@.index_of(n);
                            if j < before.len() {
                                assert(before[j] == n);
                            }
                        }
                    }
                    assert(!before.contains(name)) by {
                        assert(!busy.contains(name));
                    }
                }
            } else {
                assert(busy.contains(name));
            }
            assert(self@ =~= old(self)@.union(taken@.to_set()));
            i += 1;
        }
        assert(names@.take(names@.len() as int) =~= names@);
        taken
    }

    /// Frees a list of collections.
    pub fn release(&mut self, names: &Vec<PatchName>)
        ensures
            final(self)@ == old(self)@.difference(names@.to_set()),
    {
        let mut i: usize = 0;
        assert(self@ =~= old(self)@.difference(names@.take(0).to_set()));
        while i < names.len()
            invariant
                i <= names@.len(),
                self@ == old(self)@.difference(names@.take(i as int).to_set()),
            decreases names@.len() - i,
        {
            let name = names[i];
            self.remove(name);
            proof {
                let longer = names@.take(i + 1);
                let shorter = names@.take(i as int);
                assert forall|n: PatchName| #[trigger] longer.contains(n) == (shorter.contains(n) || n
                    == name) by {
                    if longer.contains(n) {
                        let j = longer.index_of(n);
                        if j < i {
                            assert(shorter[j] == n);
                        }
                    }
                    if shorter.contains(n) {
                        let j = shorter.index_of(n);
                        assert(longer[j] == n);
                    }
                    if n == name {
                        assert(longer[i as int] == n);
                    }
                }
                assert(self@ =~= old(self)@.difference(longer.to_set()));
            }
            i += 1;
        }
        assert(names@.take(names@.len() as int) =~= names@);
    }

    /// Frees everything.
    pub fn clear(&mut self)
        ensures
            final(self)@ == Set::<PatchName>::empty(),
    {
        self.names = Vec::new();
        assert(self@ =~= Set::<PatchName>::empty());
    }
}

/// No two syncs work on the same collection: what a sync claims was free, and each collection
/// is claimed once.
pub proof fn claims_are_exclusive(busy: Set<PatchName>, names: Seq<PatchName>)
    ensures
        claimed(busy, names).no_duplicates(),
        forall|n: PatchName| #[trigger]
            claimed(busy, names).contains(n) <==> names.contains(n) && !busy.contains(n),
    decreases names.len(),
{
    if names.len() > 0 {
        let front = names.drop_last();
        let last = names.last();
        claims_are_exclusive(busy, front);
        let rest = claimed(busy, front);
        assert forall|n: PatchName| #[trigger] names.contains(n) == (front.contains(n) || n == last) by {
            if names.contains(n) {
                let j = names.index_of(n);
                if j < front.len() {
                    assert(front[j] == n);
                }
            }
            if front.contains(n) {
                let j = front.index_of(n);
                assert(names[j] == n);
            }
            if n == last {
                assert(names[names.len() - 1] == n);
            }
        }
        if !busy.contains(last) && !rest.contains(last) {
            assert forall|n: PatchName| #[trigger] rest.push(last).contains(n) == (rest.contains(n) || n
                == last) by {
                if rest.push(last).contains(n) {
                    let j = rest.push(last).index_of(n);
                    if j < rest.len() {
                        assert(rest[j] == n);
                    }
                }
                if rest.contains(n) {
                    let j = rest.index_of(n);
                    assert(rest.push(last)[j] == n);
                }
                if n == last {
                    assert(rest.push(last)[rest.len() as int] == n);
                }
            }
        }
    }
}

/// When a sync is over, what it claimed is free again and nothing else has changed.
pub proof fn release_undoes_claim(busy: Set<PatchName>, names: Seq<PatchName>)
    ensures
        busy.union(claimed(busy, names).to_set()).difference(claimed(busy, names).to_set())
            == busy,
{
    claims_are_exclusive(busy, names);
    let taken = claimed(busy, names).to_set();
    assert(busy.union(taken).difference(taken) =~= busy);
}

// ---------------------------------------------------------------------------
// Requests
// ---------------------------------------------------------------------------

/// The request for one collection: the whole of it, or what came after a version.
pub open spec fn collection_view(name: Seq<char>, version: Option<u64>) -> NodeView {
    leaf_view(
        "collection"@,
        match version {
            None => seq![
                ("name"@, ValueView::Text(name)),
                ("return_snapshot"@, ValueView::Text("true"@)),
            ],
            Some(v) => seq![
                ("name"@, ValueView::Text(name)),
                ("return_snapshot"@, ValueView::Text("false"@)),
                ("version"@, ValueView::Text(decimal_text(v as nat))),
            ],
        },
    )
}

/// The version that is asked for: none, that is the whole of it, where none is known.
pub open spec fn wanted_version(version: u64, want_snapshot: bool) -> Option<u64> {
    if want_snapshot {
        None
    } else {
        Some(version)
    }
}

/// Builds the request for one collection.
pub fn collection_node(name: PatchName, version: u64, want_snapshot: bool) -> (r: Node)
    ensures
        r@ == collection_view(name.name(), wanted_version(version, want_snapshot)),
{
    let mut attrs: Vec<Attr> = Vec::new();
    attrs.push(Attr::text("name", name.as_str()));
    if want_snapshot {
        attrs.push(Attr::text("return_snapshot", "true"));
    } else {
        attrs.push(Attr::text("return_snapshot", "false"));
        let number = decimal(version);
        attrs.push(Attr::text("version", number.as_str()));
    }
    assert(attr_pairs(attrs@) =~= collection_view(
        name.name(),
        wanted_version(version, want_snapshot),
    ).attrs);
    Node::leaf("collection", attrs)
}

/// The requests for a list of collections whose versions are known: a collection of version
/// zero is asked for as a whole.
pub open spec fn request_views(names: Seq<PatchName>, versions: Seq<u64>) -> Seq<NodeView> {
    Seq::new(
        names.len(),
        |i: int|
            collection_view(
                names[i].name(),
                wanted_version(versions[i], versions[i] == 0),
            ),
    )
}

/// Builds the `<sync>` stanza for a list of collections, given the version of each.
pub fn sync_request(names: &Vec<PatchName>, versions: &Vec<u64>) -> (r: Node)
    requires
        names@.len() == versions@.len(),
    ensures
        r@ == parent_view("sync"@, Seq::empty(), request_views(names@, versions@)),
{
    let mut children: Vec<Node> = Vec::new();
    let mut i: usize = 0;
    while i < names.len()
        invariant
            i <= names@.len(),
            names@.len() == versions@.len(),
            children@.len() == i,
            forall|j: int|
                0 <= j < i ==> (#[trigger] children@[j])@ == request_views(names@, versions@)[j],
        decreases names@.len() - i,
    {
        children.push(collection_node(names[i], versions[i], versions[i] == 0));
        i += 1;
    }
    assert(node_views(children@) =~= request_views(names@, versions@));
    let attrs: Vec<Attr> = Vec::new();
    assert(attr_pairs(attrs@) =~= Seq::empty());
    Node::parent("sync", attrs, children)
}

/// Builds the `<sync>` stanza for one page of one collection.
pub fn page_request(name: PatchName, version: u64, want_snapshot: bool) -> (r: Node)
    ensures
        r@ == parent_view(
            "sync"@,
            Seq::empty(),
            seq![collection_view(name.name(), wanted_version(version, want_snapshot))],
        ),
{
    let child = collection_node(name, version, want_snapshot);
    let ghost view = child@;
    let mut children: Vec<Node> = Vec::new();
    children.push(child);
    assert(node_views(children@) =~= seq![view]);
    let attrs: Vec<Attr> = Vec::new();
    assert(attr_pairs(attrs@) =~= Seq::empty());
    Node::parent("sync", attrs, children)
}

/// Builds the `<sync>` stanza that sends a change to a collection, given the version that the
/// change is based on. The collection is to be fetched again afterwards.
pub fn patch_request(collection: &str, base_version: u64, patch: Vec<u8>) -> (r: (Node, PatchName))
    ensures
        r.0@ == parent_view(
            "sync"@,
            Seq::empty(),
            seq![
                parent_view(
                    "collection"@,
                    seq![
                        ("name"@, ValueView::Text(collection@)),
                        ("version"@, ValueView::Text(decimal_text(base_version as nat))),
                        ("return_snapshot"@, ValueView::Text("false"@)),
                    ],
                    seq![
                        NodeView {
                            tag: "patch"@,
                            attrs: Seq::empty(),
                            content: crate::node::ContentView::Bytes(patch@),
                        },
                    ],
                ),
            ],
        ),
        r.1 == PatchName::of_name(collection@),
{
    let no_attrs: Vec<Attr> = Vec::new();
    assert(attr_pairs(no_attrs@) =~= Seq::empty());
    let patch_node = Node::with_bytes("patch", no_attrs, patch);
    let ghost patch_view = patch_node@;
    let mut inner: Vec<Node> = Vec::new();
    inner.push(patch_node);
    assert(node_views(inner@) =~= seq![patch_view]);
    let number = decimal(base_version);
    let mut attrs: Vec<Attr> = Vec::new();
    attrs.push(Attr::text("name", collection));
    attrs.push(Attr::text("version", number.as_str()));
    attrs.push(Attr::text("return_snapshot", "false"));
    assert(attr_pairs(attrs@) =~= seq![
        ("name"@, ValueView::Text(collection@)),
        ("version"@, ValueView::Text(number@)),
        ("return_snapshot"@, ValueView::Text("false"@)),
    ]);
    let collection_stanza = Node::parent("collection", attrs, inner);
    let ghost collection_stanza_view = collection_stanza@;
    let mut children: Vec<Node> = Vec::new();
    children.push(collection_stanza);
    assert(node_views(children@) =~= seq![collection_stanza_view]);
    let outer: Vec<Attr> = Vec::new();
    assert(attr_pairs(outer@) =~= Seq::empty());
    (Node::parent("sync", outer, children), PatchName::parse(collection))
}

/// Each collection has its own name and is found by it; any other name is that of no known
/// collection.
pub proof fn collections_have_names(collection: PatchName, name: Seq<char>)
    ensures
        collection == PatchName::CriticalBlock ==> collection.name() == "critical_block"@,
        collection == PatchName::CriticalUnblockLow ==> collection.name()
            == "critical_unblock_low"@,
        collection == PatchName::RegularLow ==> collection.name() == "regular_low"@,
        collection == PatchName::RegularHigh ==> collection.name() == "regular_high"@,
        collection == PatchName::Regular ==> collection.name() == "regular"@,
        collection == PatchName::Unknown ==> collection.name() == "unknown"@,
        PatchName::of_name(collection.name()) == collection,
        PatchName::of_name(name) != PatchName::Unknown ==> PatchName::of_name(name).name() == name,
{
    reveal_strlit("critical_block");
    reveal_strlit("critical_unblock_low");
    reveal_strlit("regular_low");
    reveal_strlit("regular_high");
    reveal_strlit("regular");
    reveal_strlit("unknown");
    assert(("critical_block"@).len() == 14);
    assert(("critical_unblock_low"@).len() == 20);
    assert(("regular_low"@).len() == 11);
    assert(("regular_high"@).len() == 12);
    assert(("regular"@).len() == 7 && ("unknown"@).len() == 7);
    assert(("regular"@)[0] == 'r' && ("unknown"@)[0] == 'u');
}

/// Collections are claimed in the order in which they are asked for.
pub proof fn claims_keep_their_order(busy: Set<PatchName>, names: Seq<PatchName>, name: PatchName)
    ensures
        claimed(busy, names.push(name)) == (if busy.contains(name) || names.contains(name) {
            claimed(busy, names)
        } else {
            claimed(busy, names).push(name)
        }),
        claimed(busy, Seq::empty()) == Seq::<PatchName>::empty(),
{
    assert(names.push(name).drop_last() =~= names);
    claims_are_exclusive(busy, names);
}

/// The whole of a collection is asked for exactly where that is wanted; otherwise what came after
/// the version that is known. A list of collections is asked for one by one, each as a whole where
/// nothing of it is known.
pub proof fn requests_name_what_is_known(
    names: Seq<PatchName>,
    versions: Seq<u64>,
    at: int,
    version: u64,
)
    requires
        names.len() == versions.len(),
        0 <= at < names.len(),
    ensures
        request_views(names, versions).len() == names.len(),
        versions[at] == 0 ==> request_views(names, versions)[at] == collection_view(
            names[at].name(),
            None,
        ),
        versions[at] > 0 ==> request_views(names, versions)[at] == collection_view(
            names[at].name(),
            Some(versions[at]),
        ),
        wanted_version(version, true) is None,
        wanted_version(version, false) == Some(version),
{
}

/// How a collection is asked for: by its name, with its version where only what came after that is
/// wanted.
pub proof fn collections_are_asked_for_by_name(name: Seq<char>, version: u64)
    ensures
        collection_view(name, None).tag == "collection"@,
        collection_view(name, None).content == crate::node::ContentView::Empty,
        collection_view(name, None).attrs == seq![
            ("name"@, ValueView::Text(name)),
            ("return_snapshot"@, ValueView::Text("true"@)),
        ],
        collection_view(name, Some(version)).tag == "collection"@,
        collection_view(name, Some(version)).content == crate::node::ContentView::Empty,
        collection_view(name, Some(version)).attrs == seq![
            ("name"@, ValueView::Text(name)),
            ("return_snapshot"@, ValueView::Text("false"@)),
            ("version"@, ValueView::Text(decimal_text(version as nat))),
        ],
{
}

} // verus!
