//! Fetching the shared state: which blobs to download, which collections to fetch again, when
//! to stop.

use vstd::prelude::*;
use prost::Message;
use crate::client::app_state::PatchName;
use crate::text_map::TextMap;

verus! {

/// A reference to a blob that is kept outside the stanza.
pub struct BlobRef {
    /// Where it is; without a path it cannot be had.
    pub path: Option<String>,
    /// The reference in its encoding.
    pub encoded: Vec<u8>,
}

/// What a [`BlobRef`] holds, as mathematics.
pub struct BlobView {
    pub path: Option<Seq<char>>,
    pub encoded: Seq<u8>,
}

impl View for BlobRef {
    type V = BlobView;

    open spec fn view(&self) -> BlobView {
        BlobView {
            path: match self.path {
                Some(p) => Some(p@),
                None => None,
            },
            encoded: self.encoded@,
        }
    }
}

/// What a reference that may be missing holds.
pub open spec fn opt_blob(blob: Option<BlobRef>) -> Option<BlobView> {
    match blob {
        Some(b) => Some(b@),
        None => None,
    }
}

/// The blobs that the response for one collection refers to.
pub struct PatchSummary {
    pub snapshot: Option<BlobRef>,
    /// For each patch the blob with its changes, where they are kept outside.
    pub patches: Vec<Option<BlobRef>>,
}

/// What a [`PatchSummary`] holds, as mathematics.
pub struct SummaryView {
    pub snapshot: Option<BlobView>,
    pub patches: Seq<Option<BlobView>>,
}

impl View for PatchSummary {
    type V = SummaryView;

    open spec fn view(&self) -> SummaryView {
        SummaryView {
            snapshot: opt_blob(self.snapshot),
            patches: self.patches@.map_values(|b: Option<BlobRef>| opt_blob(b)),
        }
    }
}

/// What a list of summaries holds.
pub open spec fn summary_views(lists: Seq<PatchSummary>) -> Seq<SummaryView> {
    lists.map_values(|l: PatchSummary| l@)
}

/// The blobs that `wacore::appstate::patch_decode::parse_patch_lists_ref` finds in the stanza
/// that some bytes stand for; `None` where it refuses the stanza.
pub uninterp spec fn patch_lists(buffer: Seq<u8>) -> Option<Seq<SummaryView>>;

/// The same for `wacore::appstate::patch_decode::parse_patch_list_ref`, which looks at one
/// collection only.
pub uninterp spec fn patch_list(buffer: Seq<u8>) -> Option<SummaryView>;

/// Calls `wacore::appstate::patch_decode::parse_patch_lists_ref` on the stanza that the bytes
/// stand for. The references depend on the bytes alone, and are named.
#[verifier::external_body]
fn parse_patch_lists(buffer: &[u8]) -> (r: Option<Vec<PatchSummary>>)
    ensures
        match r {
            Some(lists) => patch_lists(buffer@) == Some(summary_views(lists@)),
            None => patch_lists(buffer@) is None,
        },
{
    let node = wacore_binary::marshal::unmarshal_ref(buffer).ok()?;
    let lists = wacore::appstate::patch_decode::parse_patch_lists_ref(&node).ok()?;
    let blob = |b: &waproto::whatsapp::ExternalBlobReference| BlobRef { path: b.direct_path.clone(), encoded: b.encode_to_vec() };
    let summary = |list: &wacore::appstate::patch_decode::PatchList| PatchSummary {
        snapshot: list.snapshot_ref.as_ref().map(blob),
        patches: list.patches.iter().map(|patch| patch.external_mutations.as_ref().map(blob)).collect(),
    };
    Some(lists.iter().map(summary).collect())
}

/// Calls `wacore::appstate::patch_decode::parse_patch_list_ref` on the stanza that the bytes
/// stand for. The references depend on the bytes alone, and are named.
#[verifier::external_body]
fn parse_patch_list(buffer: &[u8]) -> (r: Option<PatchSummary>)
    ensures
        match r {
            Some(list) => patch_list(buffer@) == Some(list@),
            None => patch_list(buffer@) is None,
        },
{
    let node = wacore_binary::marshal::unmarshal_ref(buffer).ok()?;
    let list = wacore::appstate::patch_decode::parse_patch_list_ref(&node).ok()?;
    let blob = |b: &waproto::whatsapp::ExternalBlobReference| BlobRef { path: b.direct_path.clone(), encoded: b.encode_to_vec() };
    Some(PatchSummary {
        snapshot: list.snapshot_ref.as_ref().map(blob),
        patches: list.patches.iter().map(|patch| patch.external_mutations.as_ref().map(blob)).collect(),
    })
}

/// A blob to download.
pub struct Download {
    pub path: String,
    pub encoded: Vec<u8>,
}

/// The path and the encoded reference of each of a list of blobs.
pub open spec fn download_views(downloads: Seq<Download>) -> Seq<(Seq<char>, Seq<u8>)> {
    downloads.map_values(|d: Download| (d.path@, d.encoded@))
}

/// The blob, if there is one and it has a path.
pub open spec fn reachable(blob: Option<BlobView>) -> Seq<(Seq<char>, Seq<u8>)> {
    match blob {
        Some(b) => match b.path {
            Some(path) => seq![(path, b.encoded)],
            None => Seq::empty(),
        },
        None => Seq::empty(),
    }
}

/// The reachable ones of a list of blobs.
pub open spec fn all_reachable(blobs: Seq<Option<BlobView>>) -> Seq<(Seq<char>, Seq<u8>)>
    decreases blobs.len(),
{
    if blobs.len() == 0 {
        Seq::empty()
    } else {
        all_reachable(blobs.drop_last()) + reachable(blobs.last())
    }
}

/// What a response refers to: for each collection its snapshot, then the changes of each patch.
pub open spec fn wanted_blobs(lists: Seq<SummaryView>) -> Seq<(Seq<char>, Seq<u8>)>
    decreases lists.len(),
{
    if lists.len() == 0 {
        Seq::empty()
    } else {
        wanted_blobs(lists.drop_last()) + reachable(lists.last().snapshot) + all_reachable(
            lists.last().patches,
        )
    }
}

fn push_blob(out: &mut Vec<Download>, blob: &Option<BlobRef>)
    ensures
        download_views(final(out)@) == download_views(old(out)@) + reachable(opt_blob(*blob)),
{
    match blob {
        Some(b) => match &b.path {
            Some(path) => {
                let encoded = b.encoded.clone();
                assert(encoded@ =~= b.encoded@);
                out.push(Download { path: path.clone(), encoded });
            },
            None => {},
        },
        None => {},
    }
    assert(download_views(out@) =~= download_views(old(out)@) + reachable(opt_blob(*blob)));
}

fn push_list(out: &mut Vec<Download>, list: &PatchSummary)
    ensures
        download_views(final(out)@) == download_views(old(out)@) + reachable(list@.snapshot)
            + all_reachable(list@.patches),
{
    push_blob(out, &list.snapshot);
    let ghost start = download_views(out@);
    let ghost blobs = list@.patches;
    let mut i: usize = 0;
    assert(start =~= start + all_reachable(blobs.take(0)));
    while i < list.patches.len()
        invariant
            i <= list.patches@.len(),
            blobs == list@.patches,
            download_views(out@) == start + all_reachable(blobs.take(i as int)),
        decreases list.patches@.len() - i,
    {
        proof {
            assert(blobs.take(i + 1).drop_last() =~= blobs.take(i as int));
            assert(blobs.take(i + 1).last() == opt_blob(list.patches@[i as int]));
        }
        push_blob(out, &list.patches[i]);
        assert(download_views(out@) =~= start + all_reachable(blobs.take(i + 1)));
        i += 1;
    }
    assert(blobs.take(blobs.len() as int) =~= blobs);
}

/// The blobs to download for a list of summaries.
pub fn blobs_of(lists: &Vec<PatchSummary>) -> (r: Vec<Download>)
    ensures
        download_views(r@) == wanted_blobs(summary_views(lists@)),
{
    let mut out: Vec<Download> = Vec::new();
    let ghost all = summary_views(lists@);
    let mut i: usize = 0;
    assert(download_views(out@) =~= wanted_blobs(all.take(0)));
    while i < lists.len()
        invariant
            i <= lists@.len(),
            all == summary_views(lists@),
            download_views(out@) == wanted_blobs(all.take(i as int)),
        decreases lists@.len() - i,
    {
        proof {
            assert(all.take(i + 1).drop_last() =~= all.take(i as int));
            assert(all.take(i + 1).last() == lists@[i as int]@);
        }
        push_list(&mut out, &lists[i]);
        i += 1;
    }
    assert(all.take(all.len() as int) =~= all);
    out
}

/// The blobs to download for the response to a request for several collections. A response that
/// cannot be read refers to none.
pub fn batch_downloads(buffer: &Vec<u8>) -> (r: Vec<Download>)
    ensures
        download_views(r@) == (match patch_lists(buffer@) {
            Some(lists) => wanted_blobs(lists),
            None => Seq::empty(),
        }),
{
    match parse_patch_lists(buffer.as_slice()) {
        Some(lists) => blobs_of(&lists),
        None => {
            let none: Vec<Download> = Vec::new();
            assert(download_views(none@) =~= Seq::empty());
            none
        },
    }
}

/// The blobs to download for the response to a request for one collection.
pub fn page_downloads(buffer: &Vec<u8>) -> (r: Vec<Download>)
    ensures
        download_views(r@) == (match patch_list(buffer@) {
            Some(list) => wanted_blobs(seq![list]),
            None => Seq::empty(),
        }),
{
    match parse_patch_list(buffer.as_slice()) {
        Some(list) => {
            let ghost view = list@;
            let mut lists: Vec<PatchSummary> = Vec::new();
            lists.push(list);
            assert(summary_views(lists@) =~= seq![view]);
            blobs_of(&lists)
        },
        None => {
            let none: Vec<Download> = Vec::new();
            assert(download_views(none@) =~= Seq::empty());
            none
        },
    }
}

/// Why a blob is not at hand.
#[derive(Clone, Copy, Debug, PartialEq, Eq, Structural)]
pub enum BlobError {
    /// It could not be downloaded.
    NotDownloaded,
    /// The reference has no path.
    NoPath,
}

/// The blob at a path, among those that were downloaded.
pub fn find_blob<'a>(downloaded: &'a TextMap<Vec<u8>>, path: Option<&str>) -> (r: Result<
    &'a Vec<u8>,
    BlobError,
>)
    ensures
        match (path, r) {
            (None, r) => r == Err::<&'a Vec<u8>, BlobError>(BlobError::NoPath),
            (Some(p), Ok(bytes)) => downloaded@.dom().contains(p@) && *bytes == downloaded@[p@],
            (Some(p), Err(e)) => !downloaded@.dom().contains(p@) && e == BlobError::NotDownloaded,
        },
{
    match path {
        Some(p) => match downloaded.get(p) {
            Some(bytes) => Ok(bytes),
            None => Err(BlobError::NotDownloaded),
        },
        None => Err(BlobError::NoPath),
    }
}

// ---------------------------------------------------------------------------
// Several collections at once
// ---------------------------------------------------------------------------

/// How often collections with more changes to come are asked for again.
pub const MAX_BATCH_ITERATIONS: usize = 5;

/// What the server says is wrong with a collection.
#[derive(Clone, Copy, Debug, PartialEq, Eq, Structural)]
pub enum CollectionError {
    /// Someone else changed it meanwhile.
    Conflict { has_more: bool },
    /// It cannot be had.
    Fatal,
    /// It may be had later.
    Retry,
}

/// What is to be done with the response for a collection.
#[derive(Clone, Copy, Debug, PartialEq, Eq, Structural)]
pub enum CollectionStep {
    /// Nothing: the conflict is over, since we have no changes of our own to push, or the
    /// collection cannot be had.
    Drop,
    /// Ask for it again.
    Refetch,
    /// Ask for the keys that are missing, apply the changes, and note the version.
    Apply {
        /// The changes are the whole of the collection.
        full_sync: bool,
        /// More are to come: ask for it again.
        refetch: bool,
    },
}

impl CollectionStep {
    /// Whether the collection is asked for again.
    pub open spec fn refetches(self) -> bool {
        match self {
            CollectionStep::Drop => false,
            CollectionStep::Refetch => true,
            CollectionStep::Apply { refetch, .. } => refetch,
        }
    }
}

/// What is to be done with the response for a collection, by what is wrong with it, whether more
/// changes are to come, and whether it was asked for as a whole.
pub open spec fn collection_step(
    error: Option<CollectionError>,
    has_more: bool,
    was_snapshot: bool,
) -> CollectionStep {
    match error {
        Some(CollectionError::Conflict { has_more }) => if has_more {
            CollectionStep::Refetch
        } else {
            CollectionStep::Drop
        },
        Some(CollectionError::Fatal) => CollectionStep::Drop,
        Some(CollectionError::Retry) => CollectionStep::Refetch,
        None => CollectionStep::Apply { full_sync: was_snapshot, refetch: has_more },
    }
}

/// A sync of several collections at once.
pub struct BatchedSync {
    /// The collections to ask for next.
    pub pending: Vec<PatchName>,
    /// Those of them that were asked for as a whole.
    pub snapshots: Vec<PatchName>,
    /// Those of them that are to be asked for again.
    pub refetch: Vec<PatchName>,
    pub iteration: usize,
}

/// The collections of version zero: they are asked for as a whole.
pub open spec fn unversioned(names: Seq<PatchName>, versions: Seq<u64>) -> Seq<PatchName>
    decreases names.len(),
{
    if names.len() == 0 {
        Seq::empty()
    } else {
        let rest = unversioned(names.drop_last(), versions);
        if versions[names.len() - 1] == 0 {
            rest.push(names.last())
        } else {
            rest
        }
    }
}

impl BatchedSync {
    pub fn new(pending: Vec<PatchName>) -> (r: BatchedSync)
        ensures
            r.pending == pending,
            r.snapshots@ == Seq::<PatchName>::empty(),
            r.refetch@ == Seq::<PatchName>::empty(),
            r.iteration == 0,
    {
        BatchedSync { pending, snapshots: Vec::new(), refetch: Vec::new(), iteration: 0 }
    }

    /// Whether collections are left to ask for, and may be.
    pub open spec fn goes_on(self) -> bool {
        self.pending@.len() > 0 && self.iteration < MAX_BATCH_ITERATIONS
    }

    /// Begins a round, given the versions of the pending collections. Tells whether there is
    /// one: if so, the pending collections are to be asked for.
    pub fn begin_round(&mut self, versions: &Vec<u64>) -> (r: bool)
        requires
            versions@.len() == old(self).pending@.len(),
        ensures
            r == old(self).goes_on(),
            final(self).pending == old(self).pending,
            r ==> {
                &&& final(self).iteration == old(self).iteration + 1
                &&& final(self).snapshots@ == unversioned(old(self).pending@, versions@)
                &&& final(self).refetch@ == Seq::<PatchName>::empty()
            },
            !r ==> *final(self) == *old(self),
    {
        if self.pending.len() == 0 || self.iteration >= MAX_BATCH_ITERATIONS {
            return false;
        }
        let mut snapshots: Vec<PatchName> = Vec::new();
        let mut i: usize = 0;
        let ghost names = self.pending@;
        assert(snapshots@ =~= unversioned(names.take(0), versions@));
        while i < self.pending.len()
            invariant
                i <= self.pending@.len(),
                *self == *old(self),
                names == self.pending@,
                versions@.len() == names.len(),
                snapshots@ == unversioned(names.take(i as int), versions@),
            decreases self.pending@.len() - i,
        {
            proof {
                assert(names.take(i + 1).drop_last() =~= names.take(i as int));
            }
            if versions[i] == 0 {
                snapshots.push(self.pending[i]);
            }
            i += 1;
        }
        assert(names.take(names.len() as int) =~= names);
        self.iteration = self.iteration + 1;
        self.snapshots = snapshots;
        self.refetch = Vec::new();
        true
    }

    fn was_snapshot(&self, name: PatchName) -> (r: bool)
        ensures
            r == self.snapshots@.contains(name),
    {
        let mut i: usize = 0;
        while i < self.snapshots.len()
            invariant
                i <= self.snapshots@.len(),
                forall|j: int| 0 <= j < i ==> self.snapshots@[j] != name,
            decreases self.snapshots@.len() - i,
        {
            if self.snapshots[i] == name {
                return true;
            }
            i += 1;
        }
        false
    }

    /// Takes in the response for a collection, and says what to do with it.
    pub fn settle(&mut self, name: PatchName, error: Option<CollectionError>, has_more: bool) -> (r:
        CollectionStep)
        ensures
            r == collection_step(error, has_more, old(self).snapshots@.contains(name)),
            final(self).refetch@ == (if r.refetches() {
                old(self).refetch@.push(name)
            } else {
                old(self).refetch@
            }),
            final(self).pending == old(self).pending,
            final(self).snapshots == old(self).snapshots,
            final(self).iteration == old(self).iteration,
    {
        match error {
            Some(CollectionError::Conflict { has_more: more }) => {
                if more {
                    self.refetch.push(name);
                    CollectionStep::Refetch
                } else {
                    CollectionStep::Drop
                }
            },
            Some(CollectionError::Fatal) => CollectionStep::Drop,
            Some(CollectionError::Retry) => {
                self.refetch.push(name);
                CollectionStep::Refetch
            },
            None => {
                let full_sync = self.was_snapshot(name);
                if has_more {
                    self.refetch.push(name);
                }
                CollectionStep::Apply { full_sync, refetch: has_more }
            },
        }
    }

    /// Ends a round: what is to be asked for again is pending now.
    pub fn end_round(&mut self)
        ensures
            final(self).pending@ == old(self).refetch@,
            final(self).refetch@ == Seq::<PatchName>::empty(),
            final(self).snapshots == old(self).snapshots,
            final(self).iteration == old(self).iteration,
    {
        let mut next: Vec<PatchName> = Vec::new();
        std::mem::swap(&mut self.refetch, &mut next);
        self.pending = next;
    }
}

/// Changes count as the whole of a collection only if the collection was asked for as a whole.
pub proof fn full_sync_means_snapshot(
    error: Option<CollectionError>,
    has_more: bool,
    was_snapshot: bool,
)
    ensures
        collection_step(error, has_more, was_snapshot) matches CollectionStep::Apply {
            full_sync,
            ..
        } ==> full_sync == was_snapshot,
        error is Some ==> !(collection_step(error, has_more, was_snapshot) is Apply),
{
}

/// A collection is asked for as a whole exactly if its version is zero.
pub proof fn snapshots_are_unversioned(names: Seq<PatchName>, versions: Seq<u64>, name: PatchName)
    requires
        names.len() <= versions.len(),
    ensures
        unversioned(names, versions).contains(name) <==> exists|i: int|
            0 <= i < names.len() && #[trigger] names[i] == name && versions[i] == 0,
    decreases names.len(),
{
    if names.len() > 0 {
        let front = names.drop_last();
        let n = names.len() - 1;
        snapshots_are_unversioned(front, versions, name);
        let rest = unversioned(front, versions);
        let all = unversioned(names, versions);
        if all.contains(name) {
            let j = all.index_of(name);
            if j < rest.len() {
                assert(rest[j] == name);
                let i = choose|i: int|
                    0 <= i < front.len() && #[trigger] front[i] == name && versions[i] == 0;
                assert(names[i] == name);
            } else {
                assert(names[n] == name);
            }
        }
        if exists|i: int| 0 <= i < names.len() && #[trigger] names[i] == name && versions[i] == 0 {
            let i = choose|i: int|
                0 <= i < names.len() && #[trigger] names[i] == name && versions[i] == 0;
            if i < n {
                assert(front[i] == name);
                let j = rest.index_of(name);
                assert(all[j] == name);
            } else {
                assert(all[rest.len() as int] == name);
            }
        }
    }
}

// ---------------------------------------------------------------------------
// One collection, page by page
// ---------------------------------------------------------------------------

/// How many pages of a collection are fetched at the most.
pub const MAX_PAGINATION_ITERATIONS: u32 = 500;

/// A sync of one collection.
#[derive(Clone, Copy, Debug, PartialEq, Eq, Structural)]
pub struct PagedSync {
    /// The changes are the whole of the collection.
    pub full_sync: bool,
    /// The next page is to be the whole of the collection.
    pub want_snapshot: bool,
    pub has_more: bool,
    pub iteration: u32,
    pub version: u64,
}

impl PagedSync {
    /// A sync before its first page.
    pub open spec fn fresh(full_sync: bool, version: u64) -> PagedSync {
        PagedSync {
            full_sync: full_sync || version == 0,
            want_snapshot: full_sync || version == 0,
            has_more: true,
            iteration: 0,
            version,
        }
    }

    /// A sync of a collection of a given version: without a version, the whole of it. None is
    /// begun on a connection that is about to end.
    pub fn begin(full_sync: bool, version: u64, shutting_down: bool) -> (r: Option<PagedSync>)
        ensures
            r == (if shutting_down {
                None
            } else {
                Some(PagedSync::fresh(full_sync, version))
            }),
    {
        if shutting_down {
            return None;
        }
        let whole = full_sync || version == 0;
        Some(
            PagedSync {
                full_sync: whole,
                want_snapshot: whole,
                has_more: true,
                iteration: 0,
                version,
            },
        )
    }

    /// Whether another page is to be fetched.
    pub open spec fn goes_on(self, shutting_down: bool) -> bool {
        self.has_more && !shutting_down && self.iteration < MAX_PAGINATION_ITERATIONS
    }

    /// Begins a page. Tells whether there is one to fetch; if not, the version is to be saved.
    pub fn begin_page(&mut self, shutting_down: bool) -> (r: bool)
        ensures
            r == old(self).goes_on(shutting_down),
            *final(self) == (if r {
                PagedSync { iteration: (old(self).iteration + 1) as u32, ..*old(self) }
            } else {
                *old(self)
            }),
    {
        if !self.has_more || shutting_down || self.iteration >= MAX_PAGINATION_ITERATIONS {
            return false;
        }
        self.iteration = self.iteration + 1;
        true
    }

    /// Takes in that a page has come. Tells whether it is to be applied: on a connection that is
    /// about to end it is not, and no more are fetched.
    pub fn page_came(&mut self, shutting_down: bool) -> (r: bool)
        ensures
            r == !shutting_down,
            *final(self) == (if shutting_down {
                PagedSync { has_more: false, ..*old(self) }
            } else {
                *old(self)
            }),
    {
        if shutting_down {
            self.has_more = false;
        }
        !shutting_down
    }

    /// Takes in a page that was applied: only the first one can be the whole of the collection.
    pub fn end_page(&mut self, version: u64, has_more: bool)
        ensures
            *final(self) == (PagedSync { version, has_more, want_snapshot: false, ..*old(self) }),
    {
        self.version = version;
        self.has_more = has_more;
        self.want_snapshot = false;
    }
}

/// A sync of one collection ends: every page brings it nearer to the limit.
pub proof fn paging_ends(sync: PagedSync, version: u64, has_more: bool)
    requires
        sync.goes_on(false),
    ensures
        ({
            let begun = PagedSync { iteration: (sync.iteration + 1) as u32, ..sync };
            let ended = PagedSync { version, has_more, want_snapshot: false, ..begun };
            &&& MAX_PAGINATION_ITERATIONS - ended.iteration < MAX_PAGINATION_ITERATIONS
                - sync.iteration
            &&& ended.iteration <= MAX_PAGINATION_ITERATIONS
            &&& !ended.want_snapshot
            &&& ended.full_sync == sync.full_sync
        }),
{
}

// ---------------------------------------------------------------------------
// Attempts
// ---------------------------------------------------------------------------

/// How often a sync is tried.
pub const APP_STATE_RETRY_MAX_ATTEMPTS: u32 = 6;

/// How long a missing key is waited for, in seconds.
pub const KEY_SHARE_TIMEOUT_SECS: u64 = 10;

/// Why a sync failed.
#[derive(Clone, Copy, Debug, PartialEq, Eq, Structural)]
pub enum SyncFailure {
    /// A key is missing.
    KeyNotFound,
    /// The store is busy.
    StoreLocked,
    Other,
}

/// What to do after a failed attempt.
#[derive(Clone, Copy, Debug, PartialEq, Eq, Structural)]
pub enum RetryStep {
    /// Wait for the first keys, for a time, and try again.
    WaitForKeys,
    /// Try again at once.
    Again,
    /// Wait so many milliseconds, and try again.
    BackOff(u64),
    /// The failure stands.
    GiveUp,
}

/// What to do after a failed attempt; attempts are counted from one. A missing key is waited for
/// once; a busy store is given time.
pub open spec fn retry_step(attempt: u32, failure: SyncFailure, keys_received: bool) -> RetryStep {
    if failure == SyncFailure::KeyNotFound && attempt == 1 {
        if keys_received {
            RetryStep::Again
        } else {
            RetryStep::WaitForKeys
        }
    } else if failure == SyncFailure::StoreLocked && attempt < APP_STATE_RETRY_MAX_ATTEMPTS {
        RetryStep::BackOff((200 * attempt + 150) as u64)
    } else {
        RetryStep::GiveUp
    }
}

/// What to do after a failed attempt.
pub fn after_failed_attempt(attempt: u32, failure: SyncFailure, keys_received: bool) -> (r:
    RetryStep)
    ensures
        r == retry_step(attempt, failure, keys_received),
{
    if failure == SyncFailure::KeyNotFound && attempt == 1 {
        if keys_received {
            RetryStep::Again
        } else {
            RetryStep::WaitForKeys
        }
    } else if failure == SyncFailure::StoreLocked && attempt < APP_STATE_RETRY_MAX_ATTEMPTS {
        RetryStep::BackOff(200 * attempt as u64 + 150)
    } else {
        RetryStep::GiveUp
    }
}

/// A sync is tried a limited number of times, and no wait is much longer than a second.
pub proof fn attempts_are_bounded(attempt: u32, failure: SyncFailure, keys_received: bool)
    ensures
        attempt >= APP_STATE_RETRY_MAX_ATTEMPTS ==> retry_step(attempt, failure, keys_received)
            == RetryStep::GiveUp,
        retry_step(attempt, failure, keys_received) matches RetryStep::BackOff(ms) ==> 150 <= ms
            <= 1150,
{
}

/// What a response for a collection leads to: changes are applied exactly where nothing is wrong,
/// and the collection is asked for again exactly where more is to come or it may be had later. A
/// collection that cannot be had, and a conflict with nothing more to come, end there.
pub proof fn responses_are_acted_on(has_more: bool, was_snapshot: bool, conflict_has_more: bool)
    ensures
        collection_step(None, has_more, was_snapshot) == (CollectionStep::Apply {
            full_sync: was_snapshot,
            refetch: has_more,
        }),
        collection_step(None, has_more, was_snapshot).refetches() == has_more,
        collection_step(Some(CollectionError::Retry), has_more, was_snapshot).refetches(),
        !(collection_step(Some(CollectionError::Retry), has_more, was_snapshot) is Apply),
        collection_step(Some(CollectionError::Fatal), has_more, was_snapshot)
            == CollectionStep::Drop,
        !CollectionStep::Drop.refetches(),
        CollectionStep::Refetch.refetches(),
        collection_step(
            Some(CollectionError::Conflict { has_more: conflict_has_more }),
            has_more,
            was_snapshot,
        ) == (if conflict_has_more {
            CollectionStep::Refetch
        } else {
            CollectionStep::Drop
        }),
{
}

/// Every blob that a response refers to and that has a path is downloaded, and no other, in the
/// order of the response: for each collection its snapshot first, then the changes of each patch.
pub proof fn blobs_with_paths_are_wanted(
    lists: Seq<SummaryView>,
    list: SummaryView,
    patches: Seq<Option<BlobView>>,
    patch: Option<BlobView>,
)
    ensures
        wanted_blobs(Seq::empty()) == Seq::<(Seq<char>, Seq<u8>)>::empty(),
        all_reachable(Seq::empty()) == Seq::<(Seq<char>, Seq<u8>)>::empty(),
        ({
            let after = all_reachable(patches.push(patch));
            match patch {
                Some(blob) => match blob.path {
                    Some(path) => after == all_reachable(patches).push((path, blob.encoded)),
                    None => after == all_reachable(patches),
                },
                None => after == all_reachable(patches),
            }
        }),
        ({
            let after = wanted_blobs(lists.push(list));
            match list.snapshot {
                Some(BlobView { path: Some(path), encoded }) => after == wanted_blobs(lists).push(
                    (path, encoded),
                ) + all_reachable(list.patches),
                _ => after == wanted_blobs(lists) + all_reachable(list.patches),
            }
        }),
{
    assert(lists.push(list).drop_last() =~= lists);
    assert(patches.push(patch).drop_last() =~= patches);
    match patch {
        Some(BlobView { path: Some(path), encoded }) => {
            assert(all_reachable(patches.push(patch)) =~= all_reachable(patches).push(
                (path, encoded),
            ));
        },
        _ => {
            assert(all_reachable(patches.push(patch)) =~= all_reachable(patches));
        },
    }
    match list.snapshot {
        Some(BlobView { path: Some(path), encoded }) => {
            assert(wanted_blobs(lists.push(list)) =~= wanted_blobs(lists).push((path, encoded))
                + all_reachable(list.patches));
        },
        _ => {
            assert(wanted_blobs(lists.push(list)) =~= wanted_blobs(lists) + all_reachable(
                list.patches,
            ));
        },
    }
}

/// Collections of version zero are asked for as a whole, in order, and each as often as it is
/// asked for; others are not.
pub proof fn snapshots_keep_their_order(
    names: Seq<PatchName>,
    versions: Seq<u64>,
    name: PatchName,
)
    ensures
        unversioned(Seq::empty(), versions) == Seq::<PatchName>::empty(),
        versions[names.len() as int] == 0 ==> unversioned(names.push(name), versions)
            == unversioned(names, versions).push(name),
        versions[names.len() as int] != 0 ==> unversioned(names.push(name), versions)
            == unversioned(names, versions),
{
    assert(names.push(name).drop_last() =~= names);
}

/// Rounds go on while collections are left, five at the most; pages while there are more, five
/// hundred at the most, and not on a connection that is about to end.
pub proof fn syncs_go_on_while_there_is_more(
    batch: BatchedSync,
    paged: PagedSync,
    shutting_down: bool,
)
    ensures
        batch.goes_on() <==> batch.pending@.len() > 0 && batch.iteration < 5,
        paged.goes_on(shutting_down) <==> paged.has_more && !shutting_down && paged.iteration
            < 500,
{
}

/// A sync of one collection starts with the whole of it where that is asked for or no version is
/// known, and otherwise from the version; it wants at least one page.
pub proof fn paged_syncs_start_from_version(full_sync: bool, version: u64)
    ensures
        ({
            let sync = PagedSync::fresh(full_sync, version);
            &&& sync.full_sync <==> full_sync || version == 0
            &&& sync.want_snapshot <==> full_sync || version == 0
            &&& sync.has_more
            &&& sync.iteration == 0
            &&& sync.version == version
            &&& sync.goes_on(false)
        }),
{
}

/// A missing key is waited for once, or the sync tried again at once where keys have come; a busy
/// store is tried again up to five times, with waits that grow; anything else stands.
pub proof fn failures_are_retried_in_kind(attempt: u32, failure: SyncFailure, keys_received: bool)
    ensures
        retry_step(attempt, failure, keys_received) == RetryStep::Again <==> failure
            == SyncFailure::KeyNotFound && attempt == 1 && keys_received,
        retry_step(attempt, failure, keys_received) == RetryStep::WaitForKeys <==> failure
            == SyncFailure::KeyNotFound && attempt == 1 && !keys_received,
        retry_step(attempt, failure, keys_received) is BackOff <==> failure
            == SyncFailure::StoreLocked && attempt < 6,
        retry_step(attempt, failure, keys_received) matches RetryStep::BackOff(ms) ==> ms == 200
            * attempt + 150,
{
}

/// References to blobs are looked at as they are, and lists of them one by one.
pub proof fn references_are_looked_at_whole(
    blob: BlobRef,
    summary: PatchSummary,
    lists: Seq<PatchSummary>,
    download: Download,
    downloads: Seq<Download>,
    at: int,
)
    requires
        0 <= at < summary.patches@.len(),
    ensures
        blob@.path is Some <==> blob.path is Some,
        blob.path matches Some(path) ==> blob@.path == Some(path@),
        blob@.encoded == blob.encoded@,
        opt_blob(Some(blob)) == Some(blob@),
        opt_blob(None) is None,
        summary@.snapshot == opt_blob(summary.snapshot),
        summary@.patches.len() == summary.patches@.len(),
        summary@.patches[at] == opt_blob(summary.patches@[at]),
        summary_views(lists.push(summary)) == summary_views(lists).push(summary@),
        summary_views(Seq::empty()) == Seq::<SummaryView>::empty(),
        download_views(downloads.push(download)) == download_views(downloads).push(
            (download.path@, download.encoded@),
        ),
        download_views(Seq::empty()) == Seq::<(Seq<char>, Seq<u8>)>::empty(),
{
    assert(summary_views(lists.push(summary)) =~= summary_views(lists).push(summary@));
    assert(summary_views(Seq::empty()) =~= Seq::<SummaryView>::empty());
    assert(download_views(downloads.push(download)) =~= download_views(downloads).push(
        (download.path@, download.encoded@),
    ));
    assert(download_views(Seq::empty()) =~= Seq::<(Seq<char>, Seq<u8>)>::empty());
}

} // verus!
