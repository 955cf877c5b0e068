use vstd::prelude::*;
use crate::cache::{all_snapshots, cache_cleared, cache_insert, cache_wf, CacheView, FeedCache};
use crate::common::{Channel, FeedView, Item};
use crate::monitor::StoreError;

verus! {

/// A subscribed feed source, as read from the roster.
#[derive(Debug)]
pub struct ChannelModel {
    pub id: u128,
    pub name: String,
    pub url: String,
}

/// A network-level failure while fetching a feed document.
#[derive(Debug)]
pub struct FetchError {
    pub message: String,
}

#[verifier::external_type_specification]
#[verifier::external_body]
pub struct ExRssError(rss::Error);

/// The snapshot that the RSS reader makes of a document, or `None` where it
/// rejects the document.
pub uninterp spec fn rss_feed_of(bytes: Seq<u8>) -> Option<FeedView>;

/// Relies on rss::Channel::read_from: reads an RSS document from bytes; the
/// outcome depends on the bytes alone. Title, link and each item's title and
/// link are carried over as they were read, items in document order.
#[verifier::external_body]
fn read_feed(bytes: &[u8]) -> (r: Result<Channel, rss::Error>)
    ensures
        match r {
            Ok(c) => rss_feed_of(bytes@) == Some(c@),
            Err(_) => rss_feed_of(bytes@) is None,
        },
{
    rss::Channel::read_from(bytes).map(
        |c| Channel::new(c.title, c.link, c.items.into_iter().map(|i| Item::new(i.title, i.link)).collect()),
    )
}

/// Parses a feed document into a snapshot; `None` for a malformed document.
pub fn parse_feed(bytes: &[u8]) -> (r: Option<Channel>)
    ensures
        match r {
            Some(c) => rss_feed_of(bytes@) == Some(c@),
            None => rss_feed_of(bytes@) is None,
        },
{
    match read_feed(bytes) {
        Ok(c) => Some(c),
        Err(_) => None,
    }
}

/// The cache contents that a cycle builds from the roster `chs`, where
/// `res[j]` is what fetching and parsing channel `j` gave.
pub open spec fn entries_of(chs: Seq<ChannelModel>, res: Seq<Option<FeedView>>) -> Map<
    u128,
    FeedView,
>
    decreases res.len(),
{
    if res.len() == 0 || chs.len() < res.len() {
        Map::empty()
    } else {
        let n = res.len() - 1;
        let prev = entries_of(chs, res.drop_last());
        match res[n] {
            Some(f) => prev.insert(chs[n].id, f),
            None => prev,
        }
    }
}

/// Where a refresh stands within its cycle.
#[derive(Debug, Clone, Copy)]
pub enum RefreshPhase {
    Idle,
    Loading,
    Fetching,
}

/// What the runtime reports back to the refresher.
#[derive(Debug)]
pub enum RefreshEvent {
    /// The refresh interval elapsed.
    Tick,
    /// The channel roster read completed.
    Roster(Result<Vec<ChannelModel>, StoreError>),
    /// The fetch of the current channel's document completed.
    Fetched(Result<Vec<u8>, FetchError>),
}

/// What the refresher asks the runtime to do next.
#[derive(Debug)]
pub enum RefreshAction {
    LoadRoster,
    Fetch { id: u128, url: String },
    Sleep,
    Abort(StoreError),
}

/// A refresher, mathematically: its cache, the roster of this cycle, the
/// index of the current channel, the phase, and what each channel before
/// it gave.
pub struct RefreshView {
    pub cache: CacheView,
    pub channels: Seq<ChannelModel>,
    pub pos: nat,
    pub phase: RefreshPhase,
    pub done: Seq<Option<FeedView>>,
}

pub open spec fn refresh_wf(s: RefreshView) -> bool {
    &&& cache_wf(s.cache)
    &&& s.done.len() == s.pos
    &&& s.pos <= s.channels.len()
    &&& (s.phase is Fetching ==> s.pos < s.channels.len())
    &&& (s.phase is Loading ==> s.pos == 0)
    &&& (s.phase is Idle ==> s.pos == s.channels.len())
    &&& s.cache.entries == entries_of(s.channels, s.done)
}

pub open spec fn pending(s: RefreshView) -> RefreshAction {
    match s.phase {
        RefreshPhase::Idle => RefreshAction::Sleep,
        RefreshPhase::Loading => RefreshAction::LoadRoster,
        RefreshPhase::Fetching => RefreshAction::Fetch {
            id: s.channels[s.pos as int].id,
            url: s.channels[s.pos as int].url,
        },
    }
}

pub open spec fn advance(s: RefreshView, pos: nat) -> RefreshView {
    RefreshView {
        pos,
        phase: if pos < s.channels.len() { RefreshPhase::Fetching } else { RefreshPhase::Idle },
        ..s
    }
}

/// The state once the current channel's outcome is known: its snapshot,
/// if any, goes into the cache, and the refresh moves to the next channel.
pub open spec fn record(s: RefreshView, outcome: Option<FeedView>) -> RefreshView {
    if s.phase is Fetching {
        let cache = match outcome {
            Some(f) => cache_insert(s.cache, s.channels[s.pos as int].id, f),
            None => s.cache,
        };
        advance(RefreshView { cache, done: s.done.push(outcome), ..s }, s.pos + 1)
    } else {
        s
    }
}

pub open spec fn snapshot_view(o: Option<Channel>) -> Option<FeedView> {
    match o {
        Some(c) => Some(c@),
        None => None,
    }
}

pub open spec fn fetch_outcome(r: Result<Vec<u8>, FetchError>) -> Option<FeedView> {
    match r {
        Ok(bytes) => rss_feed_of(bytes@),
        Err(_) => None,
    }
}

/// The state after event `e`. A cycle starts by clearing the cache; an
/// event that the current phase does not wait for changes nothing.
pub open spec fn next_view(s: RefreshView, e: RefreshEvent) -> RefreshView {
    match e {
        RefreshEvent::Tick => if s.phase is Idle {
            RefreshView {
                cache: cache_cleared(),
                pos: 0,
                phase: RefreshPhase::Loading,
                done: Seq::empty(),
                ..s
            }
        } else {
            s
        },
        RefreshEvent::Roster(r) => if s.phase is Loading {
            match r {
                Ok(chs) => advance(RefreshView { channels: chs@, ..s }, 0),
                Err(_) => RefreshView { channels: Seq::empty(), phase: RefreshPhase::Idle, ..s },
            }
        } else {
            s
        },
        RefreshEvent::Fetched(r) => record(s, fetch_outcome(r)),
    }
}

pub open spec fn next_action(s: RefreshView, e: RefreshEvent) -> RefreshAction {
    match e {
        RefreshEvent::Roster(Err(err)) if s.phase is Loading => RefreshAction::Abort(err),
        _ => pending(next_view(s, e)),
    }
}

/// One feed refresher: the decisions of its cycles, and the cache they fill.
///
/// Each cycle clears the cache before it reads the roster, so readers see
/// an empty or partly filled cache until the cycle ends. A channel whose
/// fetch or parse fails is absent until a later cycle succeeds for it: no
/// stale snapshot is kept, and none is marked as such.
pub struct FeedRefresh {
    cache: FeedCache,
    channels: Vec<ChannelModel>,
    pos: usize,
    phase: RefreshPhase,
    done: Ghost<Seq<Option<FeedView>>>,
}

impl View for FeedRefresh {
    type V = RefreshView;

    closed spec fn view(&self) -> RefreshView {
        RefreshView {
            cache: self.cache@,
            channels: self.channels@,
            pos: self.pos as nat,
            phase: self.phase,
            done: self.done@,
        }
    }
}

proof fn lemma_entries_push(chs: Seq<ChannelModel>, res: Seq<Option<FeedView>>, o: Option<FeedView>)
    requires
        res.len() < chs.len(),
    ensures
        entries_of(chs, res.push(o)) == match o {
            Some(f) => entries_of(chs, res).insert(chs[res.len() as int].id, f),
            None => entries_of(chs, res),
        },
{
    assert(res.push(o).drop_last() =~= res);
}

impl FeedRefresh {
    pub open spec fn wf(&self) -> bool {
        refresh_wf(self@)
    }

    /// A refresher between cycles, with an empty cache.
    pub fn new() -> (r: Self)
        ensures
            r.wf(),
            r@.cache == cache_cleared(),
            r@.channels.len() == 0,
            r@.phase is Idle,
    {
        FeedRefresh {
            cache: FeedCache::new(),
            channels: Vec::new(),
            pos: 0,
            phase: RefreshPhase::Idle,
            done: Ghost(Seq::empty()),
        }
    }

    /// The cache that readers observe.
    pub fn cache(&self) -> (r: &FeedCache)
        ensures
            r@ == self@.cache,
            self.wf() ==> r.wf(),
    {
        &self.cache
    }

    pub fn phase(&self) -> (r: RefreshPhase)
        ensures
            r == self@.phase,
    {
        self.phase
    }

    /// The request this refresher is waiting on.
    pub fn pending(&self) -> (r: RefreshAction)
        requires
            self.wf(),
        ensures
            r == pending(self@),
    {
        match self.phase {
            RefreshPhase::Idle => RefreshAction::Sleep,
            RefreshPhase::Loading => RefreshAction::LoadRoster,
            RefreshPhase::Fetching => {
                let c = &self.channels[self.pos];
                RefreshAction::Fetch { id: c.id, url: c.url.clone() }
            },
        }
    }

    /// Takes the outcome of fetching and parsing the current channel:
    /// stores the snapshot, if any, and moves on.
    pub fn on_snapshot(&mut self, snapshot: Option<Channel>) -> (r: RefreshAction)
        requires
            old(self).wf(),
        ensures
            final(self).wf(),
            final(self)@ == record(old(self)@, snapshot_view(snapshot)),
            r == pending(final(self)@),
    {
        if let RefreshPhase::Fetching = self.phase {
            let n = self.channels.len();
            assert(self.pos < n);
            let ghost o = snapshot_view(snapshot);
            proof {
                lemma_entries_push(self.channels@, self.done@, o);
            }
            match snapshot {
                Some(c) => {
                    let id = self.channels[self.pos].id;
                    self.cache.insert(id, c);
                },
                None => {},
            }
            self.done = Ghost(self.done@.push(o));
            self.pos = self.pos + 1;
            if self.pos >= n {
                self.phase = RefreshPhase::Idle;
            }
        }
        self.pending()
    }

    /// Feeds one event to the refresher and returns what the runtime must
    /// do next.
    pub fn step(&mut self, e: RefreshEvent) -> (r: RefreshAction)
        requires
            old(self).wf(),
        ensures
            final(self).wf(),
            final(self)@ == next_view(old(self)@, e),
            r == next_action(old(self)@, e),
    {
        match e {
            RefreshEvent::Tick => {
                if let RefreshPhase::Idle = self.phase {
                    self.cache.clear();
                    self.pos = 0;
                    self.done = Ghost(Seq::empty());
                    self.phase = RefreshPhase::Loading;
                }
                self.pending()
            },
            RefreshEvent::Roster(res) => {
                if let RefreshPhase::Loading = self.phase {
                    match res {
                        Ok(chs) => {
                            self.channels = chs;
                            self.pos = 0;
                            if self.channels.len() > 0 {
                                self.phase = RefreshPhase::Fetching;
                            } else {
                                self.phase = RefreshPhase::Idle;
                            }
                        },
                        Err(err) => {
                            self.channels = Vec::new();
                            self.phase = RefreshPhase::Idle;
                            return RefreshAction::Abort(err);
                        },
                    }
                }
                self.pending()
            },
            RefreshEvent::Fetched(res) => {
                let snapshot = match res {
                    Ok(bytes) => parse_feed(bytes.as_slice()),
                    Err(_) => None,
                };
                self.on_snapshot(snapshot)
            },
        }
    }
}

proof fn lemma_entries_from_roster(chs: Seq<ChannelModel>, res: Seq<Option<FeedView>>, k: u128)
    requires
        res.len() <= chs.len(),
        entries_of(chs, res).contains_key(k),
    ensures
        exists|j: int| 0 <= j < res.len() && chs[j].id == k && res[j] is Some,
    decreases res.len(),
{
    let n = res.len() - 1;
    let prev = res.drop_last();
    if res[n] is Some && chs[n].id == k {
        assert(0 <= n < res.len() && chs[n].id == k && res[n] is Some);
    } else {
        lemma_entries_from_roster(chs, prev, k);
        let j = choose|j: int| 0 <= j < prev.len() && chs[j].id == k && prev[j] is Some;
        assert(res[j] == prev[j]);
    }
}

/// A channel whose fetch or parse failed in a cycle has no snapshot once
/// that cycle is over: an earlier cycle's snapshot is not kept. This holds
/// of a roster whose channel ids are distinct.
pub proof fn lemma_failed_channel_is_absent(chs: Seq<ChannelModel>, res: Seq<Option<FeedView>>, i: int)
    requires
        res.len() == chs.len(),
        0 <= i < chs.len(),
        res[i] is None,
        forall|a: int, b: int| 0 <= a < b < chs.len() ==> chs[a].id != chs[b].id,
    ensures
        !entries_of(chs, res).contains_key(chs[i].id),
{
    if entries_of(chs, res).contains_key(chs[i].id) {
        lemma_entries_from_roster(chs, res, chs[i].id);
        let j = choose|j: int| 0 <= j < res.len() && chs[j].id == chs[i].id && res[j] is Some;
        assert(j != i);
        if j < i {
            assert(chs[j].id != chs[i].id);
        } else {
            assert(chs[i].id != chs[j].id);
        }
    }
}

/// A channel whose fetch and parse succeeded in a cycle holds exactly the
/// snapshot it gave once that cycle is over (roster ids being distinct).
pub proof fn lemma_fetched_channel_is_present(chs: Seq<ChannelModel>, res: Seq<Option<FeedView>>, i: int)
    requires
        res.len() <= chs.len(),
        0 <= i < res.len(),
        res[i] is Some,
        forall|a: int, b: int| 0 <= a < b < chs.len() ==> chs[a].id != chs[b].id,
    ensures
        entries_of(chs, res).contains_key(chs[i].id),
        entries_of(chs, res)[chs[i].id] == res[i]->Some_0,
    decreases res.len(),
{
    let n = res.len() - 1;
    if i < n {
        lemma_fetched_channel_is_present(chs, res.drop_last(), i);
        assert(chs[i].id != chs[n].id);
    }
}

/// Once a cycle is over, a channel of its roster whose fetch or parse
/// failed has no snapshot in the cache (roster ids being distinct).
pub proof fn lemma_failed_channel_absent_after_cycle(s: RefreshView, i: int)
    requires
        refresh_wf(s),
        s.phase is Idle,
        0 <= i < s.channels.len(),
        s.done[i] is None,
        forall|a: int, b: int| 0 <= a < b < s.channels.len() ==> s.channels[a].id != s.channels[b].id,
    ensures
        !s.cache.entries.contains_key(s.channels[i].id),
{
    lemma_failed_channel_is_absent(s.channels, s.done, i);
}

/// A cycle opens by clearing the cache: from then until the first snapshot
/// is stored, reading every snapshot gives nothing.
pub proof fn lemma_cycle_start_empties_cache(s: RefreshView)
    requires
        s.phase is Idle,
    ensures
        all_snapshots(next_view(s, RefreshEvent::Tick).cache) == Seq::<FeedView>::empty(),
        next_action(s, RefreshEvent::Tick) is LoadRoster,
{
    assert(all_snapshots(next_view(s, RefreshEvent::Tick).cache) =~= Seq::<FeedView>::empty());
}

/// A failed roster read ends the cycle: the error is handed back, no
/// channel is left to fetch, and until the next tick no event `e` leads to
/// a fetch.
pub proof fn lemma_roster_failure_aborts(s: RefreshView, err: StoreError, e: RefreshEvent)
    requires
        s.phase is Loading,
        !(e is Tick),
    ensures
        next_action(s, RefreshEvent::Roster(Err(err))) == RefreshAction::Abort(err),
        next_view(s, RefreshEvent::Roster(Err(err))).phase is Idle,
        next_view(s, RefreshEvent::Roster(Err(err))).channels.len() == 0,
        next_view(next_view(s, RefreshEvent::Roster(Err(err))), e) == next_view(
            s,
            RefreshEvent::Roster(Err(err)),
        ),
        next_action(next_view(s, RefreshEvent::Roster(Err(err))), e) is Sleep,
{
}

} // verus!
