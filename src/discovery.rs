use vstd::prelude::*;
use crate::registry::ChannelRegistry;

verus! {

/// Continuation cursor of the popularity listing: the last viewer count and
/// listing id seen.
#[derive(Debug, Clone, Copy, PartialEq, Eq, Structural)]
pub struct PageCursor {
    pub concurrent_user_count: u64,
    pub live_id: u64,
}

/// One broadcast of the popularity listing.
#[derive(Debug, Clone)]
pub struct LiveCandidate {
    pub channel_id: String,
    pub concurrent_user_count: u64,
    pub adult: bool,
}

impl LiveCandidate {
    /// A field-by-field copy.
    pub fn copied(&self) -> (r: LiveCandidate)
        ensures
            r == *self,
    {
        LiveCandidate {
            channel_id: self.channel_id.clone(),
            concurrent_user_count: self.concurrent_user_count,
            adult: self.adult,
        }
    }
}

/// Enrichment data of a channel; an absent field is unknown.
#[derive(Debug, Clone)]
pub struct ChannelDetail {
    pub channel_id: String,
    pub follower_count: Option<u64>,
    pub open_live: Option<bool>,
}

/// Live data of a channel; the chat-channel id addresses the chat transport.
#[derive(Debug, Clone)]
pub struct LiveDetail {
    pub chat_channel_id: Option<String>,
}

/// A candidate that passed every enrichment step.
#[derive(Debug, Clone)]
pub struct ScrapeReadyChannel {
    pub channel_id: String,
    pub chat_channel_id: String,
    pub follower_count: u64,
}

impl ScrapeReadyChannel {
    /// A field-by-field copy.
    pub fn copied(&self) -> (r: ScrapeReadyChannel)
        ensures
            r == *self,
    {
        ScrapeReadyChannel {
            channel_id: self.channel_id.clone(),
            chat_channel_id: self.chat_channel_id.clone(),
            follower_count: self.follower_count,
        }
    }
}

/// What enrichment does after a channel-detail lookup.
#[derive(Debug, Clone, Copy, PartialEq, Eq, Structural)]
pub enum ChannelStep {
    /// Look up the live detail, carrying the follower count on.
    FetchLiveDetail(u64),
    /// Drop the candidate.
    Skip,
}

/// The follower count that a channel-detail lookup gave, if any.
pub open spec fn follower_of(detail: Option<ChannelDetail>) -> Option<u64> {
    match detail {
        Some(d) => d.follower_count,
        None => None,
    }
}

/// The enrichment step that a channel-detail lookup leads to.
pub open spec fn channel_step_of(detail: Option<ChannelDetail>) -> ChannelStep {
    match follower_of(detail) {
        Some(f) => ChannelStep::FetchLiveDetail(f),
        None => ChannelStep::Skip,
    }
}

/// The chat-channel id that a live-detail lookup gave, if any.
pub open spec fn chat_channel_of(live: Option<LiveDetail>) -> Option<Seq<char>> {
    match live {
        Some(l) => match l.chat_channel_id {
            Some(c) => Some(c@),
            None => None,
        },
        None => None,
    }
}

/// The chat-channel id that makes a candidate with id `channel_id`
/// scrape-ready: present and non-empty, with a non-empty channel id.
pub open spec fn ready_chat_channel(channel_id: Seq<char>, live: Option<LiveDetail>) -> Option<
    Seq<char>,
> {
    match chat_channel_of(live) {
        Some(c) => if c.len() > 0 && channel_id.len() > 0 {
            Some(c)
        } else {
            None
        },
        None => None,
    }
}

/// Whether a candidate reaches the viewer threshold.
pub open spec fn qualifies(l: LiveCandidate, min_viewers: u64) -> bool {
    l.concurrent_user_count >= min_viewers
}

/// The candidates of a page that reach the threshold, in order.
pub open spec fn qualifying(items: Seq<LiveCandidate>, min_viewers: u64) -> Seq<LiveCandidate> {
    items.filter(|l: LiveCandidate| qualifies(l, min_viewers))
}

/// Whether a page holds a candidate below the threshold.
pub open spec fn has_short_item(items: Seq<LiveCandidate>, min_viewers: u64) -> bool {
    exists|i: int| 0 <= i < items.len() && !qualifies(#[trigger] items[i], min_viewers)
}

/// The cursor of the page to fetch after this one, if any.
pub open spec fn follow_up(
    items: Seq<LiveCandidate>,
    next: Option<PageCursor>,
    min_viewers: u64,
) -> Option<PageCursor> {
    if has_short_item(items, min_viewers) {
        None
    } else {
        next
    }
}

/// The state of one pass over the popularity listing.
pub struct Pagination {
    min_viewers: u64,
    collected: Vec<LiveCandidate>,
}

impl Pagination {
    /// A pass that keeps the candidates with at least `min_viewers` viewers.
    pub fn new(min_viewers: u64) -> (r: Pagination)
        ensures
            r.min_viewers() == min_viewers,
            r.collected_view() == Seq::<LiveCandidate>::empty(),
    {
        Pagination { min_viewers, collected: Vec::new() }
    }

    pub closed spec fn min_viewers(&self) -> u64 {
        self.min_viewers
    }

    pub closed spec fn collected_view(&self) -> Seq<LiveCandidate> {
        self.collected@
    }

    /// Takes in one fetched page: keeps its qualifying candidates and returns
    /// the cursor of the next page to fetch, or `None` when the pass is over
    /// (a candidate of this page is below the threshold, or there is no
    /// further page).
    pub fn on_page(&mut self, items: Vec<LiveCandidate>, next: Option<PageCursor>) -> (r: Option<PageCursor>)
        ensures
            final(self).min_viewers() == old(self).min_viewers(),
            final(self).collected_view() == old(self).collected_view() + qualifying(items@, old(self).min_viewers()),
            r == follow_up(items@, next, old(self).min_viewers()),
    {
        let min = self.min_viewers;
        let mut stop = false;
        let mut i: usize = 0;
        let ghost start = self.collected@;
        while i < items.len()
            invariant
                i <= items.len(),
                self.min_viewers == min,
                self.collected@ == start + qualifying(items@.subrange(0, i as int), min),
                stop <==> exists|j: int| 0 <= j < i && !qualifies(#[trigger] items@[j], min),
            decreases items.len() - i,
        {
            let l = &items[i];
            proof {
                let s = items@.subrange(0, i as int);
                let t = items@.subrange(0, i + 1);
                assert(t.drop_last() == s);
                assert(t.last() == items@[i as int]);
                reveal(Seq::filter);
            }
            if l.concurrent_user_count >= min {
                self.collected.push(l.copied());
            } else {
                stop = true;
            }
            i += 1;
        }
        proof {
            assert(items@.subrange(0, items.len() as int) == items@);
        }
        if stop {
            None
        } else {
            next
        }
    }

    /// The qualifying candidates kept so far, in listing order.
    pub fn into_collected(self) -> (r: Vec<LiveCandidate>)
        ensures
            r@ == self.collected_view(),
    {
        self.collected
    }
}

/// The candidates that are not adult-flagged, in order.
pub open spec fn non_adult(lives: Seq<LiveCandidate>) -> Seq<LiveCandidate> {
    lives.filter(|l: LiveCandidate| !l.adult)
}

/// Drops the adult-flagged candidates, keeping the order of the rest.
pub fn drop_adult(lives: &Vec<LiveCandidate>) -> (r: Vec<LiveCandidate>)
    ensures
        r@ == non_adult(lives@),
{
    let mut out: Vec<LiveCandidate> = Vec::new();
    let mut i: usize = 0;
    while i < lives.len()
        invariant
            i <= lives.len(),
            out@ == non_adult(lives@.subrange(0, i as int)),
        decreases lives.len() - i,
    {
        proof {
            let t = lives@.subrange(0, i + 1);
            assert(t.drop_last() == lives@.subrange(0, i as int));
            reveal(Seq::filter);
        }
        if !lives[i].adult {
            out.push(lives[i].copied());
        }
        i += 1;
    }
    proof {
        assert(lives@.subrange(0, lives.len() as int) == lives@);
    }
    out
}

/// Decides on a candidate after its channel-detail lookup: without a detail
/// or without a follower count it is skipped, and its live detail is never
/// looked up.
pub fn after_channel_detail(detail: &Option<ChannelDetail>) -> (r: ChannelStep)
    ensures
        r == channel_step_of(*detail),
{
    match detail {
        Some(d) => match d.follower_count {
            Some(f) => ChannelStep::FetchLiveDetail(f),
            None => ChannelStep::Skip,
        },
        None => ChannelStep::Skip,
    }
}

/// Assembles a scrape-ready channel after the live-detail lookup, if it gave
/// a non-empty chat-channel id and the channel id is non-empty.
pub fn after_live_detail(channel_id: &str, follower_count: u64, live: &Option<LiveDetail>) -> (r:
    Option<ScrapeReadyChannel>)
    ensures
        r is Some <==> ready_chat_channel(channel_id@, *live) is Some,
        r matches Some(c) ==> c.channel_id@ == channel_id@ && c.follower_count == follower_count
            && Some(c.chat_channel_id@) == ready_chat_channel(channel_id@, *live),
{
    if channel_id.is_empty() {
        return None;
    }
    match live {
        Some(l) => match &l.chat_channel_id {
            Some(chat) => if chat.as_str().is_empty() {
                None
            } else {
                Some(
                ScrapeReadyChannel {
                    channel_id: channel_id.to_string(),
                    chat_channel_id: chat.clone(),
                    follower_count,
                },
            )
            },
            None => None,
        },
        None => None,
    }
}

/// The ready channels whose id is not in the registry `reg`, in order.
pub open spec fn unregistered(ready: Seq<ScrapeReadyChannel>, reg: Set<Seq<char>>) -> Seq<
    ScrapeReadyChannel,
> {
    ready.filter(|c: ScrapeReadyChannel| !reg.contains(c.channel_id@))
}

/// Drops the ready channels that already have a running session.
pub fn drop_registered(ready: &Vec<ScrapeReadyChannel>, registry: &ChannelRegistry) -> (r: Vec<
    ScrapeReadyChannel,
>)
    ensures
        r@ == unregistered(ready@, registry@),
{
    let mut out: Vec<ScrapeReadyChannel> = Vec::new();
    let mut i: usize = 0;
    while i < ready.len()
        invariant
            i <= ready.len(),
            out@ == unregistered(ready@.subrange(0, i as int), registry@),
        decreases ready.len() - i,
    {
        proof {
            let t = ready@.subrange(0, i + 1);
            assert(t.drop_last() == ready@.subrange(0, i as int));
            reveal(Seq::filter);
        }
        if !registry.contains(&ready[i].channel_id) {
            out.push(ready[i].copied());
        }
        i += 1;
    }
    proof {
        assert(ready@.subrange(0, ready.len() as int) == ready@);
    }
    out
}

/// The lookup that enrichment asks for next.
pub enum EnrichAction {
    /// Look up the channel detail of this channel id.
    FetchChannel(String),
    /// Look up the live detail of this channel id.
    FetchLiveDetail(String),
    /// Every candidate has been handled.
    Finished,
}

/// Sequential enrichment of the non-adult candidates of a pass, one lookup at
/// a time.
pub struct Enrichment {
    candidates: Vec<LiveCandidate>,
    index: usize,
    follower: Option<u64>,
    ready: Vec<ScrapeReadyChannel>,
}

impl Enrichment {
    pub closed spec fn candidates_view(&self) -> Seq<LiveCandidate> {
        self.candidates@
    }

    /// The index of the candidate being handled.
    pub closed spec fn index_view(&self) -> nat {
        self.index as nat
    }

    /// The follower count of the current candidate, once its channel detail
    /// gave one.
    pub closed spec fn follower_view(&self) -> Option<u64> {
        self.follower
    }

    pub closed spec fn ready_view(&self) -> Seq<ScrapeReadyChannel> {
        self.ready@
    }

    pub open spec fn wf(&self) -> bool {
        &&& self.index_view() <= self.candidates_view().len()
        &&& self.index_view() == self.candidates_view().len() ==> self.follower_view() is None
    }

    /// Enrichment of the candidates of `lives` that are not adult-flagged.
    pub fn new(lives: &Vec<LiveCandidate>) -> (r: Enrichment)
        ensures
            r.wf(),
            r.candidates_view() == non_adult(lives@),
            r.index_view() == 0,
            r.follower_view() is None,
            r.ready_view() == Seq::<ScrapeReadyChannel>::empty(),
    {
        Enrichment { candidates: drop_adult(lives), index: 0, follower: None, ready: Vec::new() }
    }

    /// The lookup to perform next: the channel detail of the current
    /// candidate, then its live detail once a follower count is known.
    pub fn next_action(&self) -> (r: EnrichAction)
        requires
            self.wf(),
        ensures
            self.index_view() == self.candidates_view().len() ==> r is Finished,
            self.index_view() < self.candidates_view().len() && self.follower_view() is None ==> (
            r matches EnrichAction::FetchChannel(id) && id@
                == self.candidates_view()[self.index_view() as int].channel_id@),
            self.index_view() < self.candidates_view().len() && self.follower_view() is Some ==> (
            r matches EnrichAction::FetchLiveDetail(id) && id@
                == self.candidates_view()[self.index_view() as int].channel_id@),
    {
        if self.index >= self.candidates.len() {
            EnrichAction::Finished
        } else {
            let id = self.candidates[self.index].channel_id.clone();
            match self.follower {
                Some(_) => EnrichAction::FetchLiveDetail(id),
                None => EnrichAction::FetchChannel(id),
            }
        }
    }

    /// Takes in the channel detail of the current candidate: keeps its
    /// follower count, or skips the candidate when there is none.
    pub fn on_channel_detail(&mut self, detail: &Option<ChannelDetail>)
        requires
            old(self).wf(),
            old(self).index_view() < old(self).candidates_view().len(),
            old(self).follower_view() is None,
        ensures
            final(self).wf(),
            final(self).candidates_view() == old(self).candidates_view(),
            final(self).ready_view() == old(self).ready_view(),
            final(self).follower_view() == follower_of(*detail),
            final(self).index_view() == old(self).index_view() + (if follower_of(*detail) is None {
                1int
            } else {
                0int
            }),
    {
        match after_channel_detail(detail) {
            ChannelStep::FetchLiveDetail(f) => {
                self.follower = Some(f);
            },
            ChannelStep::Skip => {
                let n = self.candidates.len();
                assert(self.index < n);
                self.index = self.index + 1;
            },
        }
    }

    /// Takes in the live detail of the current candidate: makes it
    /// scrape-ready when it gave a non-empty chat-channel id and its channel
    /// id is non-empty, and moves to the next
    /// candidate either way.
    pub fn on_live_detail(&mut self, live: &Option<LiveDetail>)
        requires
            old(self).wf(),
            old(self).index_view() < old(self).candidates_view().len(),
            old(self).follower_view() is Some,
        ensures
            final(self).wf(),
            final(self).candidates_view() == old(self).candidates_view(),
            final(self).index_view() == old(self).index_view() + 1,
            final(self).follower_view() is None,
            ready_chat_channel(old(self).candidates_view()[old(self).index_view() as int].channel_id@, *live) is None
                ==> final(self).ready_view() == old(self).ready_view(),
            ready_chat_channel(old(self).candidates_view()[old(self).index_view() as int].channel_id@, *live) matches Some(chat) ==> final(self).ready_view().len()
                == old(self).ready_view().len() + 1 && final(self).ready_view().drop_last()
                == old(self).ready_view() && ({
                let c = final(self).ready_view().last();
                &&& c.channel_id@ == old(self).candidates_view()[old(self).index_view() as int].channel_id@
                &&& c.chat_channel_id@ == chat
                &&& Some(c.follower_count) == old(self).follower_view()
            }),
    {
        let f = match self.follower {
            Some(f) => f,
            None => 0,
        };
        let made = after_live_detail(&self.candidates[self.index].channel_id, f, live);
        match made {
            Some(c) => {
                self.ready.push(c);
            },
            None => {},
        }
        self.follower = None;
        let n = self.candidates.len();
        assert(self.index < n);
        self.index = self.index + 1;
    }

    /// The scrape-ready channels, in candidate order, without those that
    /// already have a running session.
    pub fn finish(self, registry: &ChannelRegistry) -> (r: Vec<ScrapeReadyChannel>)
        ensures
            r@ == unregistered(self.ready_view(), registry@),
    {
        drop_registered(&self.ready, registry)
    }
}

/// A page that holds a candidate below the threshold ends the pass: its
/// qualifying candidates are kept and no further page is fetched, whatever
/// cursor the listing offered. A page whose candidates all qualify is kept
/// whole, and the pass goes on to the offered cursor.
pub proof fn lemma_pagination_stop(
    kept: Seq<LiveCandidate>,
    full: Seq<LiveCandidate>,
    short: Seq<LiveCandidate>,
    cursor: Option<PageCursor>,
    next: Option<PageCursor>,
    min_viewers: u64,
)
    requires
        forall|i: int| 0 <= i < full.len() ==> qualifies(#[trigger] full[i], min_viewers),
        has_short_item(short, min_viewers),
    ensures
        follow_up(full, cursor, min_viewers) == cursor,
        follow_up(short, next, min_viewers) is None,
        kept + qualifying(full, min_viewers) + qualifying(short, min_viewers) == kept + full
            + qualifying(short, min_viewers),
{
    lemma_all_qualify(full, min_viewers);
}

proof fn lemma_all_qualify(items: Seq<LiveCandidate>, min_viewers: u64)
    requires
        forall|i: int| 0 <= i < items.len() ==> qualifies(#[trigger] items[i], min_viewers),
    ensures
        qualifying(items, min_viewers) == items,
        !has_short_item(items, min_viewers),
    decreases items.len(),
{
    reveal(Seq::filter);
    if items.len() > 0 {
        let d = items.drop_last();
        assert forall|i: int| 0 <= i < d.len() implies qualifies(#[trigger] d[i], min_viewers) by {
            assert(d[i] == items[i]);
        }
        lemma_all_qualify(d, min_viewers);
        assert(items == d.push(items.last()));
    }
}

/// The chat-channel id and follower count that enrichment of one candidate
/// ends with, given what its two lookups return; `None` when it is skipped.
pub open spec fn enriched(
    channel_id: Seq<char>,
    detail: Option<ChannelDetail>,
    live: Option<LiveDetail>,
) -> Option<(Seq<char>, u64)> {
    match channel_step_of(detail) {
        ChannelStep::FetchLiveDetail(f) => match ready_chat_channel(channel_id, live) {
            Some(c) => Some((c, f)),
            None => None,
        },
        ChannelStep::Skip => None,
    }
}

/// A candidate without a known follower count never becomes scrape-ready,
/// whatever a live-detail lookup would return, and enrichment skips it
/// before any live-detail lookup.
pub proof fn lemma_enrichment_short_circuit(
    channel_id: Seq<char>,
    detail: Option<ChannelDetail>,
    live: Option<LiveDetail>,
)
    requires
        follower_of(detail) is None,
    ensures
        channel_step_of(detail) == ChannelStep::Skip,
        enriched(channel_id, detail, live) is None,
{
}

} // verus!
