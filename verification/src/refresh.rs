//! The refresh pass: applying, per subscription, the outcome of fetching
//! its feed. A feed whose fetch or parse failed contributes nothing and
//! blocks nothing; a fetched feed's entries are resolved against the page
//! texts the caller retrieved and appended as item rows in order.

use vstd::prelude::*;
use crate::content::{entry_item, item_of, opt_text};
use crate::feed::{Entry, EntryData, Feed};
use crate::store::{FeedItem, ItemData, Store};

verus! {

/// The data of a sequence of entries.
pub open spec fn entries_data(es: Seq<Entry>) -> Seq<EntryData> {
    es.map_values(|e: Entry| e.data())
}

/// The views of a sequence of optionally rendered page texts.
pub open spec fn text_views(ts: Seq<Option<String>>) -> Seq<Option<Seq<char>>> {
    ts.map_values(
        |t: Option<String>|
            match t {
                Some(s) => Some(s@),
                None => None,
            },
    )
}

/// The item rows a fetched feed contributes: one per entry whose page text
/// was had or that has no links, in entry order.
pub open spec fn items_of_feed(
    ft: Seq<char>,
    es: Seq<EntryData>,
    ts: Seq<Option<Seq<char>>>,
) -> Seq<ItemData>
    decreases es.len(),
{
    if es.len() == 0 {
        Seq::empty()
    } else {
        let rest = items_of_feed(ft, es.drop_last(), ts.drop_last());
        match item_of(ft, es.last(), ts.last()) {
            Some(it) => rest.push(it),
            None => rest,
        }
    }
}

/// Appends the item rows of one fetched feed to the store: for each entry,
/// its title (or the default), its first link, and its page's text. `texts`
/// holds, entry by entry, the plain text the entry's first link's page
/// rendered to, or nothing where there was no link or no text could be had;
/// a missing text skips that one entry and no other.
pub fn ingest_feed(store: &mut Store, feed_title: &str, feed: &Feed, texts: &Vec<Option<String>>)
    requires
        old(store).wf(),
        texts@.len() == feed.entries@.len(),
    ensures
        final(store).wf(),
        final(store).feeds@ == old(store).feeds@,
        final(store).items_data() == old(store).items_data() + items_of_feed(
            feed_title@,
            entries_data(feed.entries@),
            text_views(texts@),
        ),
{
    let ghost es = entries_data(feed.entries@);
    let ghost ts = text_views(texts@);
    let n = feed.entries.len();
    let mut i: usize = 0;
    while i < n
        invariant
            store.wf(),
            n == feed.entries@.len(),
            texts@.len() == n,
            0 <= i <= n,
            es == entries_data(feed.entries@),
            ts == text_views(texts@),
            store.feeds@ == old(store).feeds@,
            store.items_data() == old(store).items_data() + items_of_feed(
                feed_title@,
                es.take(i as int),
                ts.take(i as int),
            ),
        decreases n - i,
    {
        let text: Option<&String> = match &texts[i] {
            Some(t) => Some(t),
            None => None,
        };
        let ghost pre_items = store.items_data();
        match entry_item(feed_title, &feed.entries[i], text) {
            Some(item) => {
                let ghost it_data = (item.feed_title@, item.title@, item.url@, item.content@);
                let FeedItem { feed_title: ft, title, url, content } = item;
                store.upsert_feed_item(ft, title, url, content);
                proof {
                    assert(store.items_data() =~= pre_items.push(it_data));
                }
            },
            None => {},
        }
        proof {
            let a = es.take(i + 1);
            let b = ts.take(i + 1);
            assert(a.drop_last() =~= es.take(i as int));
            assert(b.drop_last() =~= ts.take(i as int));
            assert(a.last() == es[i as int]);
            assert(b.last() == ts[i as int]);
            assert(es[i as int] == feed.entries@[i as int].data());
            assert(ts[i as int] == opt_text(text));
            assert(items_of_feed(feed_title@, a, b) == (match item_of(
                feed_title@,
                es[i as int],
                ts[i as int],
            ) {
                Some(it) => items_of_feed(feed_title@, es.take(i as int), ts.take(i as int)).push(
                    it,
                ),
                None => items_of_feed(feed_title@, es.take(i as int), ts.take(i as int)),
            }));
            assert(store.items_data() =~= old(store).items_data() + items_of_feed(
                feed_title@,
                a,
                b,
            ));
        }
        i += 1;
    }
    proof {
        assert(es.take(n as int) =~= es);
        assert(ts.take(n as int) =~= ts);
    }
}

/// A fetched and parsed feed together with, entry by entry, the plain text
/// the entry's first link's page rendered to.
pub struct FetchedFeed {
    pub feed: Feed,
    pub texts: Vec<Option<String>>,
}

/// The outcome of fetching one subscription: its title, and the fetched
/// feed, or nothing where retrieval or parsing failed.
pub struct FeedOutcome {
    pub feed_title: String,
    pub fetched: Option<FetchedFeed>,
}

impl FeedOutcome {
    /// Well-formedness: a fetched feed carries one text slot per entry.
    pub open spec fn wf(self) -> bool {
        self.fetched matches Some(ff) ==> ff.texts@.len() == ff.feed.entries@.len()
    }

    /// The item rows this outcome contributes: none where the fetch failed.
    pub open spec fn contributed(self) -> Seq<ItemData> {
        match self.fetched {
            Some(ff) => items_of_feed(
                self.feed_title@,
                entries_data(ff.feed.entries@),
                text_views(ff.texts@),
            ),
            None => Seq::empty(),
        }
    }
}

/// The item rows a whole refresh appends, subscription by subscription.
pub open spec fn refresh_items(os: Seq<FeedOutcome>) -> Seq<ItemData>
    decreases os.len(),
{
    if os.len() == 0 {
        Seq::empty()
    } else {
        refresh_items(os.drop_last()) + os.last().contributed()
    }
}

/// Applies one refresh pass: subscription by subscription, in order, a
/// failed fetch is reported by its absence and the run goes on; a fetched
/// feed has its items appended. Subscriptions themselves never change.
pub fn refresh_apply(store: &mut Store, outcomes: &Vec<FeedOutcome>)
    requires
        old(store).wf(),
        forall|i: int| 0 <= i < outcomes@.len() ==> (#[trigger] outcomes@[i]).wf(),
    ensures
        final(store).wf(),
        final(store).feeds@ == old(store).feeds@,
        final(store).items_data() == old(store).items_data() + refresh_items(outcomes@),
{
    let n = outcomes.len();
    let mut i: usize = 0;
    while i < n
        invariant
            store.wf(),
            n == outcomes@.len(),
            0 <= i <= n,
            forall|k: int| 0 <= k < n ==> (#[trigger] outcomes@[k]).wf(),
            store.feeds@ == old(store).feeds@,
            store.items_data() == old(store).items_data() + refresh_items(outcomes@.take(i as int)),
        decreases n - i,
    {
        let oc = &outcomes[i];
        match &oc.fetched {
            Some(ff) => {
                ingest_feed(store, oc.feed_title.as_str(), &ff.feed, &ff.texts);
            },
            None => {},
        }
        proof {
            assert(outcomes@.take(i + 1).drop_last() =~= outcomes@.take(i as int));
            assert(outcomes@.take(i + 1).last() == outcomes@[i as int]);
            assert(store.items_data() =~= old(store).items_data() + refresh_items(
                outcomes@.take(i + 1),
            ));
        }
        i += 1;
    }
    proof {
        assert(outcomes@.take(n as int) =~= outcomes@);
    }
}

/// Law: failures are isolated per feed — the rows a refresh appends are
/// exactly the rows of its successfully fetched feeds, however many of the
/// others failed.
pub proof fn lemma_refresh_skips_failures(outcomes: Seq<FeedOutcome>)
    ensures
        refresh_items(outcomes) == refresh_items(
            outcomes.filter(|o: FeedOutcome| o.fetched is Some),
        ),
    decreases outcomes.len(),
{
    let p = |o: FeedOutcome| o.fetched is Some;
    if outcomes.len() == 0 {
        assert(outcomes.filter(p) =~= outcomes);
    } else {
        let dl = outcomes.drop_last();
        let l = outcomes.last();
        lemma_refresh_skips_failures(dl);
        reveal_with_fuel(Seq::filter, 2);
        if p(l) {
            assert(outcomes.filter(p) == dl.filter(p).push(l));
            assert(dl.filter(p).push(l).drop_last() =~= dl.filter(p));
            assert(dl.filter(p).push(l).last() == l);
            assert(refresh_items(outcomes.filter(p)) == refresh_items(dl.filter(p))
                + l.contributed());
        } else {
            assert(outcomes.filter(p) == dl.filter(p));
            assert(l.contributed() =~= Seq::<ItemData>::empty());
            assert(refresh_items(dl) + l.contributed() =~= refresh_items(dl));
        }
    }
}

} // verus!
