//! In-memory model of the subscription store: subscriptions keyed by title
//! (upsert replaces), and feed items appended without a natural key.

use vstd::prelude::*;

verus! {

/// One item row as plain data: feed title, item title, url, content.
pub type ItemData = (Seq<char>, Seq<char>, Seq<char>, Seq<char>);

/// A subscribed feed: `title` is the unique key, `url` its fetch address.
pub struct Subscription {
    pub title: String,
    pub url: String,
}

/// One persisted item of a feed: which feed it belongs to, its display
/// title, the resolved link, and the extracted plain text.
pub struct FeedItem {
    pub feed_title: String,
    pub title: String,
    pub url: String,
    pub content: String,
}

/// The store: a subscription table with unique titles, and an append-only
/// item table.
pub struct Store {
    pub feeds: Vec<Subscription>,
    pub items: Vec<FeedItem>,
}

impl Store {
    /// Well-formedness: no two subscriptions share a title.
    pub open spec fn wf(self) -> bool {
        forall|i: int, j: int|
            0 <= i < self.feeds@.len() && 0 <= j < self.feeds@.len() && i != j
                ==> self.feeds@[i].title@ != self.feeds@[j].title@
    }

    /// Whether some subscription has this title.
    pub open spec fn has_feed(self, t: Seq<char>) -> bool {
        exists|i: int| 0 <= i < self.feeds@.len() && self.feeds@[i].title@ == t
    }

    /// The URL stored under this title (meaningful only when `has_feed`).
    pub open spec fn feed_url_at(self, t: Seq<char>) -> Seq<char> {
        let i = choose|i: int| 0 <= i < self.feeds@.len() && self.feeds@[i].title@ == t;
        self.feeds@[i].url@
    }

    /// The subscription table as a map from title to URL.
    pub open spec fn feeds_map(self) -> Map<Seq<char>, Seq<char>> {
        Map::new(|t: Seq<char>| self.has_feed(t), |t: Seq<char>| self.feed_url_at(t))
    }

    /// The item table as plain data: (feed title, item title, url, content).
    pub open spec fn items_data(self) -> Seq<ItemData> {
        self.items@.map_values(|it: FeedItem| (it.feed_title@, it.title@, it.url@, it.content@))
    }

    /// A fresh store with both tables empty.
    pub fn initialize() -> (s: Store)
        ensures
            s.wf(),
            s.feeds@.len() == 0,
            s.items@.len() == 0,
            s.feeds_map() == Map::<Seq<char>, Seq<char>>::empty(),
    {
        let s = Store { feeds: Vec::new(), items: Vec::new() };
        proof {
            assert(s.feeds_map() =~= Map::<Seq<char>, Seq<char>>::empty());
        }
        s
    }

    /// Inserts a subscription, or replaces the row already holding this
    /// title: last write wins, never a duplicate.
    pub fn upsert_subscription(&mut self, title: String, url: String)
        requires
            old(self).wf(),
        ensures
            final(self).wf(),
            final(self).items@ == old(self).items@,
            final(self).feeds_map() == old(self).feeds_map().insert(title@, url@),
            final(self).feeds@.len() == if old(self).has_feed(title@) {
                old(self).feeds@.len() as int
            } else {
                old(self).feeds@.len() + 1 as int
            },
    {
        let n = self.feeds.len();
        let mut i: usize = 0;
        while i < n
            invariant
                old(self).wf(),
                n == self.feeds@.len(),
                *self == *old(self),
                0 <= i <= n,
                forall|k: int| 0 <= k < i ==> self.feeds@[k].title@ != title@,
            decreases n - i,
        {
            if self.feeds[i].title == title {
                self.feeds.remove(i);
                self.feeds.push(Subscription { title, url });
                proof {
                    lemma_upsert_replace(*old(self), *self, i as int, title@, url@);
                }
                return;
            }
            i += 1;
        }
        self.feeds.push(Subscription { title, url });
        proof {
            lemma_upsert_append(*old(self), *self, title@, url@);
        }
    }

    /// Appends an item row. There is no natural key: every call adds a row.
    pub fn upsert_feed_item(&mut self, feed_title: String, title: String, url: String, content: String)
        ensures
            final(self).feeds@ == old(self).feeds@,
            final(self).items@ == old(self).items@.push(
                (FeedItem { feed_title, title, url, content }),
            ),
    {
        self.items.push(FeedItem { feed_title, title, url, content });
    }

    /// Returns a snapshot of every subscription as (title, url) pairs.
    pub fn list_subscriptions(&self) -> (r: Vec<(String, String)>)
        ensures
            r@.len() == self.feeds@.len(),
            forall|k: int| 0 <= k < r@.len()
                ==> r@[k].0@ == self.feeds@[k].title@ && r@[k].1@ == self.feeds@[k].url@,
    {
        let mut r: Vec<(String, String)> = Vec::new();
        let n = self.feeds.len();
        let mut i: usize = 0;
        while i < n
            invariant
                n == self.feeds@.len(),
                0 <= i <= n,
                r@.len() == i,
                forall|k: int| 0 <= k < i
                    ==> r@[k].0@ == self.feeds@[k].title@ && r@[k].1@ == self.feeds@[k].url@,
            decreases n - i,
        {
            r.push((self.feeds[i].title.clone(), self.feeds[i].url.clone()));
            i += 1;
        }
        r
    }
}

/// With unique titles, the URL looked up for row `i`'s title is row `i`'s URL.
proof fn lemma_url_at(s: Store, i: int)
    requires
        s.wf(),
        0 <= i < s.feeds@.len(),
    ensures
        s.has_feed(s.feeds@[i].title@),
        s.feed_url_at(s.feeds@[i].title@) == s.feeds@[i].url@,
{
    let t = s.feeds@[i].title@;
    assert(s.has_feed(t));
    let j = choose|j: int| 0 <= j < s.feeds@.len() && s.feeds@[j].title@ == t;
    assert(j == i);
}

proof fn lemma_upsert_replace(pre: Store, post: Store, i: int, t: Seq<char>, u: Seq<char>)
    requires
        pre.wf(),
        0 <= i < pre.feeds@.len(),
        pre.feeds@[i].title@ == t,
        forall|k: int| 0 <= k < i ==> pre.feeds@[k].title@ != t,
        post.items@ == pre.items@,
        post.feeds@.len() == pre.feeds@.len(),
        forall|k: int| 0 <= k < i ==> post.feeds@[k] == pre.feeds@[k],
        forall|k: int| i <= k < post.feeds@.len() - 1 ==> post.feeds@[k] == pre.feeds@[k + 1],
        post.feeds@[post.feeds@.len() - 1].title@ == t,
        post.feeds@[post.feeds@.len() - 1].url@ == u,
    ensures
        post.wf(),
        post.feeds_map() == pre.feeds_map().insert(t, u),
        pre.has_feed(t),
{
    let n = post.feeds@.len();
    assert forall|a: int, b: int|
        0 <= a < n && 0 <= b < n && a != b
            implies post.feeds@[a].title@ != post.feeds@[b].title@ by {
        if a < n - 1 && b < n - 1 {
            let a0: int = if a < i { a } else { a + 1 };
            let b0: int = if b < i { b } else { b + 1 };
            assert(pre.feeds@[a0].title@ != pre.feeds@[b0].title@);
        } else if a == n - 1 {
            let b0: int = if b < i { b } else { b + 1 };
            if b0 != i {
                assert(pre.feeds@[b0].title@ != pre.feeds@[i].title@);
            }
        } else {
            let a0: int = if a < i { a } else { a + 1 };
            if a0 != i {
                assert(pre.feeds@[a0].title@ != pre.feeds@[i].title@);
            }
        }
    }
    assert(post.wf());
    assert(pre.has_feed(t));
    assert forall|x: Seq<char>| post.has_feed(x) <==> pre.feeds_map().insert(t, u).contains_key(x) by {
        if post.has_feed(x) {
            let k = choose|k: int| 0 <= k < n && post.feeds@[k].title@ == x;
            if k == n - 1 {
                assert(x == t);
            } else {
                let k0: int = if k < i { k } else { k + 1 };
                assert(pre.feeds@[k0].title@ == x);
                assert(pre.has_feed(x));
            }
        }
        if pre.has_feed(x) {
            let k0 = choose|k0: int| 0 <= k0 < pre.feeds@.len() && pre.feeds@[k0].title@ == x;
            if k0 == i {
                assert(post.feeds@[n - 1].title@ == x);
            } else if k0 < i {
                assert(post.feeds@[k0].title@ == x);
            } else {
                assert(post.feeds@[k0 - 1].title@ == x);
            }
            assert(post.has_feed(x));
        }
    }
    assert forall|x: Seq<char>| #[trigger] post.has_feed(x)
        implies post.feed_url_at(x) == pre.feeds_map().insert(t, u)[x] by {
        if x == t {
            lemma_url_at(post, n - 1);
        } else {
            let k = choose|k: int| 0 <= k < n && post.feeds@[k].title@ == x;
            lemma_url_at(post, k);
            let k0: int = if k < i { k } else { k + 1 };
            assert(k != n - 1);
            assert(pre.feeds@[k0].title@ == x && pre.feeds@[k0].url@ == post.feeds@[k].url@);
            lemma_url_at(pre, k0);
        }
    }
    assert(post.feeds_map() =~= pre.feeds_map().insert(t, u));
}

proof fn lemma_upsert_append(pre: Store, post: Store, t: Seq<char>, u: Seq<char>)
    requires
        pre.wf(),
        forall|k: int| 0 <= k < pre.feeds@.len() ==> pre.feeds@[k].title@ != t,
        post.items@ == pre.items@,
        post.feeds@.len() == pre.feeds@.len() + 1,
        forall|k: int| 0 <= k < pre.feeds@.len() ==> post.feeds@[k] == pre.feeds@[k],
        post.feeds@[post.feeds@.len() - 1].title@ == t,
        post.feeds@[post.feeds@.len() - 1].url@ == u,
    ensures
        post.wf(),
        post.feeds_map() == pre.feeds_map().insert(t, u),
        !pre.has_feed(t),
{
    let n = post.feeds@.len();
    assert(post.wf());
    assert forall|x: Seq<char>| post.has_feed(x) <==> pre.feeds_map().insert(t, u).contains_key(x) by {
        if post.has_feed(x) {
            let k = choose|k: int| 0 <= k < n && post.feeds@[k].title@ == x;
            if k == n - 1 {
                assert(x == t);
            } else {
                assert(pre.feeds@[k].title@ == x);
                assert(pre.has_feed(x));
            }
        }
        if pre.has_feed(x) {
            let k0 = choose|k0: int| 0 <= k0 < pre.feeds@.len() && pre.feeds@[k0].title@ == x;
            assert(post.feeds@[k0].title@ == x);
            assert(post.has_feed(x));
        }
    }
    assert forall|x: Seq<char>| #[trigger] post.has_feed(x)
        implies post.feed_url_at(x) == pre.feeds_map().insert(t, u)[x] by {
        if x == t {
            lemma_url_at(post, n - 1);
        } else {
            let k = choose|k: int| 0 <= k < n && post.feeds@[k].title@ == x;
            lemma_url_at(post, k);
            assert(k != n - 1);
            assert(pre.feeds@[k].title@ == x && pre.feeds@[k].url@ == post.feeds@[k].url@);
            lemma_url_at(pre, k);
        }
    }
    assert(post.feeds_map() =~= pre.feeds_map().insert(t, u));
}

} // verus!
