//! OPML import: classifying an OPML document's top-level outlines and
//! upserting a subscription for each outline marked as a syndication feed.
//! The caller parses the document and hands the outlines' attributes in as
//! plain values; a malformed document never reaches this module.

use vstd::prelude::*;
use crate::store::Store;

verus! {

/// The attributes of one outline as plain data: text, declared type, feed URL.
pub type OutlineData = (Seq<char>, Option<Seq<char>>, Option<Seq<char>>);

/// One outline element of an OPML document: its text, its declared type
/// attribute, and its feed URL attribute, each of the latter two optional.
pub struct Outline {
    pub text: String,
    pub outline_type: Option<String>,
    pub xml_url: Option<String>,
}

impl Outline {
    /// The outline's attributes as plain data.
    pub open spec fn data(self) -> OutlineData {
        (
            self.text@,
            match self.outline_type {
                Some(t) => Some(t@),
                None => None,
            },
            match self.xml_url {
                Some(u) => Some(u@),
                None => None,
            },
        )
    }
}

/// How the importer treated one outline. Only `Imported` writes a row; the
/// other three are informational, never errors.
#[derive(Clone, Copy, PartialEq, Eq, Structural, Debug)]
pub enum OutlineDisposition {
    /// A feed-marker outline with a feed URL: a subscription was upserted.
    Imported,
    /// The outline declares a type other than the feed marker.
    NotFeed,
    /// The outline declares no type at all.
    UnknownType,
    /// A feed-marker outline without a feed URL: skipped.
    MissingUrl,
}

/// Whether an outline is imported: its type is the feed marker and it
/// carries a feed URL.
pub open spec fn is_feed_import(o: OutlineData) -> bool {
    &&& o.1 matches Some(t) && t == "rss"@
    &&& o.2 is Some
}

/// How one outline is classified.
pub open spec fn classify(o: OutlineData) -> OutlineDisposition {
    match o.1 {
        Some(t) => if t == "rss"@ {
            if o.2 is Some {
                OutlineDisposition::Imported
            } else {
                OutlineDisposition::MissingUrl
            }
        } else {
            OutlineDisposition::NotFeed
        },
        None => OutlineDisposition::UnknownType,
    }
}

/// What one outline does to the subscription map.
pub open spec fn import_step(m: Map<Seq<char>, Seq<char>>, o: OutlineData) -> Map<
    Seq<char>,
    Seq<char>,
> {
    if is_feed_import(o) {
        m.insert(o.0, o.2.unwrap())
    } else {
        m
    }
}

/// The subscription map after importing a sequence of outlines in order.
pub open spec fn import_map(m: Map<Seq<char>, Seq<char>>, os: Seq<OutlineData>) -> Map<
    Seq<char>,
    Seq<char>,
>
    decreases os.len(),
{
    if os.len() == 0 {
        m
    } else {
        import_step(import_map(m, os.drop_last()), os.last())
    }
}

/// Classifies one outline: feed marker with URL, feed marker without URL,
/// other type, or no type.
pub fn classify_outline(o: &Outline) -> (d: OutlineDisposition)
    ensures
        d == classify(o.data()),
{
    let marker: String = "rss".to_owned();
    match &o.outline_type {
        None => OutlineDisposition::UnknownType,
        Some(t) => {
            if *t == marker {
                match &o.xml_url {
                    Some(_) => OutlineDisposition::Imported,
                    None => OutlineDisposition::MissingUrl,
                }
            } else {
                OutlineDisposition::NotFeed
            }
        },
    }
}

/// Imports already-parsed outlines in order: each feed-marker outline with a
/// URL upserts a subscription (last write wins); every other outline leaves
/// the store untouched. Returns how each outline was treated.
pub fn import_outlines(store: &mut Store, outlines: &Vec<Outline>) -> (report: Vec<
    OutlineDisposition,
>)
    requires
        old(store).wf(),
    ensures
        final(store).wf(),
        final(store).items@ == old(store).items@,
        final(store).feeds_map() == import_map(
            old(store).feeds_map(),
            outlines@.map_values(|o: Outline| o.data()),
        ),
        report@ == outlines@.map_values(|o: Outline| classify(o.data())),
{
    let ghost odata = outlines@.map_values(|o: Outline| o.data());
    let ghost cdata = outlines@.map_values(|o: Outline| classify(o.data()));
    let mut report: Vec<OutlineDisposition> = Vec::new();
    let n = outlines.len();
    let mut i: usize = 0;
    while i < n
        invariant
            old(store).wf(),
            store.wf(),
            n == outlines@.len(),
            0 <= i <= n,
            odata == outlines@.map_values(|o: Outline| o.data()),
            cdata == outlines@.map_values(|o: Outline| classify(o.data())),
            store.items@ == old(store).items@,
            store.feeds_map() == import_map(old(store).feeds_map(), odata.take(i as int)),
            report@ == cdata.take(i as int),
        decreases n - i,
    {
        let o = &outlines[i];
        let d = classify_outline(o);
        if let OutlineDisposition::Imported = d {
            proof {
                assert(o.data().2 is Some);
            }
            let url = match &o.xml_url {
                Some(u) => u.clone(),
                None => String::new(),
            };
            store.upsert_subscription(o.text.clone(), url);
        }
        report.push(d);
        proof {
            assert(odata.take(i + 1).drop_last() =~= odata.take(i as int));
            assert(odata.take(i + 1).last() == odata[i as int]);
            assert(cdata.take(i + 1) =~= cdata.take(i as int).push(d));
        }
        i += 1;
    }
    proof {
        assert(odata.take(n as int) =~= odata);
        assert(cdata.take(n as int) =~= cdata);
    }
    report
}

/// The URL of the last imported outline carrying this title, scanning a
/// sequence of outlines from the back; `None` where no outline imports it.
pub open spec fn last_import_url(os: Seq<OutlineData>, t: Seq<char>) -> Option<Seq<char>>
    decreases os.len(),
{
    if os.len() == 0 {
        None
    } else if is_feed_import(os.last()) && os.last().0 == t {
        Some(os.last().2.unwrap())
    } else {
        last_import_url(os.drop_last(), t)
    }
}

/// Pointwise reading of `import_map`: a title is present afterwards exactly
/// when it was present before or some outline imports it, and its URL is the
/// last imported one, the prior one otherwise.
pub proof fn lemma_import_map_at(m: Map<Seq<char>, Seq<char>>, os: Seq<OutlineData>, t: Seq<char>)
    ensures
        import_map(m, os).contains_key(t) <==> (m.contains_key(t) || last_import_url(os, t)
            is Some),
        last_import_url(os, t) matches Some(u) ==> import_map(m, os)[t] == u,
        last_import_url(os, t) is None && m.contains_key(t) ==> import_map(m, os)[t] == m[t],
    decreases os.len(),
{
    if os.len() > 0 {
        lemma_import_map_at(m, os.drop_last(), t);
    }
}

/// Law: importing the same outlines twice gives the same subscription map as
/// importing them once — the second pass only rewrites each imported title
/// with the URL it already holds.
pub proof fn lemma_import_idempotent(m: Map<Seq<char>, Seq<char>>, os: Seq<OutlineData>)
    ensures
        import_map(import_map(m, os), os) == import_map(m, os),
{
    let m1 = import_map(m, os);
    let m2 = import_map(m1, os);
    assert forall|t: Seq<char>| #[trigger] m2.contains_key(t) <==> m1.contains_key(t) by {
        lemma_import_map_at(m, os, t);
        lemma_import_map_at(m1, os, t);
    }
    assert forall|t: Seq<char>| m1.contains_key(t) implies m2[t] == m1[t] by {
        lemma_import_map_at(m, os, t);
        lemma_import_map_at(m1, os, t);
    }
    assert(m2 =~= m1);
}

/// Law: outlines that are not imported — not feed-marked, lacking a type, or
/// feed-marked but missing a feed URL — create and change no subscription.
pub proof fn lemma_unimported_outlines_change_nothing(
    m: Map<Seq<char>, Seq<char>>,
    os: Seq<OutlineData>,
)
    requires
        forall|i: int| 0 <= i < os.len() ==> classify(#[trigger] os[i])
            != OutlineDisposition::Imported,
    ensures
        import_map(m, os) == m,
    decreases os.len(),
{
    if os.len() > 0 {
        assert(classify(os[os.len() - 1]) != OutlineDisposition::Imported);
        assert(!is_feed_import(os.last()));
        lemma_unimported_outlines_change_nothing(m, os.drop_last());
    }
}

/// Law: re-importing a feed-marker outline whose title is already subscribed
/// but whose URL changed rewrites that row's URL in place: the set of titles
/// stays the same and every other title keeps its URL.
pub proof fn lemma_reimport_updates_url(
    m: Map<Seq<char>, Seq<char>>,
    t: Seq<char>,
    u1: Seq<char>,
    u2: Seq<char>,
)
    ensures
        ({
            let m1 = import_map(m, seq![(t, Some("rss"@), Some(u1))]);
            let m2 = import_map(m1, seq![(t, Some("rss"@), Some(u2))]);
            &&& m1.contains_key(t)
            &&& m2.dom() == m1.dom()
            &&& m2[t] == u2
            &&& forall|x: Seq<char>| x != t && m1.contains_key(x) ==> m2[x] == m1[x]
        }),
{
    let o1 = (t, Some("rss"@), Some(u1));
    let o2 = (t, Some("rss"@), Some(u2));
    let s1 = seq![o1];
    let s2 = seq![o2];
    assert(s1.drop_last() =~= Seq::<OutlineData>::empty());
    assert(s2.drop_last() =~= Seq::<OutlineData>::empty());
    assert(is_feed_import(o1));
    assert(is_feed_import(o2));
    assert(import_map(m, Seq::<OutlineData>::empty()) == m);
    assert(import_map(import_map(m, s1), Seq::<OutlineData>::empty()) == import_map(m, s1));
    let m1 = import_map(m, s1);
    let m2 = import_map(m1, s2);
    assert(s1.last() == o1);
    assert(s2.last() == o2);
    assert(m1 == import_step(m, o1));
    assert(m2 == import_step(m1, o2));
    assert(m1 == m.insert(t, u1));
    assert(m2 == m1.insert(t, u2));
    assert(m2.dom() =~= m1.dom());
}

} // verus!
