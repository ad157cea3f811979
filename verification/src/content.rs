//! Entry content resolution: the first link of an entry decides which page
//! is retrieved, and an entry without links resolves to nothing rather than
//! an error. The caller retrieves the linked page and renders it to plain
//! text, and hands the outcome in: the text, or nothing where retrieval or
//! rendering failed — that failure is local to the one entry.

use vstd::prelude::*;
use crate::feed::{Entry, EntryData, title_or, text_content_or};
use crate::store::{FeedItem, ItemData};

verus! {

/// Why an entry could not be resolved. A failed retrieval is local to the
/// one entry; the pipeline goes on with the next.
#[derive(Clone, Copy, PartialEq, Eq, Structural, Debug)]
pub enum ContentError {
    /// The entry has a link, but its page yielded no text.
    FetchFailed,
}

/// The view of an optionally rendered page text.
pub open spec fn opt_text(t: Option<&String>) -> Option<Seq<char>> {
    match t {
        Some(s) => Some(s@),
        None => None,
    }
}

/// What resolving an entry against an optionally rendered page text yields:
/// empty URL and empty text where the entry has no links; otherwise the
/// first link and the given text, or nothing where no text could be had.
pub open spec fn resolved_of(e: EntryData, text: Option<Seq<char>>) -> Option<
    (Seq<char>, Seq<char>),
> {
    if e.1.len() == 0 {
        Some((Seq::<char>::empty(), Seq::<char>::empty()))
    } else {
        match text {
            Some(t) => Some((e.1[0], t)),
            None => None,
        }
    }
}

/// Resolves an entry's content: first link wins, later links are ignored.
/// An entry with no links resolves to an empty URL and empty text — never
/// an error. Only a link whose page yielded no text gives an error, and
/// that error is local to this entry.
pub fn resolve_entry_content(entry: &Entry, text: Option<&String>) -> (r: Result<
    (String, String),
    ContentError,
>)
    ensures
        r is Ok <==> resolved_of(entry.data(), opt_text(text)) is Some,
        r matches Ok(p) ==> Some((p.0@, p.1@)) == resolved_of(entry.data(), opt_text(text)),
        entry.links@.len() == 0 ==> (r matches Ok(p) && p.0@ == Seq::<char>::empty() && p.1@
            == Seq::<char>::empty()),
        r is Err ==> entry.links@.len() > 0 && text is None,
{
    if entry.links.len() == 0 {
        Ok((String::new(), String::new()))
    } else {
        match text {
            Some(t) => Ok((entry.links[0].clone(), t.clone())),
            None => Err(ContentError::FetchFailed),
        }
    }
}

/// The item row an entry contributes, as plain data: the feed's title, the
/// entry's title or the literal default `"(no title)"`, and the resolved
/// URL and text; nothing where the entry's page yielded no text.
pub open spec fn item_of(ft: Seq<char>, e: EntryData, text: Option<Seq<char>>) -> Option<ItemData> {
    match resolved_of(e, text) {
        Some(p) => Some((ft, title_or(e.0, "(no title)"@), p.0, p.1)),
        None => None,
    }
}

/// Builds the item row an entry contributes to its feed, or nothing where
/// the entry's page yielded no text.
pub fn entry_item(feed_title: &str, entry: &Entry, text: Option<&String>) -> (r: Option<FeedItem>)
    ensures
        r is Some <==> item_of(feed_title@, entry.data(), opt_text(text)) is Some,
        r matches Some(it) ==> Some((it.feed_title@, it.title@, it.url@, it.content@)) == item_of(
            feed_title@,
            entry.data(),
            opt_text(text),
        ),
{
    match resolve_entry_content(entry, text) {
        Ok((url, content)) => {
            let title = text_content_or(&entry.title, "(no title)").to_owned();
            Some(FeedItem { feed_title: feed_title.to_owned(), title, url, content })
        },
        Err(_) => None,
    }
}

/// Law: wherever an entry without a feed-supplied title is persisted, the
/// persisted title is exactly the literal default `"(no title)"`.
pub proof fn lemma_missing_title_gets_default(ft: Seq<char>, e: EntryData, text: Option<Seq<char>>)
    requires
        e.0 is None,
        item_of(ft, e, text) is Some,
    ensures
        item_of(ft, e, text).unwrap().1 == "(no title)"@,
{
}

} // verus!
