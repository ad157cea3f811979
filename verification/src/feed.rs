//! The structured view of a fetched feed: a title and a list of entries,
//! each entry with an optional title and an ordered list of links. The
//! caller parses the bytes it retrieved into this shape and hands it in;
//! bytes that do not parse never reach this library.

use vstd::prelude::*;

verus! {

/// One entry as plain data: optional title, link hrefs in document order.
pub type EntryData = (Option<Seq<char>>, Seq<Seq<char>>);

/// A feed as plain data: optional title, entries in document order.
pub type FeedData = (Option<Seq<char>>, Seq<EntryData>);

/// The view of an optional string.
pub open spec fn opt_str_view(t: Option<String>) -> Option<Seq<char>> {
    match t {
        Some(s) => Some(s@),
        None => None,
    }
}

/// One item within a feed: its title, where the source supplied one, and
/// its links in order.
pub struct Entry {
    pub title: Option<String>,
    pub links: Vec<String>,
}

impl Entry {
    /// The entry as plain data.
    pub open spec fn data(self) -> EntryData {
        (opt_str_view(self.title), self.links@.map_values(|l: String| l@))
    }
}

/// A parsed feed: its title, where the source supplied one, and its entries
/// in order.
pub struct Feed {
    pub title: Option<String>,
    pub entries: Vec<Entry>,
}

impl Feed {
    /// The feed as plain data.
    pub open spec fn data(self) -> FeedData {
        (opt_str_view(self.title), self.entries@.map_values(|e: Entry| e.data()))
    }
}

/// The text of an optional title, or the given default where it is absent.
pub open spec fn title_or(t: Option<Seq<char>>, d: Seq<char>) -> Seq<char> {
    match t {
        Some(s) => s,
        None => d,
    }
}

/// Returns the content of an optional text, falling back to `or_text`.
pub fn text_content_or<'a>(text: &'a Option<String>, or_text: &'a str) -> (r: &'a str)
    ensures
        r@ == title_or(opt_str_view(*text), or_text@),
{
    match text {
        Some(t) => t.as_str(),
        None => or_text,
    }
}

} // verus!
