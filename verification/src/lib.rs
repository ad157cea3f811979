//! Core of a feed aggregator: OPML import, feed parsing, entry content
//! resolution, and an in-memory subscription store with upsert semantics.
//!
//! Network retrieval and durable storage live outside this library; callers
//! hand in the bytes they fetched and mirror the store's contents to disk.

use vstd::prelude::*;

pub mod content;
pub mod feed;
pub mod opml_import;
pub mod refresh;
pub mod store;

verus! {

/// The two paths the aggregator needs: where the database lives and where
/// the OPML subscription list is read from.
pub struct Config {
    pub db_path: String,
    pub opml_path: String,
}

/// Builds a `Config` from command-line arguments: the first argument is the
/// program name, the second the database path, the third the OPML path.
pub fn parse_config(args: &[String]) -> (r: Result<Config, &str>)
    ensures
        args@.len() >= 3 ==> (r matches Ok(c)
            && c.db_path@ == args@[1]@
            && c.opml_path@ == args@[2]@),
        args@.len() < 3 ==> (r matches Err(m) && m@
            == "Not enough arguments; db path and opml import path expected"@),
{
    if args.len() < 3 {
        return Err("Not enough arguments; db path and opml import path expected");
    }

    let db_path = args[1].clone();
    let opml_path = args[2].clone();

    Ok(Config { db_path, opml_path })
}

} // verus!
