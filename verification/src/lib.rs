//! Verified core of a treasury interest-rate feed relay.
//!
//! The library models the one piece of real logic in the relay: extracting a
//! closed set of named fields from a monthly XML feed, building the feed URL
//! for a given month, and deciding the one-step fallback to the previous
//! month when the current month has no published data.

use vstd::prelude::*;

pub mod bill_rates;
pub mod fallback;
pub mod month;
pub mod url_build;
pub mod xml_scan;
pub mod yield_curve;

verus! {

/// The failure kinds a fetch-and-parse attempt can end in.
#[derive(Debug, Clone, Copy, PartialEq, Eq, Structural)]
pub enum FeedError {
    /// The feed URL could not be assembled from its template.
    UrlBuild,
    /// The outbound fetch failed in transport.
    Network,
    /// The fetched document is not well-formed XML.
    XmlParse,
    /// The document is well-formed but holds no data row for the month.
    NoEntries,
}

} // verus!
