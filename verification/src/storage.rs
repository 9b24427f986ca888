//! Records of the browsing history and the bookmarks, as the database
//! stores them.
use vstd::prelude::*;

verus! {

/// One visit.
pub struct HistoryItem {
    /// Row id; `None` before the record is stored.
    pub id: Option<i64>,
    pub url: String,
    pub title: String,
    /// Seconds since the Unix epoch.
    pub visit_time: i64,
}

/// One bookmark.
pub struct BookmarkItem {
    /// Row id; `None` before the record is stored.
    pub id: Option<i64>,
    pub url: String,
    pub title: String,
    /// Seconds since the Unix epoch.
    pub added_time: i64,
}

} // verus!
