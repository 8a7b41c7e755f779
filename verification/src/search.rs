//! Searching for boards by name.
//!
//! The search itself — one HTTP request and the row-by-row reading of the
//! result table — is page-source work done outside the library; its outcome
//! arrives as a list of [`SearchResult`] values and travels back to the
//! interface through the worker's search response.

use vstd::prelude::*;

verus! {

/// The board-search capability. Carries no state; it names the search
/// operation that the dispatcher routes to the page source.
#[derive(Clone, Copy, Debug, Default, PartialEq, Eq, Structural)]
pub struct BoardSearch;

/// One row of a board-search result: a board id, its name, and the
/// platform tag shown before the name.
#[derive(Debug)]
pub struct SearchResult {
    pub id: String,
    pub name: String,
    pub platform: String,
}

impl Clone for SearchResult {
    fn clone(&self) -> (r: Self)
        ensures
            r == *self,
    {
        SearchResult {
            id: self.id.clone(),
            name: self.name.clone(),
            platform: self.platform.clone(),
        }
    }
}

} // verus!
