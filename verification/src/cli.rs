//! What the user asked for: the search text and how to reach the service.

use vstd::prelude::*;

verus! {

/// One search as entered on the command line.
#[derive(Debug, PartialEq, Eq)]
pub struct Query {
    /// The text to search for.
    pub query: String,
    /// Key that authorises requests to the search service.
    pub api_key: String,
    /// Identifier of the search engine to query.
    pub cx: String,
    /// Whether explicit results are filtered out.
    pub safe: bool,
}

/// A [`Query`] as plain text and a flag.
pub ghost struct QueryView {
    pub query: Seq<char>,
    pub api_key: Seq<char>,
    pub cx: Seq<char>,
    pub safe: bool,
}

impl View for Query {
    type V = QueryView;

    open spec fn view(&self) -> QueryView {
        QueryView {
            query: self.query@,
            api_key: self.api_key@,
            cx: self.cx@,
            safe: self.safe,
        }
    }
}

impl Clone for Query {
    fn clone(&self) -> (copy: Self)
        ensures
            copy == *self,
    {
        Query {
            query: self.query.clone(),
            api_key: self.api_key.clone(),
            cx: self.cx.clone(),
            safe: self.safe,
        }
    }
}

} // verus!
