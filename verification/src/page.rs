//! The page that a client loads before it asks for anything else.

use vstd::prelude::*;

verus! {

/// The index page. It takes nothing from the request and nothing from the store.
#[derive(Clone, Copy, Debug, PartialEq, Eq, Structural)]
pub struct IndexTemplate {}

/// Answers a request for the index page.
pub fn index() -> (page: IndexTemplate)
    ensures
        page == (IndexTemplate {  }),
{
    IndexTemplate {  }
}

} // verus!
