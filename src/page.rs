use vstd::prelude::*;

verus! {

/// One candidate image of a result page: its remote path and its place in the page.
#[derive(Debug, Clone, PartialEq, Eq)]
pub struct Candidate {
    pub url: String,
    pub position: usize,
}

/// One page of search results, as read from the search service's reply.
#[derive(Debug, Clone, PartialEq, Eq)]
pub struct ResultPage {
    /// The remote paths of the candidates, in page order.
    pub items: Vec<String>,
    pub total: i64,
    pub per_page: i64,
    /// The page number that was asked for.
    pub current_page: i64,
    pub last_page: i64,
}

impl ResultPage {
    /// Whether this is the one-candidate page that stands for an image of a
    /// source without pagination.
    pub open spec fn is_single(&self, url: String) -> bool {
        &&& self.items@ == seq![url]
        &&& self.total == 1
        &&& self.per_page == 1
        &&& self.current_page == 1
        &&& self.last_page == 1
    }

    /// The one-candidate page of a source without pagination.
    pub fn single(url: String) -> (r: ResultPage)
        ensures
            r.is_single(url),
    {
        let mut items: Vec<String> = Vec::new();
        items.push(url);
        proof {
            assert(items@ =~= seq![url]);
        }
        ResultPage { items, total: 1, per_page: 1, current_page: 1, last_page: 1 }
    }

    /// How many candidates the prompt announces for this page: the smaller of
    /// the total count and the page size.
    pub fn shown_count(&self) -> (r: i64)
        ensures
            r == if self.total < self.per_page { self.total } else { self.per_page },
    {
        if self.total < self.per_page {
            self.total
        } else {
            self.per_page
        }
    }
}

} // verus!
