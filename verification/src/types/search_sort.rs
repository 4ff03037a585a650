use vstd::prelude::*;

verus! {

/// The query-parameter value of each sort order.
pub open spec fn spec_search_sort_str(sort: SearchSort) -> Seq<char> {
    match sort {
        SearchSort::Latest => "mr"@,
        SearchSort::View => "mv"@,
        SearchSort::Picture => "mp"@,
        SearchSort::Like => "tf"@,
    }
}

/// The order a search result list is requested in.
#[derive(Debug, Clone, Copy, PartialEq, Eq, Structural)]
pub enum SearchSort {
    Latest,
    View,
    Picture,
    Like,
}

impl SearchSort {
    /// The query-parameter value of the sort order.
    pub fn as_str(&self) -> (r: &'static str)
        ensures
            *self is Latest ==> r@ == "mr"@,
            *self is View ==> r@ == "mv"@,
            *self is Picture ==> r@ == "mp"@,
            *self is Like ==> r@ == "tf"@,
            r@ == spec_search_sort_str(*self),
    {
        match self {
            SearchSort::Latest => "mr",
            SearchSort::View => "mv",
            SearchSort::Picture => "mp",
            SearchSort::Like => "tf",
        }
    }
}

} // verus!
