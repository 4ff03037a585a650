use vstd::prelude::*;

verus! {

/// The query-parameter value of each sort order.
pub open spec fn spec_favorite_sort_str(sort: FavoriteSort) -> Seq<char> {
    match sort {
        FavoriteSort::FavoriteTime => "mr"@,
        FavoriteSort::UpdateTime => "mp"@,
    }
}

/// The order a favorite folder listing is requested in.
#[derive(Debug, Clone, Copy, PartialEq, Eq, Structural)]
pub enum FavoriteSort {
    FavoriteTime,
    UpdateTime,
}

impl FavoriteSort {
    /// The query-parameter value of the sort order.
    pub fn as_str(&self) -> (r: &'static str)
        ensures
            *self is FavoriteTime ==> r@ == "mr"@,
            *self is UpdateTime ==> r@ == "mp"@,
            r@ == spec_favorite_sort_str(*self),
    {
        match self {
            FavoriteSort::FavoriteTime => "mr",
            FavoriteSort::UpdateTime => "mp",
        }
    }
}

} // verus!
