use vstd::prelude::*;

use std::collections::HashMap;

use crate::responses::CategoryRespData;
use crate::responses::CategorySubRespData;
use crate::responses::ComicInSearchRespData;
use crate::responses::SearchResp;
use crate::responses::SearchRespData;
use crate::types::comic::Comic;
use crate::utils;

verus! {

broadcast use vstd::std_specs::hash::group_hash_axioms;

/// A search outcome: either a page of matches or, when the remote
/// redirected an unambiguous query, the one matching comic itself.
#[derive(Debug, Clone)]
pub enum SearchResultVariant {
    SearchResult(SearchResult),
    Comic(Box<Comic>),
}

#[derive(Debug, Clone)]
pub struct SearchResult {
    pub search_query: String,
    pub total: i64,
    pub content: Vec<ComicInSearch>,
}

#[derive(Debug, Clone)]
pub struct ComicInSearch {
    pub id: i64,
    pub author: String,
    pub name: String,
    pub image: String,
    pub category: CategoryRespData,
    pub category_sub: CategorySubRespData,
    pub liked: bool,
    pub is_favorite: bool,
    pub update_at: i64,
    pub is_downloaded: bool,
    pub comic_download_dir: String,
}

/// The fields of a search entry carried over from the wire struct, with the
/// download markers filled from the map of downloaded comics.
pub open spec fn comic_in_search_matches(
    resp: ComicInSearchRespData,
    dirs: Map<i64, String>,
    r: ComicInSearch,
) -> bool {
    &&& Some(r.id) == utils::spec_parse_i64(resp.id@)
    &&& r.author == resp.author
    &&& r.name == resp.name
    &&& r.image == resp.image
    &&& r.category == resp.category
    &&& r.category_sub == resp.category_sub
    &&& r.liked == resp.liked
    &&& r.is_favorite == resp.is_favorite
    &&& r.update_at == resp.update_at
    &&& dirs.contains_key(r.id) ==> r.is_downloaded && r.comic_download_dir == dirs[r.id]
    &&& !dirs.contains_key(r.id) ==> !r.is_downloaded && r.comic_download_dir@ == Seq::<
        char,
    >::empty()
}

impl ComicInSearch {
    /// Builds a search entry from the wire struct; fails when its id is not
    /// a number.
    pub fn from_resp_data(
        resp_data: ComicInSearchRespData,
        id_to_dir_map: &HashMap<i64, String>,
    ) -> (r: Result<ComicInSearch, String>)
        ensures
            r is Ok <==> utils::spec_parse_i64(resp_data.id@) is Some,
            r is Ok ==> comic_in_search_matches(resp_data, id_to_dir_map@, r->Ok_0),
    {
        let id = match utils::parse_i64(resp_data.id.as_str()) {
            Some(id) => id,
            None => {
                return Err("comic id is not a number".to_owned());
            },
        };
        let mut comic = ComicInSearch {
            id,
            author: resp_data.author,
            name: resp_data.name,
            image: resp_data.image,
            category: resp_data.category,
            category_sub: resp_data.category_sub,
            liked: resp_data.liked,
            is_favorite: resp_data.is_favorite,
            update_at: resp_data.update_at,
            is_downloaded: false,
            comic_download_dir: String::new(),
        };
        comic.update_fields(id_to_dir_map);
        Ok(comic)
    }

    /// Marks the entry as downloaded when the map of downloaded comics has
    /// its id, recording the directory; otherwise nothing changes.
    pub fn update_fields(&mut self, id_to_dir_map: &HashMap<i64, String>)
        ensures
            id_to_dir_map@.contains_key(old(self).id) ==> *final(self) == (ComicInSearch {
                comic_download_dir: id_to_dir_map@[old(self).id],
                is_downloaded: true,
                ..*old(self)
            }),
            !id_to_dir_map@.contains_key(old(self).id) ==> *final(self) == *old(self),
    {
        match id_to_dir_map.get(&self.id) {
            Some(dir) => {
                self.comic_download_dir = dir.clone();
                self.is_downloaded = true;
            },
            None => {},
        }
    }
}

impl SearchResult {
    /// Builds a result page from the wire struct; fails when any entry's id
    /// is not a number.
    pub fn from_resp_data(
        search_resp_data: SearchRespData,
        id_to_dir_map: &HashMap<i64, String>,
    ) -> (r: Result<SearchResult, String>)
        ensures
            r is Ok ==> {
                &&& r->Ok_0.search_query == search_resp_data.search_query
                &&& r->Ok_0.total == search_resp_data.total
                &&& r->Ok_0.content@.len() == search_resp_data.content@.len()
                &&& forall|i: int|
                    0 <= i < search_resp_data.content@.len() ==> comic_in_search_matches(
                        search_resp_data.content@[i],
                        id_to_dir_map@,
                        #[trigger] r->Ok_0.content@[i],
                    )
            },
            r is Err ==> exists|i: int|
                0 <= i < search_resp_data.content@.len() && utils::spec_parse_i64(
                    (#[trigger] search_resp_data.content@[i]).id@,
                ) is None,
    {
        let ghost resp_views = search_resp_data.content@;
        let mut content: Vec<ComicInSearch> = Vec::new();
        let n = search_resp_data.content.len();
        let mut items = search_resp_data.content;
        let mut i: usize = 0;
        while i < n
            invariant
                resp_views == search_resp_data.content@,
                n == resp_views.len(),
                items@ == resp_views.skip(i as int),
                i <= n,
                content@.len() == i,
                forall|k: int|
                    0 <= k < i ==> comic_in_search_matches(
                        resp_views[k],
                        id_to_dir_map@,
                        #[trigger] content@[k],
                    ),
            decreases n - i,
        {
            let ghost items_pre = items@;
            let item = items.remove(0);
            proof {
                assert(item == resp_views[i as int]);
                assert(items@ =~= resp_views.skip(i + 1));
            }
            match ComicInSearch::from_resp_data(item, id_to_dir_map) {
                Ok(c) => {
                    content.push(c);
                },
                Err(e) => {
                    proof {
                        assert(utils::spec_parse_i64(
                            search_resp_data.content@[i as int].id@,
                        ) is None);
                    }
                    return Err(e);
                },
            }
            i += 1;
        }
        Ok(
            SearchResult {
                search_query: search_resp_data.search_query,
                total: search_resp_data.total,
                content,
            },
        )
    }
}

impl SearchResultVariant {
    /// Wraps a search response: a result list becomes a result page, a
    /// redirected response becomes the comic it names.
    pub fn from_search_resp(
        search_resp: SearchResp,
        id_to_dir_map: &HashMap<i64, String>,
    ) -> (r: Result<SearchResultVariant, String>)
        requires
            search_resp matches SearchResp::ComicRespData(c) ==> c.series@.len()
                <= 0x7fffffffffffffff,
        ensures
            search_resp is SearchRespData ==> (r is Ok ==> r->Ok_0 is SearchResult),
            search_resp is ComicRespData ==> r is Ok && r->Ok_0 is Comic,
    {
        match search_resp {
            SearchResp::SearchRespData(search_resp_data) => {
                match SearchResult::from_resp_data(search_resp_data, id_to_dir_map) {
                    Ok(search_result) => Ok(SearchResultVariant::SearchResult(search_result)),
                    Err(e) => Err(e),
                }
            },
            SearchResp::ComicRespData(get_comic_resp) => {
                let comic = Comic::from_comic_resp_data(*get_comic_resp, id_to_dir_map);
                Ok(SearchResultVariant::Comic(Box::new(comic)))
            },
        }
    }
}

} // verus!
