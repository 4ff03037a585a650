use vstd::prelude::*;

use std::collections::HashMap;

use crate::responses::CategoryRespData;
use crate::responses::CategorySubRespData;
use crate::responses::ComicInFavoriteRespData;
use crate::responses::FavoriteFolderRespData;
use crate::responses::GetFavoriteRespData;
use crate::utils;

verus! {

broadcast use vstd::std_specs::hash::group_hash_axioms;

#[derive(Debug, Clone)]
pub struct GetFavoriteResult {
    pub list: Vec<ComicInFavorite>,
    pub folder_list: Vec<FavoriteFolderRespData>,
    pub total: i64,
    pub count: i64,
}

#[derive(Debug, Clone)]
pub struct ComicInFavorite {
    pub id: i64,
    pub author: String,
    pub description: Option<String>,
    pub name: String,
    pub latest_ep: Option<String>,
    pub latest_ep_aid: Option<String>,
    pub image: String,
    pub category: CategoryRespData,
    pub category_sub: CategorySubRespData,
    pub is_downloaded: bool,
    pub comic_download_dir: String,
}

/// The fields of a favorite entry carried over from the wire struct, with
/// the download markers filled from the map of downloaded comics.
pub open spec fn comic_in_favorite_matches(
    resp: ComicInFavoriteRespData,
    dirs: Map<i64, String>,
    r: ComicInFavorite,
) -> bool {
    &&& Some(r.id) == utils::spec_parse_i64(resp.id@)
    &&& r.author == resp.author
    &&& r.description == resp.description
    &&& r.name == resp.name
    &&& r.latest_ep == resp.latest_ep
    &&& r.latest_ep_aid == resp.latest_ep_aid
    &&& r.image == resp.image
    &&& r.category == resp.category
    &&& r.category_sub == resp.category_sub
    &&& dirs.contains_key(r.id) ==> r.is_downloaded && r.comic_download_dir == dirs[r.id]
    &&& !dirs.contains_key(r.id) ==> !r.is_downloaded && r.comic_download_dir@ == Seq::<
        char,
    >::empty()
}

impl ComicInFavorite {
    /// Builds a favorite entry from the wire struct; fails when its id is
    /// not a number.
    pub fn from_resp_data(
        resp_data: ComicInFavoriteRespData,
        id_to_dir_map: &HashMap<i64, String>,
    ) -> (r: Result<ComicInFavorite, String>)
        ensures
            r is Ok <==> utils::spec_parse_i64(resp_data.id@) is Some,
            r is Ok ==> comic_in_favorite_matches(resp_data, id_to_dir_map@, r->Ok_0),
    {
        let id = match utils::parse_i64(resp_data.id.as_str()) {
            Some(id) => id,
            None => {
                return Err("comic id is not a number".to_owned());
            },
        };
        let mut comic = ComicInFavorite {
            id,
            author: resp_data.author,
            description: resp_data.description,
            name: resp_data.name,
            latest_ep: resp_data.latest_ep,
            latest_ep_aid: resp_data.latest_ep_aid,
            image: resp_data.image,
            category: resp_data.category,
            category_sub: resp_data.category_sub,
            is_downloaded: false,
            comic_download_dir: String::new(),
        };
        comic.update_fields(id_to_dir_map);
        Ok(comic)
    }

    /// Marks the entry as downloaded when the map of downloaded comics has
    /// its id, recording the directory; otherwise nothing changes.
    pub fn update_fields(&mut self, id_to_dir_map: &HashMap<i64, String>)
        ensures
            id_to_dir_map@.contains_key(old(self).id) ==> *final(self) == (ComicInFavorite {
                comic_download_dir: id_to_dir_map@[old(self).id],
                is_downloaded: true,
                ..*old(self)
            }),
            !id_to_dir_map@.contains_key(old(self).id) ==> *final(self) == *old(self),
    {
        match id_to_dir_map.get(&self.id) {
            Some(dir) => {
                self.comic_download_dir = dir.clone();
                self.is_downloaded = true;
            },
            None => {},
        }
    }
}

impl GetFavoriteResult {
    /// Builds a favorite listing from the wire struct; fails when the page
    /// total or any entry's id is not a number.
    pub fn from_resp_data(
        resp_data: GetFavoriteRespData,
        id_to_dir_map: &HashMap<i64, String>,
    ) -> (r: Result<GetFavoriteResult, String>)
        ensures
            r is Ok ==> {
                &&& Some(r->Ok_0.total) == utils::spec_parse_i64(resp_data.total@)
                &&& r->Ok_0.count == resp_data.count
                &&& r->Ok_0.folder_list == resp_data.folder_list
                &&& r->Ok_0.list@.len() == resp_data.list@.len()
                &&& forall|i: int|
                    0 <= i < resp_data.list@.len() ==> comic_in_favorite_matches(
                        resp_data.list@[i],
                        id_to_dir_map@,
                        #[trigger] r->Ok_0.list@[i],
                    )
            },
            r is Err ==> utils::spec_parse_i64(resp_data.total@) is None || exists|i: int|
                0 <= i < resp_data.list@.len() && utils::spec_parse_i64(
                    (#[trigger] resp_data.list@[i]).id@,
                ) is None,
    {
        let total = match utils::parse_i64(resp_data.total.as_str()) {
            Some(t) => t,
            None => {
                return Err("favorite total is not a number".to_owned());
            },
        };
        let ghost resp_views = resp_data.list@;
        let mut list: Vec<ComicInFavorite> = Vec::new();
        let n = resp_data.list.len();
        let mut items = resp_data.list;
        let mut i: usize = 0;
        while i < n
            invariant
                resp_views == resp_data.list@,
                n == resp_views.len(),
                items@ == resp_views.skip(i as int),
                i <= n,
                list@.len() == i,
                forall|k: int|
                    0 <= k < i ==> comic_in_favorite_matches(
                        resp_views[k],
                        id_to_dir_map@,
                        #[trigger] list@[k],
                    ),
            decreases n - i,
        {
            let item = items.remove(0);
            proof {
                assert(item == resp_views[i as int]);
                assert(items@ =~= resp_views.skip(i + 1));
            }
            match ComicInFavorite::from_resp_data(item, id_to_dir_map) {
                Ok(c) => {
                    list.push(c);
                },
                Err(e) => {
                    proof {
                        assert(utils::spec_parse_i64(resp_data.list@[i as int].id@) is None);
                    }
                    return Err(e);
                },
            }
            i += 1;
        }
        Ok(GetFavoriteResult { list, folder_list: resp_data.folder_list, total, count: resp_data.count })
    }
}

} // verus!
