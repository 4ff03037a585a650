use vstd::prelude::*;

use std::collections::HashMap;

use crate::responses::CategoryRespData;
use crate::responses::CategorySubRespData;
use crate::responses::ComicInWeeklyRespData;
use crate::responses::GetWeeklyRespData;

verus! {

broadcast use vstd::std_specs::hash::group_hash_axioms;

#[derive(Debug, Clone)]
pub struct GetWeeklyResult {
    pub total: i64,
    pub list: Vec<ComicInWeekly>,
}

#[derive(Debug, Clone)]
pub struct ComicInWeekly {
    pub id: i64,
    pub author: String,
    pub description: String,
    pub name: String,
    pub image: String,
    pub category: CategoryRespData,
    pub category_sub: CategorySubRespData,
    pub liked: bool,
    pub is_favorite: bool,
    pub update_at: i64,
    pub is_downloaded: bool,
    pub comic_download_dir: String,
}

/// The fields of a weekly entry carried over from the wire struct, with the
/// download markers filled from the map of downloaded comics.
pub open spec fn comic_in_weekly_matches(
    resp: ComicInWeeklyRespData,
    dirs: Map<i64, String>,
    r: ComicInWeekly,
) -> bool {
    &&& r.id == resp.id
    &&& r.author == resp.author
    &&& r.description == resp.description
    &&& r.name == resp.name
    &&& r.image == resp.image
    &&& r.category == resp.category
    &&& r.category_sub == resp.category_sub
    &&& r.liked == resp.liked
    &&& r.is_favorite == resp.is_favorite
    &&& r.update_at == resp.update_at
    &&& dirs.contains_key(r.id) ==> r.is_downloaded && r.comic_download_dir == dirs[r.id]
    &&& !dirs.contains_key(r.id) ==> !r.is_downloaded && r.comic_download_dir@ == Seq::<
        char,
    >::empty()
}

impl ComicInWeekly {
    /// Builds a weekly entry from the wire struct and the map of
    /// downloaded comics.
    pub fn from_resp_data(
        resp_data: ComicInWeeklyRespData,
        id_to_dir_map: &HashMap<i64, String>,
    ) -> (r: ComicInWeekly)
        ensures
            comic_in_weekly_matches(resp_data, id_to_dir_map@, r),
    {
        let mut comic = ComicInWeekly {
            id: resp_data.id,
            author: resp_data.author,
            description: resp_data.description,
            name: resp_data.name,
            image: resp_data.image,
            category: resp_data.category,
            category_sub: resp_data.category_sub,
            liked: resp_data.liked,
            is_favorite: resp_data.is_favorite,
            update_at: resp_data.update_at,
            is_downloaded: false,
            comic_download_dir: String::new(),
        };
        comic.update_fields(id_to_dir_map);
        comic
    }

    /// Marks the entry as downloaded when the map of downloaded comics has
    /// its id, recording the directory; otherwise nothing changes.
    pub fn update_fields(&mut self, id_to_dir_map: &HashMap<i64, String>)
        ensures
            id_to_dir_map@.contains_key(old(self).id) ==> *final(self) == (ComicInWeekly {
                comic_download_dir: id_to_dir_map@[old(self).id],
                is_downloaded: true,
                ..*old(self)
            }),
            !id_to_dir_map@.contains_key(old(self).id) ==> *final(self) == *old(self),
    {
        match id_to_dir_map.get(&self.id) {
            Some(dir) => {
                self.comic_download_dir = dir.clone();
                self.is_downloaded = true;
            },
            None => {},
        }
    }
}

impl GetWeeklyResult {
    /// Builds a weekly listing from the wire struct and the map of
    /// downloaded comics.
    pub fn from_resp_data(
        resp_data: GetWeeklyRespData,
        id_to_dir_map: &HashMap<i64, String>,
    ) -> (r: GetWeeklyResult)
        ensures
            r.total == resp_data.total,
            r.list@.len() == resp_data.list@.len(),
            forall|i: int|
                0 <= i < resp_data.list@.len() ==> comic_in_weekly_matches(
                    resp_data.list@[i],
                    id_to_dir_map@,
                    #[trigger] r.list@[i],
                ),
    {
        let ghost resp_views = resp_data.list@;
        let mut list: Vec<ComicInWeekly> = Vec::new();
        let n = resp_data.list.len();
        let mut items = resp_data.list;
        let mut i: usize = 0;
        while i < n
            invariant
                resp_views == resp_data.list@,
                n == resp_views.len(),
                items@ == resp_views.skip(i as int),
                i <= n,
                list@.len() == i,
                forall|k: int|
                    0 <= k < i ==> comic_in_weekly_matches(
                        resp_views[k],
                        id_to_dir_map@,
                        #[trigger] list@[k],
                    ),
            decreases n - i,
        {
            let item = items.remove(0);
            proof {
                assert(item == resp_views[i as int]);
                assert(items@ =~= resp_views.skip(i + 1));
            }
            list.push(ComicInWeekly::from_resp_data(item, id_to_dir_map));
            i += 1;
        }
        GetWeeklyResult { total: resp_data.total, list }
    }
}

} // verus!
