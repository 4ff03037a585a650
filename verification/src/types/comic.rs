use vstd::prelude::*;

use std::collections::HashMap;

use crate::responses::GetComicRespData;
use crate::responses::RelatedListRespData;
use crate::responses::SeriesRespData;
use crate::types::chapter_info::dir_file_name;
use crate::types::chapter_info::spec_dir_file_name;
use crate::types::chapter_info::ChapterInfo;
use crate::utils;

verus! {

broadcast use vstd::std_specs::hash::group_hash_axioms;

/// The display title of a chapter: its one-based position, wrapped in the
/// ordinal words, followed by the series entry's own name when it has one.
pub open spec fn spec_chapter_title(order: int, name: Seq<char>) -> Seq<char> {
    let base = seq!['第'] + utils::spec_dec_chars(order as nat) + seq!['话'];
    if name.len() == 0 {
        base
    } else {
        base + seq![' '] + name
    }
}

/// The (id, title, order) triples read from a series list: each entry whose
/// id parses as a number becomes one chapter, numbered by its position in
/// the list.
pub open spec fn spec_chapters(series: Seq<SeriesRespData>) -> Seq<(i64, Seq<char>, i64)>
    decreases series.len(),
{
    if series.len() == 0 {
        Seq::empty()
    } else {
        let prefix = spec_chapters(series.drop_last());
        let idx = series.len() - 1;
        match utils::spec_parse_i64(series.last().id@) {
            Some(id) => prefix.push(
                (id, spec_chapter_title(idx + 1, series.last().name@), (idx + 1) as i64),
            ),
            None => prefix,
        }
    }
}

/// The identity triples of a chapter list.
pub open spec fn chapter_views(cs: Seq<ChapterInfo>) -> Seq<(i64, Seq<char>, i64)> {
    cs.map_values(|c: ChapterInfo| (c.chapter_id, c.chapter_title@, c.order))
}

fn build_chapter_title(order: i64, name: &str) -> (r: String)
    requires
        order >= 1,
    ensures
        r@ == spec_chapter_title(order as int, name@),
{
    let mut v: Vec<char> = Vec::new();
    v.push('第');
    let mut digits = utils::u64_to_dec_chars(order as u64);
    v.append(&mut digits);
    v.push('话');
    if !name.is_empty() {
        v.push(' ');
        let mut name_chars = utils::chars_of(name);
        v.append(&mut name_chars);
    }
    proof {
        assert(v@ =~= spec_chapter_title(order as int, name@));
    }
    utils::string_from_chars(&v)
}

/// A chapter with its download markers filled from the directory map, or
/// unchanged when the map has no entry for it.
pub open spec fn spec_marked_chapter(c: ChapterInfo, dirs: Map<i64, String>) -> ChapterInfo {
    if dirs.contains_key(c.chapter_id) {
        ChapterInfo {
            chapter_download_dir: Some(dirs[c.chapter_id]),
            is_downloaded: Some(true),
            ..c
        }
    } else {
        c
    }
}


fn clone_related_list(v: &Vec<RelatedListRespData>) -> (r: Vec<RelatedListRespData>)
    ensures
        r@ == v@,
{
    let mut r: Vec<RelatedListRespData> = Vec::new();
    let n = v.len();
    let mut i: usize = 0;
    while i < n
        invariant
            n == v@.len(),
            i <= n,
            r@ == v@.subrange(0, i as int),
        decreases n - i,
    {
        let e = &v[i];
        r.push(
            RelatedListRespData {
                id: e.id.clone(),
                author: e.author.clone(),
                name: e.name.clone(),
                image: e.image.clone(),
            },
        );
        i += 1;
        assert(r@ =~= v@.subrange(0, i as int));
    }
    assert(r@ =~= v@);
    r
}

/// One comic with its chapters, as shown to callers and stored in the
/// metadata sidecar.
#[derive(Debug, Clone)]
pub struct Comic {
    pub id: i64,
    pub name: String,
    pub addtime: String,
    pub description: String,
    pub total_views: String,
    pub likes: String,
    pub chapter_infos: Vec<ChapterInfo>,
    pub series_id: String,
    pub comment_total: String,
    pub author: Vec<String>,
    pub tags: Vec<String>,
    pub works: Vec<String>,
    pub actors: Vec<String>,
    pub related_list: Vec<RelatedListRespData>,
    pub liked: bool,
    pub is_favorite: bool,
    pub is_aids: bool,
    pub is_downloaded: Option<bool>,
    pub comic_download_dir: Option<String>,
}

impl Comic {
    /// Builds a comic from the remote response: every series entry with a
    /// numeric id becomes a chapter numbered by its position; a comic with
    /// no such entry gets a single default chapter under the comic's own
    /// id; the download-directory fields are then filled from the map of
    /// already-downloaded comics.
    pub fn from_comic_resp_data(comic: GetComicRespData, id_to_dir_map: &HashMap<i64, String>) -> (r:
        Comic)
        requires
            comic.series@.len() <= 0x7fffffffffffffff,
        ensures
            r.id == comic.id,
            r.name == comic.name,
            r.addtime == comic.addtime,
            r.description == comic.description,
            r.total_views == comic.total_views,
            r.likes == comic.likes,
            r.series_id == comic.series_id,
            r.comment_total == comic.comment_total,
            r.author == comic.author,
            r.tags == comic.tags,
            r.works == comic.works,
            r.actors == comic.actors,
            r.related_list == comic.related_list,
            r.liked == comic.liked,
            r.is_favorite == comic.is_favorite,
            r.is_aids == comic.is_aids,
            spec_chapters(comic.series@).len() > 0 ==> chapter_views(r.chapter_infos@)
                == spec_chapters(comic.series@),
            spec_chapters(comic.series@).len() == 0 ==> chapter_views(r.chapter_infos@) == seq![
                (comic.id, spec_chapter_title(1, Seq::<char>::empty()), 1i64),
            ],
            forall|i: int|
                0 <= i < r.chapter_infos@.len() ==> (#[trigger] r.chapter_infos@[i]).is_downloaded
                    is None && r.chapter_infos@[i].chapter_download_dir is None,
            id_to_dir_map@.contains_key(comic.id) ==> r.comic_download_dir == Some(
                id_to_dir_map@[comic.id],
            ) && r.is_downloaded == Some(true),
            !id_to_dir_map@.contains_key(comic.id) ==> r.comic_download_dir is None
                && r.is_downloaded is None,
    {
        let mut chapter_infos: Vec<ChapterInfo> = Vec::new();
        let n = comic.series.len();
        let mut i: usize = 0;
        while i < n
            invariant
                n == comic.series@.len(),
                n <= 0x7fffffffffffffff,
                i <= n,
                chapter_views(chapter_infos@) == spec_chapters(comic.series@.take(i as int)),
                forall|k: int|
                    0 <= k < chapter_infos@.len() ==> (#[trigger] chapter_infos@[k]).is_downloaded
                        is None && chapter_infos@[k].chapter_download_dir is None,
            decreases n - i,
        {
            let ghost pre = chapter_infos@;
            let entry = &comic.series[i];
            let order = (i + 1) as i64;
            match utils::parse_i64(entry.id.as_str()) {
                Some(chapter_id) => {
                    let chapter_title = build_chapter_title(order, entry.name.as_str());
                    let info = ChapterInfo {
                        chapter_id,
                        chapter_title,
                        order,
                        is_downloaded: None,
                        chapter_download_dir: None,
                    };
                    chapter_infos.push(info);
                },
                None => {},
            }
            proof {
                assert(comic.series@.take(i + 1).drop_last() =~= comic.series@.take(i as int));
                assert(comic.series@.take(i + 1).last() == comic.series@[i as int]);
                assert(chapter_views(chapter_infos@) =~= spec_chapters(
                    comic.series@.take(i + 1),
                ));
            }
            i += 1;
        }
        assert(comic.series@.take(n as int) =~= comic.series@);
        if chapter_infos.len() == 0 {
            let chapter_title = build_chapter_title(1, "");
            proof {
                reveal_strlit("");
            }
            chapter_infos.push(
                ChapterInfo {
                    chapter_id: comic.id,
                    chapter_title,
                    order: 1,
                    is_downloaded: None,
                    chapter_download_dir: None,
                },
            );
            proof {
                assert(chapter_views(chapter_infos@) =~= seq![
                    (comic.id, spec_chapter_title(1, Seq::<char>::empty()), 1i64),
                ]);
            }
        }
        let mut r = Comic {
            id: comic.id,
            name: comic.name,
            addtime: comic.addtime,
            description: comic.description,
            total_views: comic.total_views,
            likes: comic.likes,
            chapter_infos,
            series_id: comic.series_id,
            comment_total: comic.comment_total,
            author: comic.author,
            tags: comic.tags,
            works: comic.works,
            actors: comic.actors,
            related_list: comic.related_list,
            liked: comic.liked,
            is_favorite: comic.is_favorite,
            is_aids: comic.is_aids,
            is_downloaded: None,
            comic_download_dir: None,
        };
        r.update_fields(id_to_dir_map);
        r
    }

    /// Marks the comic as downloaded when the map of downloaded comics has
    /// its id, recording the directory; otherwise nothing changes.
    pub fn update_fields(&mut self, id_to_dir_map: &HashMap<i64, String>)
        ensures
            id_to_dir_map@.contains_key(old(self).id) ==> *final(self) == (Comic {
                comic_download_dir: Some(id_to_dir_map@[old(self).id]),
                is_downloaded: Some(true),
                ..*old(self)
            }),
            !id_to_dir_map@.contains_key(old(self).id) ==> *final(self) == *old(self),
    {
        match id_to_dir_map.get(&self.id) {
            Some(dir) => {
                self.comic_download_dir = Some(dir.clone());
                self.is_downloaded = Some(true);
            },
            None => {},
        }
    }


    /// Fills each chapter's download markers from a map of chapter ids to
    /// the directories their metadata was found in; chapters without an
    /// entry are left untouched.
    pub fn update_chapter_infos_fields(&mut self, chapter_dirs: &HashMap<i64, String>)
        ensures
            final(self).chapter_infos@.len() == old(self).chapter_infos@.len(),
            forall|i: int|
                0 <= i < old(self).chapter_infos@.len() ==> #[trigger] final(self).chapter_infos@[i]
                    == spec_marked_chapter(old(self).chapter_infos@[i], chapter_dirs@),
            *final(self) == (Comic { chapter_infos: final(self).chapter_infos, ..*old(self) }),
    {
        let ghost orig = self.chapter_infos@;
        let mut pending: Vec<ChapterInfo> = Vec::new();
        core::mem::swap(&mut pending, &mut self.chapter_infos);
        let n = pending.len();
        let mut done: Vec<ChapterInfo> = Vec::new();
        let mut i: usize = 0;
        while i < n
            invariant
                orig == old(self).chapter_infos@,
                n == orig.len(),
                pending@ == orig.skip(i as int),
                i <= n,
                done@.len() == i,
                forall|k: int|
                    0 <= k < i ==> #[trigger] done@[k] == spec_marked_chapter(
                        orig[k],
                        chapter_dirs@,
                    ),
            decreases n - i,
        {
            let mut c = pending.remove(0);
            proof {
                assert(c == orig[i as int]);
                assert(pending@ =~= orig.skip(i + 1));
            }
            match chapter_dirs.get(&c.chapter_id) {
                Some(dir) => {
                    c.chapter_download_dir = Some(dir.clone());
                    c.is_downloaded = Some(true);
                },
                None => {},
            }
            done.push(c);
            i += 1;
        }
        self.chapter_infos = done;
    }

    /// Looks a chapter up by id.
    pub fn find_chapter(&self, chapter_id: i64) -> (r: Option<&ChapterInfo>)
        ensures
            r is Some <==> exists|i: int|
                0 <= i < self.chapter_infos@.len() && (#[trigger] self.chapter_infos@[i]).chapter_id
                    == chapter_id,
            r is Some ==> r->0.chapter_id == chapter_id,
    {
        let n = self.chapter_infos.len();
        let mut i: usize = 0;
        while i < n
            invariant
                n == self.chapter_infos@.len(),
                i <= n,
                forall|k: int|
                    0 <= k < i ==> (#[trigger] self.chapter_infos@[k]).chapter_id != chapter_id,
            decreases n - i,
        {
            if self.chapter_infos[i].chapter_id == chapter_id {
                return Some(&self.chapter_infos[i]);
            }
            i += 1;
        }
        None
    }


    /// The comic as it is written to its metadata sidecar: the ephemeral
    /// download markers of the comic and of every chapter are cleared so
    /// that only identity remains.
    pub fn metadata_form(&self) -> (r: Comic)
        ensures
            r.id == self.id,
            r.name == self.name,
            r.addtime == self.addtime,
            r.description == self.description,
            r.total_views == self.total_views,
            r.likes == self.likes,
            r.series_id == self.series_id,
            r.comment_total == self.comment_total,
            r.author@ == self.author@,
            r.tags@ == self.tags@,
            r.works@ == self.works@,
            r.actors@ == self.actors@,
            r.related_list@ == self.related_list@,
            r.liked == self.liked,
            r.is_favorite == self.is_favorite,
            r.is_aids == self.is_aids,
            r.is_downloaded is None,
            r.comic_download_dir is None,
            r.chapter_infos@.len() == self.chapter_infos@.len(),
            forall|i: int|
                0 <= i < self.chapter_infos@.len() ==> {
                    let c = self.chapter_infos@[i];
                    (#[trigger] r.chapter_infos@[i]) == (ChapterInfo {
                        chapter_id: c.chapter_id,
                        chapter_title: c.chapter_title,
                        order: c.order,
                        is_downloaded: None,
                        chapter_download_dir: None,
                    })
                },
    {
        let n = self.chapter_infos.len();
        let mut chapter_infos: Vec<ChapterInfo> = Vec::new();
        let mut i: usize = 0;
        while i < n
            invariant
                n == self.chapter_infos@.len(),
                i <= n,
                chapter_infos@.len() == i,
                forall|k: int|
                    0 <= k < i ==> {
                        let c = self.chapter_infos@[k];
                        (#[trigger] chapter_infos@[k]) == (ChapterInfo {
                            chapter_id: c.chapter_id,
                            chapter_title: c.chapter_title,
                            order: c.order,
                            is_downloaded: None,
                            chapter_download_dir: None,
                        })
                    },
            decreases n - i,
        {
            chapter_infos.push(self.chapter_infos[i].metadata_form());
            i += 1;
        }
        Comic {
            id: self.id,
            name: self.name.clone(),
            addtime: self.addtime.clone(),
            description: self.description.clone(),
            total_views: self.total_views.clone(),
            likes: self.likes.clone(),
            chapter_infos,
            series_id: self.series_id.clone(),
            comment_total: self.comment_total.clone(),
            author: utils::clone_string_vec(&self.author),
            tags: utils::clone_string_vec(&self.tags),
            works: utils::clone_string_vec(&self.works),
            actors: utils::clone_string_vec(&self.actors),
            related_list: clone_related_list(&self.related_list),
            liked: self.liked,
            is_favorite: self.is_favorite,
            is_aids: self.is_aids,
            is_downloaded: None,
            comic_download_dir: None,
        }
    }

    /// The name of the comic's download directory: the final component of
    /// its path. Fails when no directory is recorded or the path has no
    /// usable final component.
    pub fn get_comic_download_dir_name(&self) -> (r: Result<String, String>)
        ensures
            self.comic_download_dir is None ==> r is Err,
            self.comic_download_dir is Some ==> match spec_dir_file_name(
                self.comic_download_dir->0@,
            ) {
                Some(name) => r is Ok && r->Ok_0@ == name,
                None => r is Err,
            },
    {
        let dir = match &self.comic_download_dir {
            Some(d) => d,
            None => {
                return Err("comic download dir is not set".to_owned());
            },
        };
        match dir_file_name(dir.as_str()) {
            Some(name) => Ok(name),
            None => Err("comic download dir has no usable name".to_owned()),
        }
    }
}

} // verus!
