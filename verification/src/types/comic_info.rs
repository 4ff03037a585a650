use vstd::prelude::*;

use crate::types::chapter_info::ChapterInfo;
use crate::types::comic::Comic;
use crate::utils;

verus! {

/// The chapter metadata sidecar in the shape comic readers expect: series
/// and chapter titles, authorship, and the chapter count that tells an
/// ongoing series from a finished one.
#[derive(Debug, Clone)]
pub struct ComicInfo {
    pub manga: String,
    pub series: String,
    pub publisher: String,
    pub writer: String,
    pub tags: String,
    pub summary: String,
    pub title: String,
    pub number: Option<String>,
    pub count: i64,
}

impl ComicInfo {
    /// Fills the sidecar from a comic and one of its chapters: the writers
    /// and tags joined with commas, the chapter's position as its number,
    /// and the total chapter count.
    pub fn from(comic: &Comic, chapter_info: &ChapterInfo) -> (r: ComicInfo)
        requires
            comic.chapter_infos@.len() <= 0x7fffffffffffffff,
        ensures
            r.manga@ == "Yes"@,
            r.publisher@ == "禁漫天堂"@,
            r.series == comic.name,
            r.writer@ == utils::spec_join(comic.author@.map_values(|s: String| s@), ", "@),
            r.tags@ == utils::spec_join(comic.tags@.map_values(|s: String| s@), ", "@),
            r.summary == comic.description,
            r.title == chapter_info.chapter_title,
            r.number is Some && r.number->0@ == utils::spec_i64_dec_chars(
                chapter_info.order as int,
            ),
            r.count == comic.chapter_infos@.len(),
    {
        let number = Some(utils::i64_to_dec_string(chapter_info.order));
        let count = comic.chapter_infos.len() as i64;
        ComicInfo {
            manga: "Yes".to_owned(),
            series: comic.name.clone(),
            publisher: "禁漫天堂".to_owned(),
            writer: utils::join_strings(&comic.author, ", "),
            tags: utils::join_strings(&comic.tags, ", "),
            summary: comic.description.clone(),
            title: chapter_info.chapter_title.clone(),
            number,
            count,
        }
    }
}

} // verus!
