use vstd::prelude::*;

use crate::utils;

verus! {

/// The decrypted wire envelope: `code` is the success signal, `data` holds
/// the encrypted payload text, `error_msg` explains a failure.
#[derive(Debug, Clone)]
pub struct JmResp {
    pub code: i64,
    pub data: String,
    pub error_msg: String,
}

#[derive(Debug, Clone)]
pub struct SeriesRespData {
    pub id: String,
    pub name: String,
    pub sort: String,
}

#[derive(Debug, Clone)]
pub struct CategoryRespData {
    pub id: Option<String>,
    pub title: Option<String>,
}

#[derive(Debug, Clone)]
pub struct CategorySubRespData {
    pub id: Option<String>,
    pub title: Option<String>,
}

#[derive(Debug, Clone)]
pub struct GetChapterRespData {
    pub id: i64,
    pub series: Vec<SeriesRespData>,
    pub tags: String,
    pub name: String,
    pub images: Vec<String>,
    pub addtime: String,
    pub series_id: String,
    pub is_favorite: bool,
    pub liked: bool,
}

#[derive(Debug, Clone)]
pub struct RelatedListRespData {
    pub id: String,
    pub author: String,
    pub name: String,
    pub image: String,
}

#[derive(Debug, Clone)]
pub struct GetComicRespData {
    pub id: i64,
    pub name: String,
    pub addtime: String,
    pub description: String,
    pub total_views: String,
    pub likes: String,
    pub series: Vec<SeriesRespData>,
    pub series_id: String,
    pub comment_total: String,
    pub author: Vec<String>,
    pub tags: Vec<String>,
    pub works: Vec<String>,
    pub actors: Vec<String>,
    pub related_list: Vec<RelatedListRespData>,
    pub liked: bool,
    pub is_favorite: bool,
    pub is_aids: bool,
}

#[derive(Debug, Clone)]
pub struct RedirectRespData {
    pub search_query: String,
    pub total: i64,
    pub redirect_aid: String,
}

#[derive(Debug, Clone)]
pub struct ComicInSearchRespData {
    pub id: String,
    pub author: String,
    pub name: String,
    pub image: String,
    pub category: CategoryRespData,
    pub category_sub: CategorySubRespData,
    pub liked: bool,
    pub is_favorite: bool,
    pub update_at: i64,
}

#[derive(Debug, Clone)]
pub struct SearchRespData {
    pub search_query: String,
    pub total: i64,
    pub content: Vec<ComicInSearchRespData>,
}

/// A search either returns a result list or, for a single unambiguous
/// match, the full comic that the remote redirected to.
#[derive(Debug, Clone)]
pub enum SearchResp {
    SearchRespData(SearchRespData),
    ComicRespData(Box<GetComicRespData>),
}

#[derive(Debug, Clone)]
pub struct GetUserProfileRespData {
    pub uid: String,
    pub username: String,
    pub email: String,
    pub photo: String,
    pub fname: String,
    pub gender: String,
    pub message: Option<String>,
    pub coin: i64,
    pub album_favorites: i64,
    pub s: String,
    pub level_name: String,
    pub level: i64,
    pub next_level_exp: i64,
    pub exp: String,
    pub album_favorites_max: i64,
    pub ad_free: bool,
    pub charge: String,
    pub jar: String,
    pub invitation_qrcode: String,
    pub invitation_url: String,
    pub invited_cnt: String,
}

#[derive(Debug, Clone, Copy, PartialEq, Eq, Structural)]
pub enum ToggleType {
    Add,
    Remove,
}

#[derive(Debug, Clone)]
pub struct ToggleFavoriteRespData {
    pub status: String,
    pub msg: String,
    pub toggle_type: ToggleType,
}

#[derive(Debug, Clone)]
pub struct ComicInFavoriteRespData {
    pub id: String,
    pub author: String,
    pub description: Option<String>,
    pub name: String,
    pub latest_ep: Option<String>,
    pub latest_ep_aid: Option<String>,
    pub image: String,
    pub category: CategoryRespData,
    pub category_sub: CategorySubRespData,
}

#[derive(Debug, Clone)]
pub struct FavoriteFolderRespData {
    pub fid: String,
    pub uid: String,
    pub name: String,
}

#[derive(Debug, Clone)]
pub struct GetFavoriteRespData {
    pub list: Vec<ComicInFavoriteRespData>,
    pub folder_list: Vec<FavoriteFolderRespData>,
    pub total: String,
    pub count: i64,
}

#[derive(Debug, Clone)]
pub struct ComicInWeeklyRespData {
    pub id: i64,
    pub author: String,
    pub description: String,
    pub name: String,
    pub image: String,
    pub category: CategoryRespData,
    pub category_sub: CategorySubRespData,
    pub liked: bool,
    pub is_favorite: bool,
    pub update_at: i64,
}

#[derive(Debug, Clone)]
pub struct GetWeeklyRespData {
    pub total: i64,
    pub list: Vec<ComicInWeeklyRespData>,
}

#[derive(Debug, Clone)]
pub struct CategoryInWeeklyInfo {
    pub id: String,
    pub title: String,
    pub time: String,
}

#[derive(Debug, Clone)]
pub struct WeeklyType {
    pub id: String,
    pub title: String,
}

#[derive(Debug, Clone)]
pub struct GetWeeklyInfoRespData {
    pub categories: Vec<CategoryInWeeklyInfo>,
    pub type_field: Vec<WeeklyType>,
}

/// Reads a numeric field that the remote sometimes sends as text: a value
/// that does not parse counts as zero.
pub fn string_to_i64(s: &str) -> (r: i64)
    ensures
        r == match utils::spec_parse_i64(s@) {
            Some(v) => v,
            None => 0,
        },
{
    match utils::parse_i64(s) {
        Some(v) => v,
        None => 0,
    }
}

} // verus!
