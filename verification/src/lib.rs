use vstd::prelude::*;

mod config;
mod download_manager;
mod errors;
mod events;
mod jm_client;
mod responses;
mod types;
mod utils;

pub use config::ApiDomainMode;
pub use config::Config;
pub use download_manager::calculate_block_num;
pub use download_manager::stitch_img;
pub use download_manager::DownloadManager;
pub use download_manager::DownloadTask;
pub use download_manager::DownloadTaskState;
pub use download_manager::Pixel;
pub use download_manager::RgbImage;
pub use download_manager::SettleOutcome;
pub use download_manager::IMAGE_DOMAIN;
pub use errors::ClientError;
pub use errors::CommandError;
pub use errors::CryptoError;
pub use errors::TaskError;
pub use events::DownloadAllFavoritesEvent;
pub use events::DownloadSleepingEvent;
pub use events::DownloadSpeedEvent;
pub use events::DownloadTaskEvent;
pub use events::ExportCbzEvent;
pub use events::ExportPdfEvent;
pub use events::UpdateDownloadedComicsEvent;
pub use errors::ImageError;
pub use download_manager::chapter_task_step;
pub use download_manager::get_urls_with_block_num;
pub use download_manager::img_task_step;
pub use download_manager::img_save_name;
pub use download_manager::process_img;
pub use download_manager::ChapterTaskStep;
pub use download_manager::DownloadImgTask;
pub use download_manager::ImgTaskStep;
pub use jm_client::chapter_query;
pub use jm_client::comic_query;
pub use jm_client::favorite_query;
pub use jm_client::login_form;
pub use jm_client::scramble_query;
pub use jm_client::search_query;
pub use jm_client::toggle_favorite_form;
pub use jm_client::build_api_url;
pub use jm_client::build_auth;
pub use jm_client::decrypt_data;
pub use jm_client::envelope_of;
pub use jm_client::redirect_aid_of;
pub use jm_client::ENVELOPE_OK;
pub use jm_client::HTTP_OK;
pub use jm_client::decrypt_with_key;
pub use jm_client::encrypt_with_key;
pub use jm_client::extract_envelope;
pub use jm_client::extract_redirect_aid;
pub use jm_client::img_fetch_needs_retry;
pub use jm_client::parse_scramble_id;
pub use jm_client::process_response;
pub use jm_client::rewrite_user_photo;
pub use jm_client::search_outcome;
pub use jm_client::tokenparam;
pub use jm_client::unwrap_envelope;
pub use jm_client::SearchOutcome;
pub use responses::string_to_i64;
pub use responses::RedirectRespData;
pub use responses::SeriesRespData;
pub use jm_client::encrypt_data;
pub use jm_client::sign;
pub use jm_client::ApiPath;
pub use responses::CategoryInWeeklyInfo;
pub use responses::CategoryRespData;
pub use responses::CategorySubRespData;
pub use responses::ComicInFavoriteRespData;
pub use responses::ComicInSearchRespData;
pub use responses::FavoriteFolderRespData;
pub use responses::ComicInWeeklyRespData;
pub use responses::GetChapterRespData;
pub use responses::GetComicRespData;
pub use responses::GetFavoriteRespData;
pub use responses::GetUserProfileRespData;
pub use responses::GetWeeklyInfoRespData;
pub use responses::GetWeeklyRespData;
pub use responses::JmResp;
pub use responses::SearchResp;
pub use responses::SearchRespData;
pub use responses::ToggleFavoriteRespData;
pub use responses::WeeklyType;
pub use types::ArchiveFormat;
pub use types::ChapterInfo;
pub use types::Comic;
pub use types::ComicInFavorite;
pub use types::ComicInSearch;
pub use types::ComicInWeekly;
pub use types::ComicInfo;
pub use types::DownloadFormat;
pub use types::FavoriteSort;
pub use types::GetFavoriteResult;
pub use types::GetWeeklyResult;
pub use types::LogLevel;
pub use types::ProxyMode;
pub use types::SearchResult;
pub use types::SearchResultVariant;
pub use types::SearchSort;
pub use utils::filename_filter;
pub use utils::md5_hex;

verus! {

} // verus!
