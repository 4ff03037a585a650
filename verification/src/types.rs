mod archive_format;
mod chapter_info;
mod comic;
mod comic_info;
mod download_format;
mod favorite_sort;
mod get_favorite_result;
mod get_weekly_result;
mod log_level;
mod proxy_mode;
mod search_result;
mod search_sort;

pub use archive_format::ArchiveFormat;
pub use chapter_info::spec_dir_file_name;
pub use chapter_info::ChapterInfo;
pub use comic::Comic;
pub use comic_info::ComicInfo;
pub use download_format::DownloadFormat;
pub use favorite_sort::spec_favorite_sort_str;
pub use favorite_sort::FavoriteSort;
pub use get_favorite_result::ComicInFavorite;
pub use get_favorite_result::GetFavoriteResult;
pub use get_weekly_result::ComicInWeekly;
pub use get_weekly_result::GetWeeklyResult;
pub use log_level::LogLevel;
pub use proxy_mode::ProxyMode;
pub use search_result::ComicInSearch;
pub use search_result::SearchResult;
pub use search_result::SearchResultVariant;
pub use search_sort::spec_search_sort_str;
pub use search_sort::SearchSort;
