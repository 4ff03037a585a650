use vstd::prelude::*;

use crate::download_manager::DownloadTaskState;
use crate::types::ChapterInfo;
use crate::types::Comic;

verus! {

/// Aggregate download throughput, already formatted for display.
#[derive(Debug, Clone)]
pub struct DownloadSpeedEvent {
    pub speed: String,
}

/// A chapter task waiting out the configured inter-chapter delay.
#[derive(Debug, Clone, Copy, PartialEq, Eq, Structural)]
pub struct DownloadSleepingEvent {
    pub id: i64,
    pub remaining_sec: u64,
}

/// Progress of one chapter download task, as the progress sink sees it.
#[derive(Debug, Clone)]
pub enum DownloadTaskEvent {
    Create {
        state: DownloadTaskState,
        comic: Box<Comic>,
        chapter_info: Box<ChapterInfo>,
        downloaded_img_count: u32,
        total_img_count: u32,
    },
    Update {
        chapter_id: i64,
        state: DownloadTaskState,
        downloaded_img_count: u32,
        total_img_count: u32,
    },
}

/// Progress of downloading every favorite comic in one sweep.
#[derive(Debug, Clone)]
pub enum DownloadAllFavoritesEvent {
    GetFavoritesStart,
    GetComicsProgress { current: i64, total: i64 },
    StartCreateDownloadTasks { comic_id: i64, comic_title: String, current: i64, total: i64 },
    CreatingDownloadTask { comic_id: i64, current: i64 },
    EndCreateDownloadTasks { comic_id: i64 },
    GetComicsEnd,
}

/// Progress of refreshing the already-downloaded comics.
#[derive(Debug, Clone)]
pub enum UpdateDownloadedComicsEvent {
    GetComicStart { total: i64 },
    GetComicProgress { current: i64, total: i64 },
    CreateDownloadTasksStart { comic_id: i64, comic_title: String, current: i64, total: i64 },
    CreateDownloadTaskProgress { comic_id: i64, current: i64 },
    CreateDownloadTasksEnd { comic_id: i64 },
    GetComicEnd,
}

/// Progress of exporting a chapter as an image archive.
#[derive(Debug, Clone)]
pub enum ExportCbzEvent {
    Start { uuid: String, comic_title: String, total: u32 },
    Progress { uuid: String, current: u32 },
    Error { uuid: String },
    End { uuid: String, chapter_export_dir: String },
}

/// Progress of exporting a chapter as a document, page creation and merge.
#[derive(Debug, Clone)]
pub enum ExportPdfEvent {
    CreateStart { uuid: String, comic_title: String, total: u32 },
    CreateProgress { uuid: String, current: u32 },
    CreateError { uuid: String },
    CreateEnd { uuid: String, chapter_export_dir: String },
    MergeStart { uuid: String, comic_title: String },
    MergeError { uuid: String },
    MergeEnd { uuid: String, chapter_export_dir: String },
}

} // verus!
