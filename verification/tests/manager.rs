use jm_downloader::{
    chapter_task_step, img_task_step, ChapterInfo, ChapterTaskStep, Comic, DownloadManager,
    DownloadTaskState, GetComicRespData, ImgTaskStep, SettleOutcome, TaskError,
};
use std::collections::HashMap;
use DownloadTaskState::{Cancelled, Completed, Downloading, Failed, Paused, Pending};

fn comic_with_chapters(ids: &[i64]) -> Comic {
    let resp = GetComicRespData {
        id: 1,
        name: "comic".to_string(),
        addtime: String::new(),
        description: String::new(),
        total_views: String::new(),
        likes: String::new(),
        series: ids
            .iter()
            .map(|id| jm_downloader::SeriesRespData {
                id: id.to_string(),
                name: String::new(),
                sort: String::new(),
            })
            .collect(),
        series_id: String::new(),
        comment_total: String::new(),
        author: vec![],
        tags: vec![],
        works: vec![],
        actors: vec![],
        related_list: vec![],
        liked: false,
        is_favorite: false,
        is_aids: false,
    };
    Comic::from_comic_resp_data(resp, &HashMap::new())
}

fn state_of(m: &DownloadManager, id: i64) -> DownloadTaskState {
    m.download_tasks.get(&id).unwrap().state
}

#[test]
fn incomplete_chapter_settles_as_failed_without_commit() {
    // five images, four succeed, one fails for good: the chapter fails and
    // the temp directory is not renamed
    let comic = comic_with_chapters(&[7]);
    let mut m = DownloadManager::new(3, 40);
    m.create_download_task(&comic, 7).unwrap();
    assert!(m.try_start_chapter(7));
    m.record_total_imgs(7, 5).unwrap();
    for _ in 0..4 {
        m.record_img_downloaded(7).unwrap();
    }
    let outcome = m.settle_chapter(7).unwrap();
    assert_eq!(outcome, SettleOutcome::Incomplete);
    assert_eq!(state_of(&m, 7), DownloadTaskState::Failed);
    assert_eq!(m.chapter_permits_free, 3);
    let task = m.download_tasks.get(&7).unwrap();
    assert_eq!(task.downloaded_img_count, 4);
    assert_eq!(task.total_img_count, 5);
}

#[test]
fn complete_chapter_settles_as_committed() {
    let comic = comic_with_chapters(&[7]);
    let mut m = DownloadManager::new(3, 40);
    m.create_download_task(&comic, 7).unwrap();
    assert!(m.try_start_chapter(7));
    m.record_total_imgs(7, 3).unwrap();
    for _ in 0..3 {
        m.record_img_downloaded(7).unwrap();
    }
    assert_eq!(m.settle_chapter(7).unwrap(), SettleOutcome::Commit);
    // the task keeps running until the rename's result is recorded
    assert_eq!(state_of(&m, 7), DownloadTaskState::Downloading);
    assert_eq!(m.chapter_permits_free, 2);
    m.complete_chapter(7).unwrap();
    assert_eq!(state_of(&m, 7), DownloadTaskState::Completed);
    // the finished task released its permit
    assert_eq!(m.chapter_permits_free, 3);
}

#[test]
fn failed_commit_is_recorded_as_failed() {
    // the rename of the temp directory failed after a clean settle: the
    // edge reports it and the chapter ends failed, not completed
    let comic = comic_with_chapters(&[7]);
    let mut m = DownloadManager::new(3, 40);
    m.create_download_task(&comic, 7).unwrap();
    assert!(m.try_start_chapter(7));
    m.record_total_imgs(7, 1).unwrap();
    m.record_img_downloaded(7).unwrap();
    assert_eq!(m.settle_chapter(7).unwrap(), SettleOutcome::Commit);
    m.fail_chapter(7).unwrap();
    assert_eq!(state_of(&m, 7), DownloadTaskState::Failed);
    assert_eq!(m.chapter_permits_free, 3);
}

#[test]
fn incomplete_chapter_cannot_be_completed() {
    let comic = comic_with_chapters(&[7]);
    let mut m = DownloadManager::new(3, 40);
    m.create_download_task(&comic, 7).unwrap();
    assert!(m.try_start_chapter(7));
    m.record_total_imgs(7, 2).unwrap();
    m.record_img_downloaded(7).unwrap();
    assert_eq!(m.complete_chapter(7), Err(TaskError::IncompleteChapter));
    assert_eq!(state_of(&m, 7), DownloadTaskState::Downloading);
}

#[test]
fn duplicate_submission_conflicts_until_terminal() {
    let comic = comic_with_chapters(&[5]);
    let mut m = DownloadManager::new(3, 40);
    m.create_download_task(&comic, 5).unwrap();
    // a second submission while the first is pending is rejected
    assert_eq!(
        m.create_download_task(&comic, 5),
        Err(TaskError::ConflictError)
    );
    assert!(m.try_start_chapter(5));
    // and while it is downloading
    assert_eq!(
        m.create_download_task(&comic, 5),
        Err(TaskError::ConflictError)
    );
    m.record_total_imgs(5, 0).unwrap();
    assert_eq!(m.settle_chapter(5).unwrap(), SettleOutcome::Commit);
    m.complete_chapter(5).unwrap();
    // after the first reaches a terminal state, submitting again succeeds
    assert_eq!(m.create_download_task(&comic, 5), Ok(()));
    assert_eq!(state_of(&m, 5), DownloadTaskState::Pending);
}

#[test]
fn unknown_chapter_is_rejected() {
    let comic = comic_with_chapters(&[5]);
    let mut m = DownloadManager::new(3, 40);
    assert_eq!(
        m.create_download_task(&comic, 999),
        Err(TaskError::UnknownChapter)
    );
}

#[test]
fn missing_task_operations_report_not_found() {
    let mut m = DownloadManager::new(3, 40);
    assert_eq!(m.pause_download_task(1), Err(TaskError::NotFoundError));
    assert_eq!(m.resume_download_task(1), Err(TaskError::NotFoundError));
    assert_eq!(m.cancel_download_task(1), Err(TaskError::NotFoundError));
    assert_eq!(
        m.settle_chapter(1),
        Err::<SettleOutcome, _>(TaskError::NotFoundError)
    );
}

#[test]
fn pausing_releases_the_chapter_permit_at_once() {
    // with a concurrency of three, pausing one of three downloading
    // chapters immediately lets a fourth start
    let comic = comic_with_chapters(&[1, 2, 3, 4]);
    let mut m = DownloadManager::new(3, 40);
    for id in [1, 2, 3, 4] {
        m.create_download_task(&comic, id).unwrap();
    }
    assert!(m.try_start_chapter(1));
    assert!(m.try_start_chapter(2));
    assert!(m.try_start_chapter(3));
    // all permits are taken; the fourth chapter cannot start
    assert_eq!(m.chapter_permits_free, 0);
    assert!(!m.try_start_chapter(4));
    m.pause_download_task(2).unwrap();
    assert_eq!(state_of(&m, 2), DownloadTaskState::Paused);
    assert_eq!(m.chapter_permits_free, 1);
    assert!(m.try_start_chapter(4));
}

#[test]
fn resuming_requeues_without_a_permit() {
    let comic = comic_with_chapters(&[1]);
    let mut m = DownloadManager::new(3, 40);
    m.create_download_task(&comic, 1).unwrap();
    assert!(m.try_start_chapter(1));
    m.pause_download_task(1).unwrap();
    m.resume_download_task(1).unwrap();
    // the task re-enters the queue and must re-acquire a permit
    assert_eq!(state_of(&m, 1), DownloadTaskState::Pending);
    assert!(!m.download_tasks.get(&1).unwrap().holds_chapter_permit);
    assert_eq!(m.chapter_permits_free, 3);
    assert!(m.try_start_chapter(1));
    assert_eq!(m.chapter_permits_free, 2);
}

#[test]
fn cancelling_is_terminal_and_releases_the_permit() {
    let comic = comic_with_chapters(&[1]);
    let mut m = DownloadManager::new(3, 40);
    m.create_download_task(&comic, 1).unwrap();
    assert!(m.try_start_chapter(1));
    m.cancel_download_task(1).unwrap();
    assert_eq!(state_of(&m, 1), DownloadTaskState::Cancelled);
    assert_eq!(m.chapter_permits_free, 3);
    // a cancelled task does not block a new submission
    assert_eq!(m.create_download_task(&comic, 1), Ok(()));
}

#[test]
fn image_permits_are_conserved() {
    let mut m = DownloadManager::new(3, 2);
    assert!(m.try_acquire_img_permit());
    assert!(m.try_acquire_img_permit());
    assert!(!m.try_acquire_img_permit());
    m.release_img_permit();
    assert!(m.try_acquire_img_permit());
    assert_eq!(m.img_permits_free, 0);
    assert_eq!(m.img_permits_in_use, 2);
}

#[test]
fn byte_counter_accumulates_and_resets() {
    let mut m = DownloadManager::new(3, 40);
    m.record_bytes(1024);
    m.record_bytes(2048);
    assert_eq!(m.take_byte_per_sec(), 3072);
    assert_eq!(m.take_byte_per_sec(), 0);
}

#[test]
fn chapter_step_decision_table() {
    assert_eq!(chapter_task_step(Pending, false), ChapterTaskStep::AcquirePermit);
    assert_eq!(chapter_task_step(Downloading, true), ChapterTaskStep::RunDownload);
    assert_eq!(chapter_task_step(Downloading, false), ChapterTaskStep::Wait);
    assert_eq!(chapter_task_step(Paused, false), ChapterTaskStep::Wait);
    assert_eq!(chapter_task_step(Cancelled, true), ChapterTaskStep::Abort);
    assert_eq!(chapter_task_step(Completed, false), ChapterTaskStep::Finished);
    assert_eq!(chapter_task_step(Failed, false), ChapterTaskStep::Finished);
}

#[test]
fn img_step_decision_table() {
    assert_eq!(img_task_step(Downloading, false, false), ImgTaskStep::AcquirePermit);
    assert_eq!(img_task_step(Downloading, true, true), ImgTaskStep::SkipExisting);
    assert_eq!(img_task_step(Downloading, false, true), ImgTaskStep::DownloadBytes);
    assert_eq!(img_task_step(Paused, false, true), ImgTaskStep::Wait);
    assert_eq!(img_task_step(Pending, false, false), ImgTaskStep::Wait);
    assert_eq!(img_task_step(Cancelled, false, true), ImgTaskStep::Abort);
}

#[test]
fn update_events_report_the_task_counters() {
    let comic = comic_with_chapters(&[4]);
    let mut m = DownloadManager::new(3, 40);
    assert!(m.download_task_update_event(4).is_none());
    m.create_download_task(&comic, 4).unwrap();
    assert!(m.try_start_chapter(4));
    m.record_total_imgs(4, 2).unwrap();
    m.record_img_downloaded(4).unwrap();
    match m.download_task_update_event(4) {
        Some(jm_downloader::DownloadTaskEvent::Update {
            chapter_id,
            state,
            downloaded_img_count,
            total_img_count,
        }) => {
            assert_eq!(chapter_id, 4);
            assert_eq!(state, Downloading);
            assert_eq!(downloaded_img_count, 1);
            assert_eq!(total_img_count, 2);
        }
        _ => panic!("expected an update event"),
    }
}
