use jm_downloader::{
    string_to_i64, ApiDomainMode, ArchiveFormat, ChapterInfo, Comic, ComicInFavoriteRespData,
    ComicInSearchRespData, ComicInWeeklyRespData, ComicInfo, CommandError, Config, DownloadFormat,
    FavoriteSort, GetComicRespData, GetFavoriteRespData, GetFavoriteResult, GetWeeklyRespData,
    GetWeeklyResult, ProxyMode, SearchRespData, SearchResult, SearchSort, SeriesRespData,
};
use std::collections::HashMap;

fn comic_resp(id: i64, series: Vec<SeriesRespData>) -> GetComicRespData {
    GetComicRespData {
        id,
        name: "name".to_string(),
        addtime: String::new(),
        description: "desc".to_string(),
        total_views: String::new(),
        likes: String::new(),
        series,
        series_id: String::new(),
        comment_total: String::new(),
        author: vec!["a".to_string(), "b".to_string()],
        tags: vec!["t1".to_string(), "t2".to_string(), "t3".to_string()],
        works: vec![],
        actors: vec![],
        related_list: vec![],
        liked: false,
        is_favorite: false,
        is_aids: false,
    }
}

fn series(id: &str, name: &str) -> SeriesRespData {
    SeriesRespData {
        id: id.to_string(),
        name: name.to_string(),
        sort: String::new(),
    }
}

#[test]
fn lenient_number_parsing_defaults_to_zero() {
    assert_eq!(string_to_i64("42"), 42);
    assert_eq!(string_to_i64("-5"), -5);
    assert_eq!(string_to_i64("+7"), 7);
    assert_eq!(string_to_i64("abc"), 0);
    assert_eq!(string_to_i64(""), 0);
    assert_eq!(string_to_i64("99999999999999999999999"), 0);
    assert_eq!(string_to_i64("9223372036854775807"), i64::MAX);
    assert_eq!(string_to_i64("-9223372036854775808"), i64::MIN);
    assert_eq!(string_to_i64("9223372036854775808"), 0);
}

#[test]
fn chapters_are_numbered_by_series_position() {
    let resp = comic_resp(
        9,
        vec![series("100", ""), series("oops", "x"), series("200", "xx")],
    );
    let comic = Comic::from_comic_resp_data(resp, &HashMap::new());
    let views: Vec<(i64, String, i64)> = comic
        .chapter_infos
        .iter()
        .map(|c| (c.chapter_id, c.chapter_title.clone(), c.order))
        .collect();
    assert_eq!(
        views,
        vec![
            (100, "第1话".to_string(), 1),
            (200, "第3话 xx".to_string(), 3),
        ]
    );
    assert!(comic.is_downloaded.is_none());
    assert!(comic.comic_download_dir.is_none());
}

#[test]
fn comic_without_parseable_series_gets_a_default_chapter() {
    let resp = comic_resp(77, vec![series("nope", "")]);
    let comic = Comic::from_comic_resp_data(resp, &HashMap::new());
    assert_eq!(comic.chapter_infos.len(), 1);
    assert_eq!(comic.chapter_infos[0].chapter_id, 77);
    assert_eq!(comic.chapter_infos[0].chapter_title, "第1话");
    assert_eq!(comic.chapter_infos[0].order, 1);
}

#[test]
fn downloaded_comics_are_marked_from_the_directory_map() {
    let mut dirs = HashMap::new();
    dirs.insert(9i64, "/downloads/name".to_string());
    let comic = Comic::from_comic_resp_data(comic_resp(9, vec![]), &dirs);
    assert_eq!(comic.is_downloaded, Some(true));
    assert_eq!(comic.comic_download_dir.as_deref(), Some("/downloads/name"));
    assert_eq!(comic.get_comic_download_dir_name().unwrap(), "name");
}

#[test]
fn chapter_download_dir_name_is_the_final_component() {
    let info = ChapterInfo {
        chapter_id: 1,
        chapter_title: String::new(),
        order: 1,
        is_downloaded: Some(true),
        chapter_download_dir: Some("/a/b/第1话".to_string()),
    };
    assert_eq!(info.get_chapter_download_dir_name().unwrap(), "第1话");

    let trailing = ChapterInfo {
        chapter_download_dir: Some("/a/b/c///".to_string()),
        ..info.clone()
    };
    assert_eq!(trailing.get_chapter_download_dir_name().unwrap(), "c");

    let unset = ChapterInfo {
        chapter_download_dir: None,
        ..info.clone()
    };
    assert!(unset.get_chapter_download_dir_name().is_err());

    let parent = ChapterInfo {
        chapter_download_dir: Some("/a/..".to_string()),
        ..info
    };
    assert!(parent.get_chapter_download_dir_name().is_err());
}

#[test]
fn comic_info_sidecar_is_filled_from_the_comic() {
    let comic = Comic::from_comic_resp_data(
        comic_resp(9, vec![series("100", ""), series("200", "xx")]),
        &HashMap::new(),
    );
    let info = ComicInfo::from(&comic, &comic.chapter_infos[1]);
    assert_eq!(info.manga, "Yes");
    assert_eq!(info.publisher, "禁漫天堂");
    assert_eq!(info.series, "name");
    assert_eq!(info.writer, "a, b");
    assert_eq!(info.tags, "t1, t2, t3");
    assert_eq!(info.summary, "desc");
    assert_eq!(info.title, "第2话 xx");
    assert_eq!(info.number.as_deref(), Some("2"));
    assert_eq!(info.count, 2);
}

#[test]
fn search_results_parse_ids_and_mark_downloads() {
    let mut dirs = HashMap::new();
    dirs.insert(11i64, "/d/one".to_string());
    let resp = SearchRespData {
        search_query: "q".to_string(),
        total: 2,
        content: vec![
            ComicInSearchRespData {
                id: "11".to_string(),
                author: String::new(),
                name: String::new(),
                image: String::new(),
                category: jm_downloader_category(),
                category_sub: jm_downloader_category_sub(),
                liked: false,
                is_favorite: false,
                update_at: 0,
            },
            ComicInSearchRespData {
                id: "12".to_string(),
                author: String::new(),
                name: String::new(),
                image: String::new(),
                category: jm_downloader_category(),
                category_sub: jm_downloader_category_sub(),
                liked: false,
                is_favorite: false,
                update_at: 0,
            },
        ],
    };
    let result = SearchResult::from_resp_data(resp, &dirs).unwrap();
    assert_eq!(result.content.len(), 2);
    assert!(result.content[0].is_downloaded);
    assert_eq!(result.content[0].comic_download_dir, "/d/one");
    assert!(!result.content[1].is_downloaded);
}

fn jm_downloader_category() -> jm_downloader::CategoryRespData {
    jm_downloader::CategoryRespData {
        id: None,
        title: None,
    }
}

fn jm_downloader_category_sub() -> jm_downloader::CategorySubRespData {
    jm_downloader::CategorySubRespData {
        id: None,
        title: None,
    }
}

#[test]
fn search_results_reject_non_numeric_ids() {
    let resp = SearchRespData {
        search_query: String::new(),
        total: 1,
        content: vec![ComicInSearchRespData {
            id: "xx".to_string(),
            author: String::new(),
            name: String::new(),
            image: String::new(),
            category: jm_downloader_category(),
            category_sub: jm_downloader_category_sub(),
            liked: false,
            is_favorite: false,
            update_at: 0,
        }],
    };
    assert!(SearchResult::from_resp_data(resp, &HashMap::new()).is_err());
}

#[test]
fn sort_orders_name_their_query_values() {
    assert_eq!(SearchSort::Latest.as_str(), "mr");
    assert_eq!(SearchSort::View.as_str(), "mv");
    assert_eq!(SearchSort::Picture.as_str(), "mp");
    assert_eq!(SearchSort::Like.as_str(), "tf");
    assert_eq!(FavoriteSort::FavoriteTime.as_str(), "mr");
    assert_eq!(FavoriteSort::UpdateTime.as_str(), "mp");
}

#[test]
fn formats_name_their_extensions() {
    assert_eq!(DownloadFormat::Jpeg.extension(), "jpg");
    assert_eq!(DownloadFormat::Png.extension(), "png");
    assert_eq!(DownloadFormat::Webp.extension(), "webp");
    assert_eq!(DownloadFormat::default(), DownloadFormat::Jpeg);
    assert_eq!(ArchiveFormat::Image.extension(), "");
    assert_eq!(ArchiveFormat::Pdf.extension(), "pdf");
}

#[test]
fn default_config_matches_a_fresh_installation() {
    let c = Config::default("/data");
    assert_eq!(c.download_dir, "/data/漫画下载");
    assert_eq!(c.export_dir, "/data/漫画导出");
    assert_eq!(c.download_format, DownloadFormat::Jpeg);
    assert_eq!(c.dir_fmt, "{comic_title}/{chapter_title}");
    assert_eq!(c.proxy_mode, ProxyMode::System);
    assert_eq!(c.proxy_host, "127.0.0.1");
    assert_eq!(c.proxy_port, 7890);
    assert!(c.enable_file_logger);
    assert_eq!(c.chapter_concurrency, 3);
    assert_eq!(c.img_concurrency, 20);
    assert_eq!(c.api_domain_mode, ApiDomainMode::Domain2);
}

#[test]
fn api_domain_follows_the_configured_mode() {
    let mut c = Config::default("/data");
    assert_eq!(c.get_api_domain(), "www.cdnhth.cc");
    c.api_domain_mode = ApiDomainMode::Domain5;
    assert_eq!(c.get_api_domain(), "www.cdn-mspjmapiproxy.xyz");
    c.api_domain_mode = ApiDomainMode::Custom;
    c.custom_api_domain = "example.invalid".to_string();
    assert_eq!(c.get_api_domain(), "example.invalid");
}

#[test]
fn command_errors_carry_title_and_message() {
    let e = CommandError::from("failed", "0: boom".to_string());
    assert_eq!(e.err_title, "failed");
    assert_eq!(e.err_message, "0: boom");
}

#[test]
fn favorite_listing_parses_its_total() {
    let entry = ComicInFavoriteRespData {
        id: "11".to_string(),
        author: String::new(),
        description: None,
        name: String::new(),
        latest_ep: None,
        latest_ep_aid: None,
        image: String::new(),
        category: jm_downloader_category(),
        category_sub: jm_downloader_category_sub(),
    };
    let resp = GetFavoriteRespData {
        list: vec![entry.clone()],
        folder_list: vec![],
        total: "17".to_string(),
        count: 1,
    };
    let ok = GetFavoriteResult::from_resp_data(resp, &HashMap::new()).unwrap();
    assert_eq!(ok.total, 17);
    assert_eq!(ok.list.len(), 1);
    assert_eq!(ok.list[0].id, 11);

    let bad = GetFavoriteRespData {
        list: vec![entry],
        folder_list: vec![],
        total: "many".to_string(),
        count: 1,
    };
    assert!(GetFavoriteResult::from_resp_data(bad, &HashMap::new()).is_err());
}

#[test]
fn weekly_listing_marks_downloads() {
    let mut dirs = HashMap::new();
    dirs.insert(3i64, "/d/three".to_string());
    let resp = GetWeeklyRespData {
        total: 1,
        list: vec![ComicInWeeklyRespData {
            id: 3,
            author: String::new(),
            description: String::new(),
            name: String::new(),
            image: String::new(),
            category: jm_downloader_category(),
            category_sub: jm_downloader_category_sub(),
            liked: false,
            is_favorite: false,
            update_at: 0,
        }],
    };
    let r = GetWeeklyResult::from_resp_data(resp, &dirs);
    assert_eq!(r.total, 1);
    assert!(r.list[0].is_downloaded);
    assert_eq!(r.list[0].comic_download_dir, "/d/three");
}

#[test]
fn chapter_markers_follow_the_chapter_directory_map() {
    let mut comic = Comic::from_comic_resp_data(
        comic_resp(9, vec![series("100", ""), series("200", "xx")]),
        &HashMap::new(),
    );
    let mut dirs = HashMap::new();
    dirs.insert(200i64, "/d/c/第2话 xx".to_string());
    comic.update_chapter_infos_fields(&dirs);
    assert!(comic.chapter_infos[0].is_downloaded.is_none());
    assert!(comic.chapter_infos[0].chapter_download_dir.is_none());
    assert_eq!(comic.chapter_infos[1].is_downloaded, Some(true));
    assert_eq!(
        comic.chapter_infos[1].chapter_download_dir.as_deref(),
        Some("/d/c/第2话 xx")
    );
}

#[test]
fn metadata_forms_clear_the_ephemeral_markers() {
    let mut dirs = HashMap::new();
    dirs.insert(9i64, "/d/name".to_string());
    let mut comic = Comic::from_comic_resp_data(
        comic_resp(9, vec![series("100", "x")]),
        &dirs,
    );
    let mut chapter_dirs = HashMap::new();
    chapter_dirs.insert(100i64, "/d/name/第1话 x".to_string());
    comic.update_chapter_infos_fields(&chapter_dirs);
    assert_eq!(comic.chapter_infos[0].is_downloaded, Some(true));

    let form = comic.metadata_form();
    assert!(form.is_downloaded.is_none());
    assert!(form.comic_download_dir.is_none());
    assert_eq!(form.name, "name");
    assert_eq!(form.chapter_infos.len(), 1);
    assert!(form.chapter_infos[0].is_downloaded.is_none());
    assert!(form.chapter_infos[0].chapter_download_dir.is_none());
    assert_eq!(form.chapter_infos[0].chapter_title, "第1话 x");

    let chapter_form = comic.chapter_infos[0].metadata_form();
    assert_eq!(chapter_form.chapter_id, 100);
    assert!(chapter_form.chapter_download_dir.is_none());
}
