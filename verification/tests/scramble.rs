use jm_downloader::{calculate_block_num, filename_filter, img_save_name, parse_scramble_id, DownloadFormat};

#[test]
fn block_num_is_zero_below_scramble_id() {
    assert_eq!(calculate_block_num(1000, 500, "00001"), 0);
    assert_eq!(calculate_block_num(220980, 220979, "x"), 0);
    assert_eq!(calculate_block_num(i64::MAX, 12345, "y"), 0);
}

#[test]
fn block_num_is_ten_in_legacy_band() {
    assert_eq!(calculate_block_num(1000, 12345, "00001"), 10);
    assert_eq!(calculate_block_num(1000, 268849, "00001"), 10);
}

#[test]
fn block_num_matches_digest_formula_mod_ten() {
    // ids between the two thresholds reduce the digest character modulo ten
    let id: i64 = 268850;
    let name = "00001";
    let digest = format!("{:x}", md5::compute(format!("{id}{name}")));
    let last = digest.chars().last().unwrap() as u32;
    let expected = (last % 10) * 2 + 2;
    assert_eq!(calculate_block_num(1000, id, name), expected);
}

#[test]
fn block_num_matches_digest_formula_mod_eight() {
    let id: i64 = 421926;
    let name = "00007";
    let digest = format!("{:x}", md5::compute(format!("{id}{name}")));
    let last = digest.chars().last().unwrap() as u32;
    let expected = (last % 8) * 2 + 2;
    assert_eq!(calculate_block_num(1000, id, name), expected);
}

#[test]
fn block_num_is_even_and_nonzero_at_or_above_scramble_id() {
    for id in [220980i64, 268850, 300000, 421926, 500000] {
        for name in ["00001", "00002", "cover"] {
            let n = calculate_block_num(220980, id, name);
            assert_ne!(n, 0);
            assert_eq!(n % 2, 0);
        }
    }
}

#[test]
fn scramble_id_is_read_from_page() {
    let body = "<script>var scramble_id = 220980;</script>";
    assert_eq!(parse_scramble_id(body), 220980);
}

#[test]
fn scramble_id_reads_first_occurrence_up_to_semicolon() {
    let body = "var scramble_id = 12345;var scramble_id = 99;";
    assert_eq!(parse_scramble_id(body), 12345);
}

#[test]
fn scramble_id_without_semicolon_reads_to_end() {
    assert_eq!(parse_scramble_id("var scramble_id = 777"), 777);
}

#[test]
fn scramble_id_falls_back_when_missing() {
    assert_eq!(parse_scramble_id("<html>nothing here</html>"), 220980);
}

#[test]
fn scramble_id_falls_back_when_not_numeric() {
    assert_eq!(parse_scramble_id("var scramble_id = oops;"), 220980);
}

#[test]
fn filename_filter_replaces_reserved_characters() {
    assert_eq!(
        filename_filter("a\\b/c:d*e?f\"g<h>i|j"),
        "a b c：d⭐e？f'g《h》i丨j"
    );
}

#[test]
fn filename_filter_trims_spaces_and_trailing_dots() {
    assert_eq!(filename_filter("  title  "), "title");
    assert_eq!(filename_filter("title..."), "title");
    // only dots at the very end are stripped: the final trim exposes a
    // dot-space tail whose dot is inside the name by then
    assert_eq!(filename_filter(" title. . "), "title.");
    assert_eq!(filename_filter("title.. "), "title");
    assert_eq!(filename_filter("a\nb"), "a b");
}

#[test]
fn filename_filter_keeps_ordinary_names() {
    assert_eq!(filename_filter("第1话 某章节"), "第1话 某章节");
    assert_eq!(filename_filter(""), "");
    assert_eq!(filename_filter("..."), "");
}

#[test]
fn image_save_names_are_zero_padded() {
    assert_eq!(img_save_name(1, DownloadFormat::Jpeg), "001.jpg");
    assert_eq!(img_save_name(42, DownloadFormat::Png), "042.png");
    assert_eq!(img_save_name(137, DownloadFormat::Webp), "137.webp");
    assert_eq!(img_save_name(1000, DownloadFormat::Jpeg), "1000.jpg");
}
