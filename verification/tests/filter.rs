use exif_mtime::filter::{has_jpeg_name, is_candidate};

#[test]
fn lower_case_suffix_is_a_jpeg_name() {
    assert!(has_jpeg_name("img.jpg"));
}

#[test]
fn suffix_is_found_in_any_case() {
    assert!(has_jpeg_name("IMG_0001.JPG"));
    assert!(has_jpeg_name("holiday.JpG"));
    assert!(has_jpeg_name("a.jPg"));
}

#[test]
fn suffix_alone_is_a_jpeg_name() {
    assert!(has_jpeg_name(".jpg"));
}

#[test]
fn other_names_are_refused() {
    assert!(!has_jpeg_name("notes.txt"));
    assert!(!has_jpeg_name("img.jpeg"));
    assert!(!has_jpeg_name("img.jpg.bak"));
    assert!(!has_jpeg_name("imgjpg"));
    assert!(!has_jpeg_name("jpg"));
    assert!(!has_jpeg_name(""));
    assert!(!has_jpeg_name("img.jp"));
    assert!(!has_jpeg_name("img,jpg"));
}

#[test]
fn characters_beyond_ascii_do_not_disturb_the_suffix() {
    assert!(has_jpeg_name("caf\u{e9}-\u{65e5}\u{672c}.jpg"));
    assert!(!has_jpeg_name("img.jp\u{11f}"));
}

#[test]
fn only_regular_files_are_candidates() {
    assert!(is_candidate(true, "img.jpg"));
    assert!(!is_candidate(false, "img.jpg"));
    assert!(!is_candidate(true, "notes.txt"));
    assert!(!is_candidate(false, "notes.txt"));
}
