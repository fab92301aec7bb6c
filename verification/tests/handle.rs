use exif_mtime::capture::Failure;
use exif_mtime::config::{Settings, DEFAULT_PARALLELISM};
use exif_mtime::filter::is_candidate;
use exif_mtime::handle::handle_file;
use exif_mtime::report::Line;
use exif_mtime::stamp::Stamp;
use exif_mtime::walk::{ends_the_run, FOLLOW_LINKS, SAME_FILE_SYSTEM};

fn be16(n: u16) -> [u8; 2] {
    n.to_be_bytes()
}

/// A JPEG file whose EXIF data holds the camera's maker and, in the EXIF
/// directory, `DateTimeOriginal` with the given text.
fn photo_taken_at(date_time_original: &str) -> Vec<u8> {
    let maker = b"Maker\0";
    let mut text = date_time_original.as_bytes().to_vec();
    text.push(0);
    let exif_ifd: u32 = 8 + 2 + 2 * 12 + 4;
    let maker_at: u32 = exif_ifd + 2 + 12 + 4;
    let text_at: u32 = maker_at + maker.len() as u32;
    let mut tiff: Vec<u8> = Vec::new();
    tiff.extend_from_slice(b"II");
    tiff.extend_from_slice(&42u16.to_le_bytes());
    tiff.extend_from_slice(&8u32.to_le_bytes());
    tiff.extend_from_slice(&2u16.to_le_bytes());
    tiff.extend_from_slice(&0x010fu16.to_le_bytes());
    tiff.extend_from_slice(&2u16.to_le_bytes());
    tiff.extend_from_slice(&(maker.len() as u32).to_le_bytes());
    tiff.extend_from_slice(&maker_at.to_le_bytes());
    tiff.extend_from_slice(&0x8769u16.to_le_bytes());
    tiff.extend_from_slice(&4u16.to_le_bytes());
    tiff.extend_from_slice(&1u32.to_le_bytes());
    tiff.extend_from_slice(&exif_ifd.to_le_bytes());
    tiff.extend_from_slice(&0u32.to_le_bytes());
    tiff.extend_from_slice(&1u16.to_le_bytes());
    tiff.extend_from_slice(&0x9003u16.to_le_bytes());
    tiff.extend_from_slice(&2u16.to_le_bytes());
    tiff.extend_from_slice(&(text.len() as u32).to_le_bytes());
    tiff.extend_from_slice(&text_at.to_le_bytes());
    tiff.extend_from_slice(&0u32.to_le_bytes());
    tiff.extend_from_slice(maker);
    tiff.extend_from_slice(&text);
    let mut file: Vec<u8> = vec![0xff, 0xd8, 0xff, 0xe1];
    file.extend_from_slice(&be16((tiff.len() + 8) as u16));
    file.extend_from_slice(b"Exif\0\0");
    file.extend_from_slice(&tiff);
    file.extend_from_slice(&[0xff, 0xda, 0x00, 0x02, 0xff, 0xd9]);
    file
}

/// A JPEG file with a JFIF header and no EXIF segment.
fn photo_without_exif() -> Vec<u8> {
    let mut file: Vec<u8> = vec![0xff, 0xd8, 0xff, 0xe0, 0x00, 0x10];
    file.extend_from_slice(b"JFIF\0");
    file.extend_from_slice(&[1, 1, 0, 0, 1, 0, 1, 0, 0]);
    file.extend_from_slice(&[0xff, 0xda, 0x00, 0x02, 0xff, 0xd9]);
    file
}

#[test]
fn a_photo_ends_with_its_capture_time_whatever_it_had() {
    let read = Ok(photo_taken_at("2020:05:17 14:03:09"));
    for previous in [None, Some(0), Some(1_700_000_000), Some(-86_400), Some(1_589_724_189)] {
        let handling = handle_file("\"img.jpg\"", 0, &read, previous);
        assert_eq!(handling.outcome, Ok(Stamp { seconds: 1_589_724_189 }));
        assert_eq!(handling.mtime(), Some(Stamp { seconds: 1_589_724_189 }));
        assert_eq!(handling.lines, Vec::new());
    }
}

#[test]
fn a_photo_handled_twice_ends_as_after_the_first_time() {
    let read = Ok(photo_taken_at("2020:05:17 14:03:09"));
    let first = handle_file("\"img.jpg\"", 0, &read, Some(1_700_000_000));
    let after_first = first.mtime().unwrap();
    let second = handle_file("\"img.jpg\"", 0, &read, Some(after_first.seconds as i64));
    assert_eq!(second.outcome, first.outcome);
    assert_eq!(second.mtime(), Some(after_first));
    assert!(second.lines.iter().all(|l| !l.warning));
}

#[test]
fn a_verbose_run_tells_of_the_change() {
    let read = Ok(photo_taken_at("2020:05:17 14:03:09"));
    let handling = handle_file("\"img.jpg\"", 3, &read, Some(1_700_000_000));
    let texts: Vec<&str> = handling.lines.iter().map(|l| l.text.as_str()).collect();
    assert_eq!(
        texts,
        vec![
            "Going to handle file \"img.jpg\"",
            "Going to handle file \"img.jpg\"",
            "Changing file \"img.jpg\" (1700000000) -> 1589724189",
        ]
    );
    assert!(handling.lines.iter().all(|l| !l.warning));
}

#[test]
fn a_photo_without_exif_gets_one_warning_and_keeps_its_time() {
    let read = Ok(photo_without_exif());
    let handling = handle_file("\"img.jpg\"", 0, &read, Some(1_700_000_000));
    assert_eq!(handling.mtime(), None);
    assert_eq!(
        handling.lines,
        vec![Line {
            warning: true,
            text: "Could not read EXIF for \"img.jpg\": JPEG without EXIF section: \
                   Last mark found and no EXIF"
                .to_string(),
        }]
    );
    assert!(handling.lines[0].text.contains("img.jpg"));
}

#[test]
fn a_file_that_could_not_be_read_gets_the_error_as_warning() {
    let read = Err("No such file or directory (os error 2)".to_string());
    let handling = handle_file("\"gone.jpg\"", 1, &read, None);
    assert_eq!(
        handling.outcome,
        Err(Failure::Unreadable("No such file or directory (os error 2)".to_string()))
    );
    assert_eq!(handling.mtime(), None);
    assert_eq!(
        handling.lines,
        vec![Line {
            warning: true,
            text: "Could not read EXIF for \"gone.jpg\": No such file or directory (os error 2)"
                .to_string(),
        }]
    );
}

#[test]
fn a_photo_with_an_impossible_date_keeps_its_time() {
    let read = Ok(photo_taken_at("2020:02:30 14:03:09"));
    let handling = handle_file("\"img.jpg\"", 2, &read, Some(5));
    assert_eq!(handling.mtime(), None);
    let texts: Vec<&str> = handling.lines.iter().map(|l| l.text.as_str()).collect();
    assert_eq!(
        texts,
        vec![
            "Going to handle file \"img.jpg\"",
            "Could not read DateTimeOriginal of \"img.jpg\": numeric component is out of range",
        ]
    );
}

#[test]
fn a_text_file_beside_the_photo_is_no_candidate() {
    assert!(is_candidate(true, "img.jpg"));
    assert!(!is_candidate(true, "notes.txt"));
}

#[test]
fn settings_default_to_four_workers() {
    assert_eq!(DEFAULT_PARALLELISM, 4);
    assert_eq!(Settings::new(None, 0), Settings { parallelism: 4, verbosity: 0 });
    assert_eq!(Settings::new(Some(1), 2), Settings { parallelism: 1, verbosity: 2 });
    assert_eq!(Settings::new(Some(16), 3), Settings { parallelism: 16, verbosity: 3 });
    assert_eq!(Settings::new(Some(0), 1), Settings { parallelism: 0, verbosity: 1 });
}

#[test]
fn the_count_of_verbosity_flags_is_cut_to_eight_bits() {
    assert_eq!(Settings::new(None, 255).verbosity, 255);
    assert_eq!(Settings::new(None, 256).verbosity, 0);
    assert_eq!(Settings::new(None, 259).verbosity, 3);
}

#[test]
fn the_walk_keeps_to_one_file_system_and_follows_no_link() {
    assert!(SAME_FILE_SYSTEM);
    assert!(!FOLLOW_LINKS);
}

#[test]
fn only_the_root_of_the_walk_ends_the_run() {
    assert!(ends_the_run(0));
    assert!(!ends_the_run(1));
    assert!(!ends_the_run(2));
    assert!(!ends_the_run(usize::MAX));
}
