use exif_mtime::exif::{find_tag, ExifField, DATE_TIME_ORIGINAL};

fn field(tag: u32, value: &str) -> ExifField {
    ExifField { tag, value: value.to_string() }
}

#[test]
fn date_time_original_has_its_exif_number() {
    assert_eq!(DATE_TIME_ORIGINAL, 0x9003);
    assert_eq!(DATE_TIME_ORIGINAL, 36867);
}

#[test]
fn no_field_is_found_in_an_empty_list() {
    assert_eq!(find_tag(&Vec::new(), DATE_TIME_ORIGINAL), None);
}

#[test]
fn a_tag_that_is_absent_is_not_found() {
    let fields = vec![field(0x010f, "Maker"), field(0x0132, "2021:01:01 00:00:00")];
    assert_eq!(find_tag(&fields, DATE_TIME_ORIGINAL), None);
}

#[test]
fn the_field_with_the_tag_is_found_where_it_stands() {
    let fields = vec![
        field(0x010f, "Maker"),
        field(0x8769, "26"),
        field(0x9003, "2020:05:17 14:03:09"),
        field(0x9004, "2020:05:17 14:03:10"),
    ];
    assert_eq!(find_tag(&fields, DATE_TIME_ORIGINAL), Some(2));
    assert_eq!(find_tag(&fields, 0x010f), Some(0));
    assert_eq!(find_tag(&fields, 0x9004), Some(3));
}

#[test]
fn of_two_fields_with_the_tag_the_first_is_found() {
    let fields = vec![
        field(0x9003, "2020:05:17 14:03:09"),
        field(0x010f, "Maker"),
        field(0x9003, "1999:12:31 23:59:59"),
    ];
    assert_eq!(find_tag(&fields, DATE_TIME_ORIGINAL), Some(0));
}

#[test]
fn a_tag_of_another_name_space_is_another_tag() {
    let fields = vec![field(0x0001_9003, "2020:05:17 14:03:09")];
    assert_eq!(find_tag(&fields, DATE_TIME_ORIGINAL), None);
}
