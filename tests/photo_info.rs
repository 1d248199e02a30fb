use fotema::photo_info::{
    decimal_text, dimensions_text, ExifFacts, FileFacts, ImageFacts, Instant, PhotoInfo, PhotoInfoInput,
    PropertyRow, VideoFacts, VisualFacts, FALLBACK, INSTANT_RANGE_SECONDS,
};

fn at(seconds: i64, offset_seconds: i32) -> Option<Instant> {
    Some(Instant { seconds, offset_seconds })
}

fn image(exif: Option<ExifFacts>) -> ImageFacts {
    ImageFacts { width: 4000, height: 3000, format_name: Some("JPEG".to_string()), exif }
}

fn visual(picture_file_size: Option<u64>, video: Option<VideoFacts>) -> VisualFacts {
    VisualFacts {
        has_path: true,
        folder_name: Some("Holidays".to_string()),
        file: Some(FileFacts { created_at: at(0, 0), modified_at: None }),
        picture_file_size,
        video,
    }
}

#[test]
fn row_with_value_is_visible() {
    let mut row = PropertyRow::new();
    assert!(PhotoInfo::update_row(&mut row, Some("JPEG".to_string())));
    assert_eq!(row.subtitle, "JPEG");
    assert!(row.visible);
}

#[test]
fn row_without_value_is_hidden() {
    let mut row = PropertyRow::new();
    assert!(!PhotoInfo::update_row(&mut row, None));
    assert_eq!(row.subtitle, FALLBACK);
    assert!(!row.visible);
}

#[test]
fn file_details_format_instants() {
    let mut info = PhotoInfo::init();
    info.update_file_details(
        Some("Holidays".to_string()),
        FileFacts { created_at: at(0, 0), modified_at: at(86_400 + 3_661, 3_600) },
    );
    assert_eq!(info.folder.subtitle, "Holidays");
    assert_eq!(info.created_at.subtitle, "1970-01-01 00:00:00 +00:00");
    assert_eq!(info.modified_at.subtitle, "1970-01-02 02:01:01 +01:00");
    assert!(info.date_time_details);
}

#[test]
fn file_details_without_times_hide_group() {
    let mut info = PhotoInfo::init();
    info.update_file_details(None, FileFacts { created_at: None, modified_at: None });
    assert!(!info.folder.visible);
    assert!(!info.date_time_details);
}

#[test]
fn offset_of_a_day_has_no_text() {
    let mut info = PhotoInfo::init();
    info.update_file_details(None, FileFacts { created_at: at(0, 86_400), modified_at: None });
    assert!(!info.created_at.visible);
    assert!(!info.date_time_details);
}

#[test]
fn photo_details_show_size_and_format() {
    let mut info = PhotoInfo::init();
    info.update_photo_details(&image(None), 1_500);
    assert_eq!(info.image_size.subtitle, "4000 x 3000");
    assert_eq!(info.image_format.subtitle, "JPEG");
    assert_eq!(info.image_file_size.subtitle, "1.50 kB");
    assert!(info.image_details);
    assert!(!info.exif_details);
}

#[test]
fn exif_instants_are_timezone_aware() {
    let mut info = PhotoInfo::init();
    let exif = ExifFacts { created_at: at(1_700_000_000, -18_000), modified_at: None };
    info.update_photo_details(&image(Some(exif)), 0);
    assert_eq!(info.exif_originally_created_at.subtitle, "2023-11-14 17:13:20 -05:00");
    assert!(!info.exif_originally_modified_at.visible);
    assert!(info.exif_details);
    assert_eq!(info.image_file_size.subtitle, "0 B");
}

#[test]
fn exif_without_instants_hides_group() {
    let mut info = PhotoInfo::init();
    let exif = ExifFacts { created_at: None, modified_at: None };
    info.update_photo_details(&image(Some(exif)), 10);
    assert!(!info.exif_details);
}

#[test]
fn video_details_show_duration_and_container() {
    let mut info = PhotoInfo::init();
    let video = VideoFacts {
        created_at: None,
        duration: Some("00:01:05".to_string()),
        container_format: None,
    };
    info.update_video_details(&video);
    assert_eq!(info.video_duration.subtitle, "00:01:05");
    assert!(!info.video_container_format.visible);
    assert!(!info.video_originally_created_at.visible);
    assert!(info.video_details);
}

#[test]
fn video_message_hides_image_groups() {
    let mut info = PhotoInfo::init();
    let video = VideoFacts { created_at: None, duration: None, container_format: None };
    info.update(PhotoInfoInput::Video(visual(None, Some(video))));
    assert!(!info.image_details);
    assert!(!info.exif_details);
    assert!(!info.video_details);
    assert_eq!(info.folder.subtitle, "Holidays");
}

#[test]
fn photo_message_without_picture_leaves_image_rows() {
    let mut info = PhotoInfo::init();
    info.update(PhotoInfoInput::Photo(visual(None, None), image(None)));
    assert!(info.image_details);
    assert_eq!(info.image_size.subtitle, "");
    assert_eq!(info.created_at.subtitle, "1970-01-01 00:00:00 +00:00");
}

#[test]
fn photo_message_with_picture_shows_details() {
    let mut info = PhotoInfo::init();
    info.update(PhotoInfoInput::Photo(visual(Some(2_000_000), None), image(None)));
    assert_eq!(info.image_file_size.subtitle, "2 MB");
    assert!(!info.exif_details);
}

#[test]
fn item_without_path_keeps_folder() {
    let mut info = PhotoInfo::init();
    let mut v = visual(None, None);
    v.has_path = false;
    info.update(PhotoInfoInput::Photo(v, image(None)));
    assert_eq!(info.folder.subtitle, "");
    assert!(info.folder.visible);
}

#[test]
fn decimal_text_of_integers() {
    assert_eq!(decimal_text(0), "0");
    assert_eq!(decimal_text(7), "7");
    assert_eq!(decimal_text(10), "10");
    assert_eq!(decimal_text(4000), "4000");
    assert_eq!(decimal_text(u32::MAX), "4294967295");
}

#[test]
fn dimensions_text_joins_width_and_height() {
    assert_eq!(dimensions_text(640, 480), "640 x 480");
    assert_eq!(dimensions_text(0, 9), "0 x 9");
}

#[test]
fn instants_at_the_edge_of_the_range_have_text() {
    let mut info = PhotoInfo::init();
    info.update_file_details(
        None,
        FileFacts {
            created_at: at(INSTANT_RANGE_SECONDS, 86_399),
            modified_at: at(-INSTANT_RANGE_SECONDS, -86_399),
        },
    );
    assert!(info.created_at.visible);
    assert!(info.modified_at.visible);
    assert_ne!(info.created_at.subtitle, FALLBACK);
    assert_ne!(info.modified_at.subtitle, FALLBACK);
}

#[test]
fn pre_epoch_instant_is_shown() {
    let mut info = PhotoInfo::init();
    info.update_file_details(None, FileFacts { created_at: at(-1, 0), modified_at: None });
    assert_eq!(info.created_at.subtitle, "1969-12-31 23:59:59 +00:00");
}

#[test]
fn video_details_leave_file_size_row() {
    let mut info = PhotoInfo::init();
    info.video_file_size.subtitle = "3 MB".to_string();
    let video = VideoFacts { created_at: at(60, 0), duration: None, container_format: None };
    info.update_video_details(&video);
    assert_eq!(info.video_file_size.subtitle, "3 MB");
    assert_eq!(info.video_originally_created_at.subtitle, "1970-01-01 00:01:00 +00:00");
    assert!(info.video_details);
}

#[test]
fn init_rows_are_empty_and_visible() {
    let info = PhotoInfo::init();
    for row in [&info.folder, &info.created_at, &info.image_size, &info.exif_originally_created_at, &info.video_duration] {
        assert_eq!(row.subtitle, "");
        assert!(row.visible);
    }
}
