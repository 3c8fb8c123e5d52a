use image_store::catalog::CatalogError;
use image_store::catalog::ScannedFile;
use image_store::catalog::build_catalog;
use image_store::category::Category;
use image_store::category::classify;
use image_store::layout::category_dir_path;
use image_store::layout::plan_for_timestamp;
use image_store::layout::plan_upload;
use image_store::layout::plan_upload_now;
use image_store::naming::Timestamp;
use image_store::naming::file_name_for;
use image_store::naming::format_timestamp;
use image_store::naming::fresh_file_name;
use image_store::naming::generate_file_name;

fn sample_ts() -> Timestamp {
    Timestamp { year: 2026, month: 1, day: 2, hour: 3, minute: 4, second: 5 }
}

#[test]
fn classify_supported_types() {
    assert_eq!(classify("image/jpeg"), Category::Jpeg);
    assert_eq!(classify("image/png"), Category::Png);
    assert_eq!(classify("image/gif"), Category::Gif);
    assert_eq!(classify("image/webp"), Category::Webp);
}

#[test]
fn classify_everything_else_as_unknown() {
    assert_eq!(classify(""), Category::Unknown);
    assert_eq!(classify("application/octet-stream"), Category::Unknown);
    assert_eq!(classify("IMAGE/JPEG"), Category::Unknown);
    assert_eq!(classify("image/jpg"), Category::Unknown);
    assert_eq!(classify("image/jpeg "), Category::Unknown);
}

#[test]
fn category_directory_and_extension_names() {
    assert_eq!(Category::Jpeg.dir_name(), "JPG");
    assert_eq!(Category::Png.dir_name(), "PNG");
    assert_eq!(Category::Gif.dir_name(), "GIF");
    assert_eq!(Category::Webp.dir_name(), "WEBP");
    assert_eq!(Category::Unknown.dir_name(), "Undefined");
    assert_eq!(Category::Jpeg.extension(), "jpg");
    assert_eq!(Category::Png.extension(), "png");
    assert_eq!(Category::Gif.extension(), "gif");
    assert_eq!(Category::Webp.extension(), "webp");
    assert_eq!(Category::Unknown.extension(), "bin");
}

#[test]
fn timestamp_format_is_exact() {
    assert_eq!(format_timestamp(&sample_ts()), "2026-01-02_03-04-05");
    let edge = Timestamp { year: 999, month: 12, day: 31, hour: 23, minute: 59, second: 59 };
    assert_eq!(format_timestamp(&edge), "0999-12-31_23-59-59");
    let zero = Timestamp { year: 0, month: 1, day: 1, hour: 0, minute: 0, second: 0 };
    assert_eq!(format_timestamp(&zero), "0000-01-01_00-00-00");
}

#[test]
fn file_name_joins_timestamp_and_extension() {
    assert_eq!(generate_file_name(&sample_ts(), Category::Jpeg), "2026-01-02_03-04-05.jpg");
    assert_eq!(generate_file_name(&sample_ts(), Category::Unknown), "2026-01-02_03-04-05.bin");
}

#[test]
fn file_name_for_decides_on_the_year() {
    assert_eq!(
        file_name_for(&sample_ts(), Category::Gif).as_deref(),
        Some("2026-01-02_03-04-05.gif")
    );
    let far = Timestamp { year: 10000, ..sample_ts() };
    assert_eq!(file_name_for(&far, Category::Gif), None);
    let early = Timestamp { year: -1, ..sample_ts() };
    assert_eq!(file_name_for(&early, Category::Gif), None);
}

#[test]
fn plan_for_timestamp_decides_on_the_year() {
    let plan = plan_for_timestamp("transferred_images", "image/png", &sample_ts()).unwrap();
    assert_eq!(plan.file_path, "transferred_images/PNG/2026-01-02_03-04-05.png");
    let far = Timestamp { year: 10000, ..sample_ts() };
    assert!(plan_for_timestamp("transferred_images", "image/png", &far).is_none());
}

#[test]
fn same_second_yields_same_file_name() {
    let a = generate_file_name(&sample_ts(), Category::Png);
    let b = generate_file_name(&sample_ts(), Category::Png);
    assert_eq!(a, b);
}

#[test]
fn category_dir_path_is_root_slash_category() {
    assert_eq!(category_dir_path("transferred_images", Category::Jpeg), "transferred_images/JPG");
    assert_eq!(
        category_dir_path("transferred_images", Category::Unknown),
        "transferred_images/Undefined"
    );
}

#[test]
fn upload_plan_lays_out_jpeg_path() {
    let plan = plan_upload("transferred_images", "image/jpeg", &sample_ts());
    assert_eq!(plan.category, Category::Jpeg);
    assert_eq!(plan.category_dir, "transferred_images/JPG");
    assert_eq!(plan.file_path, "transferred_images/JPG/2026-01-02_03-04-05.jpg");
}

#[test]
fn unrecognized_upload_lands_under_undefined() {
    let plan = plan_upload("transferred_images", "application/octet-stream", &sample_ts());
    assert_eq!(plan.category, Category::Unknown);
    assert_eq!(plan.category_dir, "transferred_images/Undefined");
    assert_eq!(plan.file_path, "transferred_images/Undefined/2026-01-02_03-04-05.bin");
}

#[test]
fn empty_root_yields_empty_catalog() {
    let files: Vec<ScannedFile> = vec![];
    let catalog = build_catalog(true, &files).unwrap();
    assert_eq!(catalog.len(), 0);
}

#[test]
fn missing_root_is_store_not_initialized() {
    let files: Vec<ScannedFile> = vec![];
    let result = build_catalog(false, &files);
    assert!(matches!(result, Err(CatalogError::StoreNotInitialized)));
}

#[test]
fn catalog_encodes_payload_as_standard_base64() {
    let files = vec![ScannedFile::Stored {
        file_name: "2026-01-02_03-04-05.jpg".to_string(),
        extension: "jpg".to_string(),
        content: vec![0xFF, 0xD8, 0xFF],
    }];
    let catalog = build_catalog(true, &files).unwrap();
    assert_eq!(catalog.len(), 1);
    assert_eq!(catalog[0].file_name, "2026-01-02_03-04-05.jpg");
    assert_eq!(catalog[0].extension, "jpg");
    assert_eq!(catalog[0].encoded_payload, "/9j/");
}

#[test]
fn catalog_skips_unnamed_files() {
    let files = vec![
        ScannedFile::Unnamed,
        ScannedFile::Stored {
            file_name: "a.png".to_string(),
            extension: "png".to_string(),
            content: vec![1, 2, 3],
        },
        ScannedFile::Unnamed,
    ];
    let catalog = build_catalog(true, &files).unwrap();
    assert_eq!(catalog.len(), 1);
    assert_eq!(catalog[0].file_name, "a.png");
}

#[test]
fn catalog_keeps_listing_order() {
    let files = vec![
        ScannedFile::Stored {
            file_name: "first.gif".to_string(),
            extension: "gif".to_string(),
            content: vec![],
        },
        ScannedFile::Stored {
            file_name: "second.webp".to_string(),
            extension: "webp".to_string(),
            content: vec![0],
        },
    ];
    let catalog = build_catalog(true, &files).unwrap();
    assert_eq!(catalog.len(), 2);
    assert_eq!(catalog[0].file_name, "first.gif");
    assert_eq!(catalog[0].encoded_payload, "");
    assert_eq!(catalog[1].file_name, "second.webp");
    assert_eq!(catalog[1].encoded_payload, "AA==");
}

#[test]
fn unreadable_file_aborts_whole_catalog() {
    let files = vec![
        ScannedFile::Stored {
            file_name: "ok.jpg".to_string(),
            extension: "jpg".to_string(),
            content: vec![9],
        },
        ScannedFile::Unreadable { message: "permission denied".to_string() },
    ];
    let result = build_catalog(true, &files);
    match result {
        Err(CatalogError::ReadFailed { message }) => assert_eq!(message, "permission denied"),
        _ => panic!("expected the read failure to abort the build"),
    }
}

#[test]
fn first_unreadable_file_wins() {
    let files = vec![
        ScannedFile::Unreadable { message: "early failure".to_string() },
        ScannedFile::Unreadable { message: "late failure".to_string() },
    ];
    let result = build_catalog(true, &files);
    match result {
        Err(CatalogError::ReadFailed { message }) => assert_eq!(message, "early failure"),
        _ => panic!("expected the read failure to abort the build"),
    }
}

#[test]
fn fresh_file_name_has_timestamp_shape() {
    let name = fresh_file_name(Category::Jpeg).unwrap();
    assert_eq!(name.len(), "YYYY-MM-DD_HH-MM-SS.jpg".len());
    assert!(name.ends_with(".jpg"));
    assert_eq!(name.as_bytes()[10], b'_');
    assert_eq!(name.as_bytes()[4], b'-');
}

#[test]
fn plan_upload_now_uses_the_layout() {
    let plan = plan_upload_now("transferred_images", "image/webp").unwrap();
    assert_eq!(plan.category, Category::Webp);
    assert_eq!(plan.category_dir, "transferred_images/WEBP");
    assert!(plan.file_path.starts_with("transferred_images/WEBP/"));
    assert!(plan.file_path.ends_with(".webp"));
}
