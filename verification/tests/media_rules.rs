use guest_place::media::edit::media_update_sql;
use guest_place::media::upload::{classify_upload, kind_of_content_type, public_media_url, stored_relative_path, upload_relative_path, UploadError};

const ID: u128 = 0x67e55044_10b1_426f_9247_bb680e5fe0c8;

#[test]
fn uploads_are_images_or_videos() {
    assert!(matches!(classify_upload("photo.png"), Ok("image")));
    assert!(matches!(classify_upload("photo.JPG"), Ok("image")));
    assert!(matches!(classify_upload("clip.mp4"), Ok("video")));
    assert!(matches!(classify_upload("notes.txt"), Err(UploadError::UnsupportedMediaType)));
    assert!(matches!(classify_upload("README"), Err(UploadError::UnknownContentType)));
}

#[test]
fn content_type_decides_the_kind() {
    assert!(matches!(kind_of_content_type(Some("image/webp")), Ok("image")));
    assert!(matches!(kind_of_content_type(Some("video/quicktime")), Ok("video")));
    assert!(matches!(kind_of_content_type(Some("audio/mpeg")), Err(UploadError::UnsupportedMediaType)));
    assert!(matches!(kind_of_content_type(Some("")), Err(UploadError::UnknownContentType)));
    assert!(matches!(kind_of_content_type(None), Err(UploadError::UnknownContentType)));
}

#[test]
fn upload_error_texts() {
    assert_eq!(
        UploadError::UnknownContentType.texts(),
        ("Unable to determine content type from file", "Failed to upload media")
    );
    assert_eq!(
        UploadError::UnsupportedMediaType.texts(),
        ("Unsupported media type", "Only images and videos are allowed")
    );
}

#[test]
fn upload_path_uses_kind_uuid_and_extension() {
    assert_eq!(
        upload_relative_path("image", ID, "holiday.photo.jpeg"),
        "media/image/67e55044-10b1-426f-9247-bb680e5fe0c8.jpeg"
    );
    assert_eq!(upload_relative_path("video", ID, "clip"), "media/video/67e55044-10b1-426f-9247-bb680e5fe0c8.bin");
    assert_eq!(stored_relative_path("image", 0, Some("png")), "media/image/00000000-0000-0000-0000-000000000000.png");
    assert_eq!(stored_relative_path("image", 0, None), "media/image/00000000-0000-0000-0000-000000000000.bin");
}

#[test]
fn public_url_joins_with_one_slash() {
    assert_eq!(public_media_url("https://cdn.example.com/", "media/a.png"), "https://cdn.example.com/media/a.png");
    assert_eq!(public_media_url("https://cdn.example.com//", "media/a.png"), "https://cdn.example.com/media/a.png");
    assert_eq!(public_media_url("https://cdn.example.com", "media/a.png"), "https://cdn.example.com/media/a.png");
}

#[test]
fn media_update_statement_numbers_its_placeholders() {
    assert_eq!(media_update_sql(true, true), Some("UPDATE media SET title = $1, alt = $2 WHERE uuid = $3".to_string()));
    assert_eq!(media_update_sql(false, true), Some("UPDATE media SET alt = $1 WHERE uuid = $2".to_string()));
    assert_eq!(media_update_sql(true, false), Some("UPDATE media SET title = $1 WHERE uuid = $2".to_string()));
    assert_eq!(media_update_sql(false, false), None);
}
