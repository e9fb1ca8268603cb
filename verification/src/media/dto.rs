use vstd::prelude::*;

verus! {

/// The multipart form of an upload.
pub struct CreateMediaDTO {
    pub title: Option<String>,
    pub alt: Option<String>,
    pub file: String,
}

/// The answer to an upload.
pub struct MediaUploadResponseDTO {
    pub uuid: String,
    pub url: String,
}

/// A stored file as the media API shows it.
pub struct MediaItemDTO {
    pub uuid: String,
    pub url: String,
    pub title: Option<String>,
    pub alt: Option<String>,
    pub media_type: MediaType,
}

/// A request to change a file's title or alt text.
pub struct UpdateMediaDTO {
    pub title: Option<String>,
    pub alt: Option<String>,
}

/// The kinds of stored files.
#[derive(Clone, Copy, Debug, PartialEq, Eq, Structural)]
pub enum MediaType {
    Image,
    Video,
    Audio,
    Icon,
}

} // verus!
