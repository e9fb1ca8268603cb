//! Where an uploaded file goes and what it is called.

use vstd::prelude::*;
use crate::ids::{uuid_text, uuid_to_string};
use crate::text::{has_prefix, opt_str, push_str, starts_with, trim_end_char, trim_trailing};

verus! {

/// The MIME type that `mime_guess` gives first for a file name (by its
/// extension), written out.
pub uninterp spec fn mime_guess_first(file_name: Seq<char>) -> Option<Seq<char>>;

/// Calls `mime_guess::from_path(..).first()` and writes the type out.
#[verifier::external_body]
fn guess_mime(file_name: &str) -> (r: Option<String>)
    ensures
        match r {
            Some(m) => mime_guess_first(file_name@) == Some(m@),
            None => mime_guess_first(file_name@) is None,
        },
{
    mime_guess::from_path(file_name).first().map(|m| m.to_string())
}

/// The extension that `Path::extension` finds in a file name.
pub uninterp spec fn path_extension(file_name: Seq<char>) -> Option<Seq<char>>;

/// Calls `Path::extension` on the file name.
#[verifier::external_body]
fn file_extension(file_name: &str) -> (r: Option<String>)
    ensures
        match r {
            Some(e) => path_extension(file_name@) == Some(e@),
            None => path_extension(file_name@) is None,
        },
{
    std::path::Path::new(file_name).extension().and_then(|e| e.to_str()).map(|e| e.to_string())
}

/// Why an upload is refused.
#[derive(Clone, Copy, Debug, PartialEq, Eq, Structural)]
pub enum UploadError {
    /// No content type can be guessed from the file name.
    UnknownContentType,
    /// The file is neither an image nor a video.
    UnsupportedMediaType,
}

/// The kind of an upload with a given content type: `image` for `image/*`,
/// `video` for `video/*`; no (or an empty) content type is refused.
pub open spec fn content_kind(content_type: Option<Seq<char>>) -> Result<Seq<char>, UploadError> {
    match content_type {
        Some(ct) => if ct.len() == 0 {
            Err(UploadError::UnknownContentType)
        } else if has_prefix(ct, "image/"@) {
            Ok("image"@)
        } else if has_prefix(ct, "video/"@) {
            Ok("video"@)
        } else {
            Err(UploadError::UnsupportedMediaType)
        },
        None => Err(UploadError::UnknownContentType),
    }
}

/// The kind of an upload, from the content type guessed from its file name.
pub open spec fn upload_kind(file_name: Seq<char>) -> Result<Seq<char>, UploadError> {
    content_kind(mime_guess_first(file_name))
}

/// Decides [`content_kind`] for a content type already guessed.
pub fn kind_of_content_type(content_type: Option<&str>) -> (r: Result<&'static str, UploadError>)
    ensures
        match r {
            Ok(kind) => content_kind(opt_str(content_type)) == Ok::<Seq<char>, UploadError>(kind@),
            Err(e) => content_kind(opt_str(content_type)) == Err::<Seq<char>, UploadError>(e),
        },
{
    let ct = match content_type {
        Some(ct) => ct,
        None => return Err(UploadError::UnknownContentType),
    };
    if ct.unicode_len() == 0 {
        return Err(UploadError::UnknownContentType);
    }
    if starts_with(ct, "image/") {
        Ok("image")
    } else if starts_with(ct, "video/") {
        Ok("video")
    } else {
        Err(UploadError::UnsupportedMediaType)
    }
}

/// Decides whether a file may be uploaded, and as what.
pub fn classify_upload(file_name: &str) -> (r: Result<&'static str, UploadError>)
    ensures
        match r {
            Ok(kind) => upload_kind(file_name@) == Ok::<Seq<char>, UploadError>(kind@),
            Err(e) => upload_kind(file_name@) == Err::<Seq<char>, UploadError>(e),
        },
{
    match guess_mime(file_name) {
        Some(ct) => kind_of_content_type(Some(ct.as_str())),
        None => kind_of_content_type(None),
    }
}

/// `media/{kind}/{uuid}.{extension}`, with `bin` where there is no
/// extension.
pub open spec fn stored_path_of(kind: Seq<char>, uuid: u128, extension: Option<Seq<char>>) -> Seq<char> {
    "media/"@ + kind + "/"@ + uuid_text(uuid) + "."@ + match extension {
        Some(e) => e,
        None => "bin"@,
    }
}

/// The relative path of an upload, by the extension of its file name.
pub open spec fn upload_path_of(kind: Seq<char>, uuid: u128, file_name: Seq<char>) -> Seq<char> {
    stored_path_of(kind, uuid, path_extension(file_name))
}

/// Builds [`stored_path_of`].
pub fn stored_relative_path(kind: &str, uuid: u128, extension: Option<&str>) -> (p: String)
    ensures
        p@ == stored_path_of(kind@, uuid, opt_str(extension)),
{
    let mut p = String::from_str("media/");
    push_str(&mut p, kind);
    push_str(&mut p, "/");
    let u = uuid_to_string(uuid);
    push_str(&mut p, u.as_str());
    push_str(&mut p, ".");
    match extension {
        Some(e) => push_str(&mut p, e),
        None => push_str(&mut p, "bin"),
    }
    p
}

/// The path, relative to the server's directory, that an upload is saved at.
pub fn upload_relative_path(kind: &str, uuid: u128, file_name: &str) -> (p: String)
    ensures
        p@ == upload_path_of(kind@, uuid, file_name@),
{
    match file_extension(file_name) {
        Some(e) => stored_relative_path(kind, uuid, Some(e.as_str())),
        None => stored_relative_path(kind, uuid, None),
    }
}

/// The public URL of a saved file: the public base without trailing `/`,
/// then `/`, then the relative path.
pub open spec fn public_url_of(public_url: Seq<char>, relative_path: Seq<char>) -> Seq<char> {
    trim_trailing(public_url, '/') + "/"@ + relative_path
}

/// Builds [`public_url_of`].
pub fn public_media_url(public_url: &str, relative_path: &str) -> (u: String)
    ensures
        u@ == public_url_of(public_url@, relative_path@),
{
    let mut u = trim_end_char(public_url, '/');
    push_str(&mut u, "/");
    push_str(&mut u, relative_path);
    u
}

impl UploadError {
    /// The error detail (under the field `content_type`) and the message of
    /// the 400 answer.
    pub fn texts(&self) -> (t: (&'static str, &'static str))
        ensures
            *self == UploadError::UnknownContentType ==> t.0@ == "Unable to determine content type from file"@
                && t.1@ == "Failed to upload media"@,
            *self == UploadError::UnsupportedMediaType ==> t.0@ == "Unsupported media type"@
                && t.1@ == "Only images and videos are allowed"@,
    {
        match self {
            UploadError::UnknownContentType => ("Unable to determine content type from file", "Failed to upload media"),
            UploadError::UnsupportedMediaType => ("Unsupported media type", "Only images and videos are allowed"),
        }
    }
}

} // verus!
