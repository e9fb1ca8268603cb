//! How a user's profile is shown and searched.

use vstd::prelude::*;
use crate::common::dto::MediaDTO;
use crate::ids::{uuid_text, uuid_to_string};
use crate::messenger::message::{search_pattern, search_pattern_of};
use crate::text::{opt_str, push_str};

verus! {

/// The URL of a user's avatar: `{base}/media/image/{uuid}.png`, when the
/// profile has an avatar.
pub open spec fn avatar_url_of(base: Seq<char>, avatar_uuid: Option<u128>) -> Option<Seq<char>> {
    match avatar_uuid {
        Some(u) => Some(base + "/media/image/"@ + uuid_text(u) + ".png"@),
        None => None,
    }
}

/// Builds [`avatar_url_of`].
pub fn avatar_url(base: &str, avatar_uuid: Option<u128>) -> (r: Option<String>)
    ensures
        match r {
            Some(s) => avatar_url_of(base@, avatar_uuid) == Some(s@),
            None => avatar_url_of(base@, avatar_uuid) is None,
        },
{
    match avatar_uuid {
        Some(u) => {
            let mut s = String::from_str(base);
            push_str(&mut s, "/media/image/");
            let t = uuid_to_string(u);
            push_str(&mut s, t.as_str());
            push_str(&mut s, ".png");
            Some(s)
        },
        None => None,
    }
}

/// The `ILIKE` pattern of a user search: none for a missing or empty
/// `search`, else `%search%`.
pub open spec fn user_search_pattern_of(search: Option<Seq<char>>) -> Option<Seq<char>> {
    match search {
        Some(q) => if q.len() == 0 {
            None
        } else {
            Some(search_pattern_of(q))
        },
        None => None,
    }
}

/// Builds [`user_search_pattern_of`].
pub fn user_search_pattern(search: Option<&str>) -> (r: Option<String>)
    ensures
        match r {
            Some(s) => user_search_pattern_of(opt_str(search)) == Some(s@),
            None => user_search_pattern_of(opt_str(search)) is None,
        },
{
    match search {
        Some(q) => if q.unicode_len() == 0 {
            None
        } else {
            Some(search_pattern(q))
        },
        None => None,
    }
}

/// A user's avatar as the media preview of a chat or a message shows it:
/// the avatar's URL, typed `image`, without alt text or title.
pub fn avatar_media(base: &str, avatar_uuid: Option<u128>) -> (r: Option<MediaDTO>)
    ensures
        match r {
            Some(m) => {
                &&& avatar_url_of(base@, avatar_uuid) == Some(m.url@)
                &&& m.alt is None
                &&& m.title is None
                &&& m.media_type matches Some(t) && t@ == "image"@
            },
            None => avatar_uuid is None,
        },
{
    match avatar_url(base, avatar_uuid) {
        Some(url) => Some(MediaDTO { url, alt: None, title: None, media_type: Some(String::from_str("image")) }),
        None => None,
    }
}

} // verus!
