//! Rules of the message handlers: history pages, search, reactions, and how
//! a message row becomes the message the API shows.

use vstd::prelude::*;
use crate::common::dto::MediaDTO;
use crate::common::pagination::{capped, capped_limit, page_offset, page_window_i64, window_fits_i64, PageWindow64};
use crate::messenger::dto::{MessageResponseDTO, MessageRow, ReactionDTO, UserPreviewDTO};
use crate::text::{opt_str, parse_i64, parsed_i64, push_str};

verus! {

/// A name, unless it is empty.
pub open spec fn non_empty(name: Option<String>) -> Option<String> {
    match name {
        Some(s) => if s@.len() > 0 { Some(s) } else { None },
        None => None,
    }
}

fn keep_non_empty(name: Option<String>) -> (r: Option<String>)
    ensures
        r == non_empty(name),
{
    match name {
        Some(s) => if s.unicode_len() > 0 { Some(s) } else { None },
        None => None,
    }
}

/// The message that the API shows for a row: the sender's names (empty ones
/// dropped), avatar and presence form the `sender` preview, whose last-seen
/// time is `now`.
pub open spec fn message_response_of(
    row: MessageRow,
    sender_avatar: Option<MediaDTO>,
    media: Option<MediaDTO>,
    reactions: Vec<ReactionDTO>,
    is_online: bool,
    now: i64,
) -> MessageResponseDTO {
    MessageResponseDTO {
        uuid: row.uuid,
        chat_uuid: row.chat_uuid,
        sender_uuid: row.sender_uuid,
        reply_to_uuid: row.reply_to_uuid,
        body: row.body,
        is_edited: row.is_edited,
        is_deleted: row.is_deleted,
        is_pinned: row.is_pinned,
        created_at: row.created_at,
        updated_at: row.updated_at,
        sender: Some(UserPreviewDTO {
            uuid: row.sender_uuid,
            first_name: non_empty(row.sender_first_name),
            second_name: non_empty(row.sender_second_name),
            avatar: sender_avatar,
            is_online: is_online,
            last_seen_at: now,
        }),
        delivered_count: row.delivered_count,
        read_count: row.read_count,
        my_status: row.my_status,
        reply_body_preview: row.reply_body_preview,
        media: media,
        reactions: reactions,
    }
}

/// The message shown for a row keeps what the row says of it: its ids,
/// text, edited, deleted and pinned flags, times, counts, delivery status and
/// reply preview are the row's. Its sender preview is the row's sender,
/// showing a name only where the row has a non-empty one, with the given
/// avatar and presence, seen `now`; the media and reactions are the given.
pub proof fn message_response_keeps_row(
    row: MessageRow,
    sender_avatar: Option<MediaDTO>,
    media: Option<MediaDTO>,
    reactions: Vec<ReactionDTO>,
    is_online: bool,
    now: i64,
)
    ensures
        ({
            let m = message_response_of(row, sender_avatar, media, reactions, is_online, now);
            &&& m.uuid == row.uuid
            &&& m.chat_uuid == row.chat_uuid
            &&& m.sender_uuid == row.sender_uuid
            &&& m.reply_to_uuid == row.reply_to_uuid
            &&& m.body@ == row.body@
            &&& m.is_edited == row.is_edited
            &&& m.is_deleted == row.is_deleted
            &&& m.is_pinned == row.is_pinned
            &&& m.created_at == row.created_at
            &&& m.updated_at == row.updated_at
            &&& m.delivered_count == row.delivered_count
            &&& m.read_count == row.read_count
            &&& m.my_status == row.my_status
            &&& m.reply_body_preview == row.reply_body_preview
            &&& m.media == media
            &&& m.reactions@ == reactions@
            &&& m.sender matches Some(p)
            &&& p.uuid == row.sender_uuid
            &&& p.avatar == sender_avatar
            &&& p.is_online == is_online
            &&& p.last_seen_at == now
            &&& (p.first_name matches Some(n) ==> row.sender_first_name == Some(n) && n@.len() > 0)
            &&& (row.sender_first_name matches Some(n) ==> (n@.len() > 0 ==> p.first_name == Some(n)))
            &&& (p.second_name matches Some(n) ==> row.sender_second_name == Some(n) && n@.len() > 0)
            &&& (row.sender_second_name matches Some(n) ==> (n@.len() > 0 ==> p.second_name == Some(n)))
        }),
{
}

/// Builds the message that the API shows from a row, the sender's avatar,
/// the attached media, the reactions and the sender's presence.
pub fn message_response(
    row: MessageRow,
    sender_avatar: Option<MediaDTO>,
    media: Option<MediaDTO>,
    reactions: Vec<ReactionDTO>,
    is_online: bool,
    now: i64,
) -> (m: MessageResponseDTO)
    ensures
        m == message_response_of(row, sender_avatar, media, reactions, is_online, now),
{
    let first_name = keep_non_empty(row.sender_first_name);
    let second_name = keep_non_empty(row.sender_second_name);
    MessageResponseDTO {
        uuid: row.uuid,
        chat_uuid: row.chat_uuid,
        sender_uuid: row.sender_uuid,
        reply_to_uuid: row.reply_to_uuid,
        body: row.body,
        is_edited: row.is_edited,
        is_deleted: row.is_deleted,
        is_pinned: row.is_pinned,
        created_at: row.created_at,
        updated_at: row.updated_at,
        sender: Some(UserPreviewDTO {
            uuid: row.sender_uuid,
            first_name,
            second_name,
            avatar: sender_avatar,
            is_online,
            last_seen_at: now,
        }),
        delivered_count: row.delivered_count,
        read_count: row.read_count,
        my_status: row.my_status,
        reply_body_preview: row.reply_body_preview,
        media,
        reactions,
    }
}

/// The history page of a chat: at most 100 messages (30 when not given),
/// from page 1 when not given.
pub fn message_history_page(limit: Option<i64>, page: Option<i64>) -> (w: PageWindow64)
    requires
        window_fits_i64(
            match page { Some(p) => p as int, None => 1 },
            capped(match limit { Some(v) => v, None => 30 }, 100) as int,
        ),
    ensures
        w.limit == capped(match limit { Some(v) => v, None => 30 }, 100),
        w.page == match page { Some(p) => p, None => 1 },
        w.offset == page_offset(w.page as int, w.limit as int),
{
    let l = capped_limit(limit, 30, 100);
    let p = match page {
        Some(p) => p,
        None => 1,
    };
    page_window_i64(p, l)
}

/// `%q%`: the `ILIKE` pattern of a search for `q`.
pub open spec fn search_pattern_of(q: Seq<char>) -> Seq<char> {
    "%"@ + q + "%"@
}

/// Builds [`search_pattern_of`].
pub fn search_pattern(q: &str) -> (p: String)
    ensures
        p@ == search_pattern_of(q@),
{
    let mut p = String::from_str("%");
    push_str(&mut p, q);
    push_str(&mut p, "%");
    p
}

/// The number of results of a search in a chat: at most 100 (50 when not
/// given).
pub fn search_limit(limit: Option<i64>) -> (l: i64)
    ensures
        l == capped(match limit { Some(v) => v, None => 50 }, 100),
{
    capped_limit(limit, 50, 100)
}

/// What toggling a reaction does after trying to delete it.
#[derive(Clone, Copy, Debug, PartialEq, Eq, Structural)]
pub enum ReactionToggle {
    /// The reaction was there and is now removed.
    Removed,
    /// The reaction was not there: insert it.
    Insert,
}

/// A reaction is a toggle: deleting it first tells whether it was there.
pub fn reaction_after_delete(rows_deleted: u64) -> (t: ReactionToggle)
    ensures
        rows_deleted > 0 <==> t == ReactionToggle::Removed,
{
    if rows_deleted > 0 { ReactionToggle::Removed } else { ReactionToggle::Insert }
}

/// A numeric query parameter: its value where `str::parse::<i64>` accepts
/// it, else `default`.
pub open spec fn param_or(p: Option<Seq<char>>, default: i64) -> i64 {
    match p {
        Some(s) => match parsed_i64(s) {
            Some(v) => v,
            None => default,
        },
        None => default,
    }
}

/// Reads [`param_or`].
pub fn int_param(p: Option<&str>, default: i64) -> (v: i64)
    ensures
        v == param_or(opt_str(p), default),
{
    match p {
        Some(s) => match parse_i64(s) {
            Some(v) => v,
            None => default,
        },
        None => default,
    }
}

/// The page of a chat's media list: `?limit=` (50 when missing or not a
/// number) and `?page=` (1 likewise), with its offset.
pub fn chat_media_window(limit: Option<&str>, page: Option<&str>) -> (w: PageWindow64)
    requires
        window_fits_i64(param_or(opt_str(page), 1) as int, param_or(opt_str(limit), 50) as int),
    ensures
        w.limit == param_or(opt_str(limit), 50),
        w.page == param_or(opt_str(page), 1),
        w.offset == page_offset(w.page as int, w.limit as int),
{
    let l = int_param(limit, 50);
    let p = int_param(page, 1);
    page_window_i64(p, l)
}

} // verus!
