//! Rules of the chat handlers: who may create, leave and manage a chat, and
//! how a chat row becomes the chat the API shows.

use vstd::prelude::*;
use crate::common::dto::MediaDTO;
use crate::messenger::dto::{ChatResponseDTO, ChatRow, ChatType, CreateChatDTO, UserPreviewDTO};
use crate::text::{trim, trimmed};

verus! {

/// Why a chat cannot be created.
#[derive(Clone, Copy, Debug, PartialEq, Eq, Structural)]
pub enum CreateChatError {
    /// A direct chat names other than exactly one other member.
    DirectNeedsOneMember,
    /// A group chat has no name, or a blank one.
    GroupNeedsName,
}

/// The problem with a chat request, if any: a direct chat needs exactly one
/// other member, a group a name that is not blank.
pub open spec fn create_chat_problem(chat_type: ChatType, name: Option<Seq<char>>, members: nat) -> Option<CreateChatError> {
    if chat_type == ChatType::Direct && members != 1 {
        Some(CreateChatError::DirectNeedsOneMember)
    } else if chat_type == ChatType::Group && trimmed(
        match name {
            Some(n) => n,
            None => ""@,
        },
    ).len() == 0 {
        Some(CreateChatError::GroupNeedsName)
    } else {
        None
    }
}

/// Checks a request to create a chat.
pub fn validate_create_chat(dto: &CreateChatDTO) -> (r: Result<(), CreateChatError>)
    ensures
        match r {
            Ok(()) => create_chat_problem(
                dto.chat_type,
                match dto.name { Some(n) => Some(n@), None => None },
                dto.member_uuids@.len(),
            ) is None,
            Err(e) => create_chat_problem(
                dto.chat_type,
                match dto.name { Some(n) => Some(n@), None => None },
                dto.member_uuids@.len(),
            ) == Some(e),
        },
{
    if dto.chat_type == ChatType::Direct && dto.member_uuids.len() != 1 {
        return Err(CreateChatError::DirectNeedsOneMember);
    }
    if dto.chat_type == ChatType::Group {
        let t = match &dto.name {
            Some(n) => trim(n.as_str()),
            None => trim(""),
        };
        if t.unicode_len() == 0 {
            return Err(CreateChatError::GroupNeedsName);
        }
    }
    Ok(())
}

impl CreateChatError {
    /// The i18n key of the message for this error.
    pub fn message_key(&self) -> (k: &'static str)
        ensures
            *self == CreateChatError::DirectNeedsOneMember ==> k@ == "messenger.direct_needs_one_member"@,
            *self == CreateChatError::GroupNeedsName ==> k@ == "messenger.group_needs_name"@,
    {
        match self {
            CreateChatError::DirectNeedsOneMember => "messenger.direct_needs_one_member",
            CreateChatError::GroupNeedsName => "messenger.group_needs_name",
        }
    }

    /// The request field that the error is reported under.
    pub fn field(&self) -> (f: &'static str)
        ensures
            *self == CreateChatError::DirectNeedsOneMember ==> f@ == "members"@,
            *self == CreateChatError::GroupNeedsName ==> f@ == "name"@,
    {
        match self {
            CreateChatError::DirectNeedsOneMember => "members",
            CreateChatError::GroupNeedsName => "name",
        }
    }
}

/// The requested members other than the creator, each as a plain member, in
/// the order requested.
pub open spec fn other_members(me: u128, requested: Seq<u128>) -> Seq<(u128, bool)>
    decreases requested.len(),
{
    if requested.len() == 0 {
        Seq::empty()
    } else if requested.last() != me {
        other_members(me, requested.drop_last()).push((requested.last(), false))
    } else {
        other_members(me, requested.drop_last())
    }
}

/// The members a new chat is created with: the creator as admin, then the
/// requested members other than the creator.
pub open spec fn initial_members(me: u128, requested: Seq<u128>) -> Seq<(u128, bool)> {
    seq![(me, true)] + other_members(me, requested)
}

/// What creating a valid chat request does next.
#[derive(Clone, Copy, Debug, PartialEq, Eq, Structural)]
pub enum ChatCreation {
    /// Look for a direct chat that the caller and `other` are both still in.
    FindDirect { other: u128 },
    /// Answer with this chat as it is (200): nothing is created.
    Reuse(u128),
    /// Create the chat with its members and answer with it (201).
    Create,
}

/// The first step of creating a chat from a request that
/// [`validate_create_chat`] accepted: a direct chat looks for one that
/// already exists with its one other member, a group is created.
pub fn chat_creation_start(dto: &CreateChatDTO) -> (a: ChatCreation)
    requires
        create_chat_problem(
            dto.chat_type,
            match dto.name { Some(n) => Some(n@), None => None },
            dto.member_uuids@.len(),
        ) is None,
    ensures
        a == (if dto.chat_type == ChatType::Direct {
            ChatCreation::FindDirect { other: dto.member_uuids@[0] }
        } else {
            ChatCreation::Create
        }),
{
    match dto.chat_type {
        ChatType::Direct => ChatCreation::FindDirect { other: dto.member_uuids[0] },
        ChatType::Group => ChatCreation::Create,
    }
}

/// After the search for an existing direct chat: a chat found is answered
/// as it is, and only when none is found is a new one created.
pub fn chat_creation_after_lookup(found: Option<u128>) -> (a: ChatCreation)
    ensures
        a == (match found {
            Some(c) => ChatCreation::Reuse(c),
            None => ChatCreation::Create,
        }),
{
    match found {
        Some(c) => ChatCreation::Reuse(c),
        None => ChatCreation::Create,
    }
}

/// Lists the (user, is_admin) pairs that a new chat is created with.
pub fn chat_members_to_add(me: u128, requested: &Vec<u128>) -> (r: Vec<(u128, bool)>)
    ensures
        r@ == initial_members(me, requested@),
{
    let mut r: Vec<(u128, bool)> = Vec::new();
    r.push((me, true));
    let mut i: usize = 0;
    while i < requested.len()
        invariant
            i <= requested@.len(),
            r@ == seq![(me, true)] + other_members(me, requested@.take(i as int)),
        decreases requested@.len() - i,
    {
        let uid = requested[i];
        assert(requested@.take(i as int + 1).drop_last() == requested@.take(i as int));
        if uid != me {
            r.push((uid, uid == me));
            assert(seq![(me, true)] + other_members(me, requested@.take(i as int)).push((uid, false))
                == (seq![(me, true)] + other_members(me, requested@.take(i as int))).push((uid, false)));
        }
        i = i + 1;
    }
    assert(requested@.take(requested@.len() as int) == requested@);
    r
}

proof fn lemma_other_members(me: u128, requested: Seq<u128>)
    ensures
        forall|j: int| 0 <= j < other_members(me, requested).len() ==>
            (#[trigger] other_members(me, requested)[j]).0 != me && !other_members(me, requested)[j].1,
        forall|j: int| 0 <= j < requested.len() && requested[j] != me ==>
            other_members(me, requested).contains((#[trigger] requested[j], false)),
    decreases requested.len(),
{
    if requested.len() > 0 {
        let p = requested.drop_last();
        lemma_other_members(me, p);
        let o = other_members(me, p);
        assert forall|j: int| 0 <= j < requested.len() && requested[j] != me implies
            other_members(me, requested).contains((#[trigger] requested[j], false)) by {
            if j < requested.len() - 1 {
                assert(p[j] == requested[j]);
                let k = choose|k: int| 0 <= k < o.len() && o[k] == (p[j], false);
                if requested.last() != me {
                    assert(o.push((requested.last(), false))[k] == (p[j], false));
                }
            } else {
                assert(o.push((requested.last(), false))[o.len() as int] == (requested[j], false));
            }
        }
        if requested.last() != me {
            assert forall|j: int| 0 <= j < o.push((requested.last(), false)).len() implies
                (#[trigger] o.push((requested.last(), false))[j]).0 != me
                    && !o.push((requested.last(), false))[j].1 by {
                if j < o.len() {
                    assert(o.push((requested.last(), false))[j] == o[j]);
                }
            }
        }
    }
}

/// A new chat has its creator first and as its only admin; every requested
/// member other than the creator is in it; the creator is in it once.
pub proof fn new_chat_members(me: u128, requested: Seq<u128>)
    ensures
        initial_members(me, requested)[0] == (me, true),
        forall|j: int| 1 <= j < initial_members(me, requested).len() ==>
            (#[trigger] initial_members(me, requested)[j]).0 != me && !initial_members(me, requested)[j].1,
        forall|j: int| 0 <= j < requested.len() && requested[j] != me ==>
            initial_members(me, requested).contains((#[trigger] requested[j], false)),
{
    lemma_other_members(me, requested);
    let o = other_members(me, requested);
    let m = initial_members(me, requested);
    assert forall|j: int| 1 <= j < m.len() implies (#[trigger] m[j]).0 != me && !m[j].1 by {
        assert(m[j] == o[j - 1]);
    }
    assert forall|j: int| 0 <= j < requested.len() && requested[j] != me implies
        m.contains((#[trigger] requested[j], false)) by {
        let k = choose|k: int| 0 <= k < o.len() && o[k] == (requested[j], false);
        assert(m[k + 1] == o[k]);
    }
}

/// What leaving a chat does.
#[derive(Clone, Copy, Debug, PartialEq, Eq, Structural)]
pub enum ChatExit {
    /// The creator leaves: the chat is deleted with everything in it.
    DeleteChat,
    /// Another member leaves: the membership is ended.
    Leave,
}

/// Leaving a chat deletes it when the one leaving created it.
pub fn chat_exit(is_creator: bool) -> (e: ChatExit)
    ensures
        is_creator <==> e == ChatExit::DeleteChat,
{
    if is_creator { ChatExit::DeleteChat } else { ChatExit::Leave }
}

/// A member may be removed by an admin of the chat, or by the member.
pub fn may_remove_member(me: u128, target: u128, caller_is_admin: bool) -> (b: bool)
    ensures
        b == (target == me || caller_is_admin),
{
    target == me || caller_is_admin
}

/// The chat that the API shows for a row: the other member (for a direct
/// chat, the person) becomes the `sender` preview with the given avatar and
/// presence, and an unknown last-seen time becomes `now`.
pub open spec fn chat_response_of(row: ChatRow, avatar: Option<MediaDTO>, is_online: bool, now: i64) -> ChatResponseDTO {
    ChatResponseDTO {
        uuid: row.uuid,
        name: row.name,
        description: row.description,
        chat_type: row.chat_type,
        created_by: row.created_by,
        is_archived: row.is_archived,
        created_at: row.created_at,
        updated_at: row.updated_at,
        last_message_body: row.last_message_body,
        last_message_at: row.last_message_at,
        unread_count: row.unread_count,
        member_count: row.member_count,
        sender: match row.sender_uuid {
            Some(u) => Some(UserPreviewDTO {
                uuid: u,
                first_name: row.sender_first_name,
                second_name: row.sender_second_name,
                avatar: avatar,
                is_online: is_online,
                last_seen_at: match row.sender_last_seen_at {
                    Some(t) => t,
                    None => now,
                },
            }),
            None => None,
        },
        alias: row.alias,
    }
}

/// The chat shown for a row keeps what the row says of it: its id, name,
/// description, type, creator, archived flag, times, last message, counts
/// and the caller's alias are the row's. The sender preview is there exactly
/// when the row names the other member, with the row's names, the given
/// avatar and presence, and the row's last-seen time, `now` when unknown.
pub proof fn chat_response_keeps_row(row: ChatRow, avatar: Option<MediaDTO>, is_online: bool, now: i64)
    ensures
        ({
            let d = chat_response_of(row, avatar, is_online, now);
            &&& d.uuid == row.uuid
            &&& d.name == row.name
            &&& d.description == row.description
            &&& d.chat_type == row.chat_type
            &&& d.created_by == row.created_by
            &&& d.is_archived == row.is_archived
            &&& d.created_at == row.created_at
            &&& d.updated_at == row.updated_at
            &&& d.last_message_body == row.last_message_body
            &&& d.last_message_at == row.last_message_at
            &&& d.unread_count == row.unread_count
            &&& d.member_count == row.member_count
            &&& d.alias == row.alias
            &&& (d.sender is Some <==> row.sender_uuid is Some)
            &&& (d.sender matches Some(p) ==> row.sender_uuid == Some(p.uuid)
                && p.first_name == row.sender_first_name
                && p.second_name == row.sender_second_name
                && p.avatar == avatar
                && p.is_online == is_online
                && p.last_seen_at == match row.sender_last_seen_at { Some(t) => t, None => now })
        }),
{
}

/// Builds the chat that the API shows from a row, the other member's avatar
/// and whether that member is online.
pub fn chat_response(row: ChatRow, avatar: Option<MediaDTO>, is_online: bool, now: i64) -> (d: ChatResponseDTO)
    ensures
        d == chat_response_of(row, avatar, is_online, now),
{
    let sender = match row.sender_uuid {
        Some(u) => Some(UserPreviewDTO {
            uuid: u,
            first_name: row.sender_first_name,
            second_name: row.sender_second_name,
            avatar: avatar,
            is_online: is_online,
            last_seen_at: match row.sender_last_seen_at {
                Some(t) => t,
                None => now,
            },
        }),
        None => None,
    };
    ChatResponseDTO {
        uuid: row.uuid,
        name: row.name,
        description: row.description,
        chat_type: row.chat_type,
        created_by: row.created_by,
        is_archived: row.is_archived,
        created_at: row.created_at,
        updated_at: row.updated_at,
        last_message_body: row.last_message_body,
        last_message_at: row.last_message_at,
        unread_count: row.unread_count,
        member_count: row.member_count,
        sender: sender,
        alias: row.alias,
    }
}

} // verus!
