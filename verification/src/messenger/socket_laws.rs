//! What each WebSocket action does, step by step, on the user socket and on
//! a chat's socket: which write it asks for, which event it makes of the
//! write's outcome, and who receives that event.

use vstd::prelude::*;
use crate::messenger::dto::{DeliveryStatus, MessageResponseDTO, WsClientAction, WsRoomAction, WsServerEvent};
use crate::messenger::socket::{
    chat_socket_next, in_room, is_invalid_json_error, user_socket_next, without, SocketAction, SocketEvent, SocketState,
};

verus! {

/// On the user socket, deleting a message: a member's request soft-deletes
/// that message; when the update touched a row, the chat's members are
/// fetched to be told `MessageDeleted` of that message and chat, and only
/// when it touched none does the handling stop without a word.
pub proof fn user_socket_delete(
    user: u128,
    chat: u128,
    uuid: u128,
    n: u64,
    r_start: (SocketState, SocketAction),
    r_member: (SocketState, SocketAction),
    r_write: (SocketState, SocketAction),
)
    requires
        user_socket_next(user, SocketState::Start, SocketEvent::Received(Some(WsClientAction::DeleteMessage { chat_uuid: chat, uuid })), r_start),
        user_socket_next(user, SocketState::AwaitMembership(WsClientAction::DeleteMessage { chat_uuid: chat, uuid }), SocketEvent::Membership(true), r_member),
        user_socket_next(user, SocketState::AwaitWrite(WsClientAction::DeleteMessage { chat_uuid: chat, uuid }), SocketEvent::Affected(n), r_write),
    ensures
        r_start.1 == (SocketAction::CheckMembership { chat_uuid: chat }),
        r_member.1 == (SocketAction::SoftDeleteMessage { uuid }),
        n >= 1 ==> r_write.1 == (SocketAction::FetchMembers { chat_uuid: chat })
            && r_write.0 == SocketState::AwaitMembers(WsServerEvent::MessageDeleted { uuid, chat_uuid: chat }, false),
        n == 0 ==> r_write.0 is Done && r_write.1 is Finish,
{
}

/// On the user socket, pinning: a member's request sets the flag; when the
/// update touched a row, the members are told `MessagePinned` with the
/// requested flag, and when it touched none nothing is said.
pub proof fn user_socket_pin(
    user: u128,
    chat: u128,
    uuid: u128,
    is_pinned: bool,
    n: u64,
    r_member: (SocketState, SocketAction),
    r_write: (SocketState, SocketAction),
)
    requires
        user_socket_next(
            user,
            SocketState::AwaitMembership(WsClientAction::TogglePinMessage { chat_uuid: chat, uuid, is_pinned }),
            SocketEvent::Membership(true),
            r_member,
        ),
        user_socket_next(
            user,
            SocketState::AwaitWrite(WsClientAction::TogglePinMessage { chat_uuid: chat, uuid, is_pinned }),
            SocketEvent::Affected(n),
            r_write,
        ),
    ensures
        r_member.1 == (SocketAction::SetPinned { chat_uuid: chat, uuid, is_pinned }),
        n >= 1 ==> r_write.1 == (SocketAction::FetchMembers { chat_uuid: chat })
            && r_write.0 == SocketState::AwaitMembers(WsServerEvent::MessagePinned { uuid, chat_uuid: chat, is_pinned }, false),
        n == 0 ==> r_write.0 is Done && r_write.1 is Finish,
{
}

/// On the user socket, reacting: a member's request toggles the reaction,
/// and the event sent to the members says what the toggle did (`is_added`
/// is the toggle's own result), from the sender, on that message of that
/// chat; a failed toggle says nothing.
pub proof fn user_socket_reaction(
    user: u128,
    chat: u128,
    message: u128,
    emoji: Seq<char>,
    e: String,
    outcome: Option<bool>,
    r_member: (SocketState, SocketAction),
    r_write: (SocketState, SocketAction),
)
    requires
        e@ == emoji,
        user_socket_next(
            user,
            SocketState::AwaitMembership(WsClientAction::ReactToMessage { chat_uuid: chat, message_uuid: message, emoji: e }),
            SocketEvent::Membership(true),
            r_member,
        ),
        user_socket_next(
            user,
            SocketState::AwaitWrite(WsClientAction::ReactToMessage { chat_uuid: chat, message_uuid: message, emoji: e }),
            SocketEvent::Reacted(outcome),
            r_write,
        ),
    ensures
        r_member.1 matches SocketAction::ToggleReaction { message_uuid, emoji: x } && message_uuid == message && x@ == emoji,
        outcome matches Some(b) ==> r_write.1 == (SocketAction::FetchMembers { chat_uuid: chat })
            && (r_write.0 matches SocketState::AwaitMembers(
                WsServerEvent::MessageReactionUpdated { chat_uuid, message_uuid, user_uuid, emoji: x, is_added },
                false,
            ) && chat_uuid == chat && message_uuid == message && user_uuid == user && x@ == emoji && is_added == b),
        outcome is None ==> r_write.0 is Done && r_write.1 is Finish,
{
}

/// On the user socket, sending: a member's message is inserted as written
/// in that chat; the stored message goes to the members as `NewMessage`, and
/// a failed insert is answered to the sender alone with an error.
pub proof fn user_socket_send(
    user: u128,
    chat: u128,
    body: String,
    reply_to: Option<u128>,
    media: Option<u128>,
    stored: Result<MessageResponseDTO, ()>,
    r_member: (SocketState, SocketAction),
    r_write: (SocketState, SocketAction),
)
    requires
        user_socket_next(
            user,
            SocketState::AwaitMembership(WsClientAction::SendMessage { chat_uuid: chat, body, reply_to_uuid: reply_to, media_uuid: media }),
            SocketEvent::Membership(true),
            r_member,
        ),
        user_socket_next(
            user,
            SocketState::AwaitWrite(WsClientAction::SendMessage { chat_uuid: chat, body, reply_to_uuid: reply_to, media_uuid: media }),
            SocketEvent::Sent(stored),
            r_write,
        ),
    ensures
        r_member.1 == (SocketAction::InsertMessage { chat_uuid: chat, body, reply_to_uuid: reply_to, media_uuid: media }),
        stored matches Ok(m) ==> r_write.1 == (SocketAction::FetchMembers { chat_uuid: chat })
            && r_write.0 == SocketState::AwaitMembers(WsServerEvent::NewMessage(m), false),
        stored is Err ==> r_write.0 is Done && (r_write.1 matches SocketAction::SendToSelf(WsServerEvent::Error { .. })),
{
}

/// On the user socket, editing: a member's request changes that message's
/// text; the edited message goes to the members as `MessageEdited`, and when
/// nothing was edited nothing is said.
pub proof fn user_socket_edit(
    user: u128,
    chat: u128,
    uuid: u128,
    body: String,
    edited: Option<MessageResponseDTO>,
    r_member: (SocketState, SocketAction),
    r_write: (SocketState, SocketAction),
)
    requires
        user_socket_next(
            user,
            SocketState::AwaitMembership(WsClientAction::EditMessage { chat_uuid: chat, uuid, body }),
            SocketEvent::Membership(true),
            r_member,
        ),
        user_socket_next(
            user,
            SocketState::AwaitWrite(WsClientAction::EditMessage { chat_uuid: chat, uuid, body }),
            SocketEvent::Edited(edited),
            r_write,
        ),
    ensures
        r_member.1 == (SocketAction::UpdateMessageBody { uuid, body }),
        edited matches Some(m) ==> r_write.1 == (SocketAction::FetchMembers { chat_uuid: chat })
            && r_write.0 == SocketState::AwaitMembers(WsServerEvent::MessageEdited(m), false),
        edited is None ==> r_write.0 is Done && r_write.1 is Finish,
{
}

/// On the user socket, marking a chat read or delivered needs no membership
/// check: the sender's statuses in that chat are written with that status,
/// and the members are told the sender's new status in that chat.
pub proof fn user_socket_marks(
    user: u128,
    chat: u128,
    read: bool,
    r_start: (SocketState, SocketAction),
    r_write: (SocketState, SocketAction),
)
    requires
        user_socket_next(
            user,
            SocketState::Start,
            SocketEvent::Received(Some(if read { WsClientAction::MarkRead { chat_uuid: chat } } else { WsClientAction::MarkDelivered { chat_uuid: chat } })),
            r_start,
        ),
        user_socket_next(
            user,
            SocketState::AwaitWrite(if read { WsClientAction::MarkRead { chat_uuid: chat } } else { WsClientAction::MarkDelivered { chat_uuid: chat } }),
            SocketEvent::StatusesWritten,
            r_write,
        ),
    ensures
        r_start.1 == (SocketAction::UpsertStatuses {
            chat_uuid: chat,
            status: if read { DeliveryStatus::Read } else { DeliveryStatus::Delivered },
        }),
        r_write.1 == (SocketAction::FetchMembers { chat_uuid: chat }),
        r_write.0 == SocketState::AwaitMembers(
            WsServerEvent::StatusUpdated {
                chat_uuid: chat,
                message_uuid: 0,
                user_uuid: user,
                status: if read { DeliveryStatus::Read } else { DeliveryStatus::Delivered },
            },
            false,
        ),
{
}

/// On the user socket, typing needs no membership check: the chat's members
/// are fetched to be told that the sender is, or stopped, typing there.
pub proof fn user_socket_typing(user: u128, chat: u128, is_typing: bool, r: (SocketState, SocketAction))
    requires
        user_socket_next(user, SocketState::Start, SocketEvent::Received(Some(WsClientAction::Typing { chat_uuid: chat, is_typing })), r),
    ensures
        r.1 == (SocketAction::FetchMembers { chat_uuid: chat }),
        r.0 == SocketState::AwaitMembers(WsServerEvent::Typing { chat_uuid: chat, user_uuid: user, is_typing }, false),
{
}

/// On the user socket, an event meant for every member goes, unchanged, to
/// exactly the members fetched, in their order.
pub proof fn user_socket_reaches_members(user: u128, e: WsServerEvent, members: Vec<u128>, r: (SocketState, SocketAction))
    requires
        user_socket_next(user, SocketState::AwaitMembers(e, false), SocketEvent::Members(members), r),
    ensures
        r.0 is Done,
        r.1 matches SocketAction::Broadcast { recipients, event } && recipients@ == members@ && event == e,
{
}

/// On a chat's socket, reacting: the toggle is asked for the message, and
/// what it did (`is_added` is its own result) is told, from the sender, in
/// the socket's chat, to the members and the room; a failed toggle gets an
/// empty answer.
pub proof fn chat_socket_reaction(
    user: u128,
    room: u128,
    message: u128,
    emoji: Seq<char>,
    e: String,
    outcome: Option<bool>,
    r_start: (SocketState, SocketAction),
    r_write: (SocketState, SocketAction),
)
    requires
        e@ == emoji,
        chat_socket_next(
            user,
            room,
            SocketState::Start,
            SocketEvent::RoomReceived(Some(WsRoomAction::ReactToMessage { message_uuid: message, emoji: e })),
            r_start,
        ),
        chat_socket_next(
            user,
            room,
            SocketState::AwaitWrite(in_room(room, WsRoomAction::ReactToMessage { message_uuid: message, emoji: e })),
            SocketEvent::Reacted(outcome),
            r_write,
        ),
    ensures
        r_start.1 matches SocketAction::ToggleReaction { message_uuid, emoji: x } && message_uuid == message && x@ == emoji,
        outcome matches Some(b) ==> r_write.1 == (SocketAction::FetchMembers { chat_uuid: room })
            && (r_write.0 matches SocketState::AwaitMembers(
                WsServerEvent::MessageReactionUpdated { chat_uuid, message_uuid, user_uuid, emoji: x, is_added },
                false,
            ) && chat_uuid == room && message_uuid == message && user_uuid == user && x@ == emoji && is_added == b),
        outcome is None ==> r_write == (SocketState::Done, SocketAction::Reply(None)),
{
}

/// On a chat's socket, deleting: the sender's message is soft-deleted, and
/// the room is told `MessageDeleted` of that message in the socket's chat
/// when the update touched a row, nothing when it touched none.
pub proof fn chat_socket_delete(
    user: u128,
    room: u128,
    uuid: u128,
    n: u64,
    r_start: (SocketState, SocketAction),
    r_write: (SocketState, SocketAction),
)
    requires
        chat_socket_next(user, room, SocketState::Start, SocketEvent::RoomReceived(Some(WsRoomAction::DeleteMessage { uuid })), r_start),
        chat_socket_next(
            user,
            room,
            SocketState::AwaitWrite(in_room(room, WsRoomAction::DeleteMessage { uuid })),
            SocketEvent::Affected(n),
            r_write,
        ),
    ensures
        r_start.1 == (SocketAction::SoftDeleteMessage { uuid }),
        r_write.0 is Done,
        n >= 1 ==> r_write.1 == SocketAction::Reply(Some(WsServerEvent::MessageDeleted { uuid, chat_uuid: room })),
        n == 0 ==> r_write.1 == SocketAction::Reply(None),
{
}

/// On a chat's socket, sending: the message is inserted as written in the
/// socket's chat; the stored message goes to the chat's members and the
/// room, exactly the members fetched; a failed insert gets an empty answer.
pub proof fn chat_socket_send(
    user: u128,
    room: u128,
    body: String,
    reply_to: Option<u128>,
    media: Option<u128>,
    stored: Result<MessageResponseDTO, ()>,
    members: Vec<u128>,
    r_start: (SocketState, SocketAction),
    r_write: (SocketState, SocketAction),
    r_members: (SocketState, SocketAction),
)
    requires
        chat_socket_next(
            user,
            room,
            SocketState::Start,
            SocketEvent::RoomReceived(Some(WsRoomAction::SendMessage { body, reply_to_uuid: reply_to, media_uuid: media })),
            r_start,
        ),
        chat_socket_next(
            user,
            room,
            SocketState::AwaitWrite(in_room(room, WsRoomAction::SendMessage { body, reply_to_uuid: reply_to, media_uuid: media })),
            SocketEvent::Sent(stored),
            r_write,
        ),
        stored matches Ok(m) ==> chat_socket_next(
            user,
            room,
            SocketState::AwaitMembers(WsServerEvent::NewMessage(m), false),
            SocketEvent::Members(members),
            r_members,
        ),
    ensures
        r_start.1 == (SocketAction::InsertMessage { chat_uuid: room, body, reply_to_uuid: reply_to, media_uuid: media }),
        stored matches Ok(m) ==> r_write.1 == (SocketAction::FetchMembers { chat_uuid: room })
            && r_write.0 == SocketState::AwaitMembers(WsServerEvent::NewMessage(m), false)
            && r_members.0 is Done
            && (r_members.1 matches SocketAction::BroadcastThenReply { recipients, event }
                && recipients@ == members@ && event == WsServerEvent::NewMessage(m)),
        stored is Err ==> r_write == (SocketState::Done, SocketAction::Reply(None)),
{
}

/// On a chat's socket, editing: the sender's message text is changed, and
/// the edited message is the room's answer; nothing edited, no answer.
pub proof fn chat_socket_edit(
    user: u128,
    room: u128,
    uuid: u128,
    body: String,
    edited: Option<MessageResponseDTO>,
    r_start: (SocketState, SocketAction),
    r_write: (SocketState, SocketAction),
)
    requires
        chat_socket_next(user, room, SocketState::Start, SocketEvent::RoomReceived(Some(WsRoomAction::EditMessage { uuid, body })), r_start),
        chat_socket_next(
            user,
            room,
            SocketState::AwaitWrite(in_room(room, WsRoomAction::EditMessage { uuid, body })),
            SocketEvent::Edited(edited),
            r_write,
        ),
    ensures
        r_start.1 == (SocketAction::UpdateMessageBody { uuid, body }),
        r_write.0 is Done,
        edited matches Some(m) ==> r_write.1 == SocketAction::Reply(Some(WsServerEvent::MessageEdited(m))),
        edited is None ==> r_write.1 == SocketAction::Reply(None),
{
}

/// On a chat's socket, marking read or delivered writes the sender's
/// statuses in the socket's chat, and the room is told the sender's new
/// status there.
pub proof fn chat_socket_marks(
    user: u128,
    room: u128,
    read: bool,
    r_start: (SocketState, SocketAction),
    r_write: (SocketState, SocketAction),
)
    requires
        chat_socket_next(
            user,
            room,
            SocketState::Start,
            SocketEvent::RoomReceived(Some(if read { WsRoomAction::MarkRead } else { WsRoomAction::MarkDelivered })),
            r_start,
        ),
        chat_socket_next(
            user,
            room,
            SocketState::AwaitWrite(in_room(room, if read { WsRoomAction::MarkRead } else { WsRoomAction::MarkDelivered })),
            SocketEvent::StatusesWritten,
            r_write,
        ),
    ensures
        r_start.1 == (SocketAction::UpsertStatuses {
            chat_uuid: room,
            status: if read { DeliveryStatus::Read } else { DeliveryStatus::Delivered },
        }),
        r_write == (
            SocketState::Done,
            SocketAction::Reply(Some(WsServerEvent::StatusUpdated {
                chat_uuid: room,
                message_uuid: 0,
                user_uuid: user,
                status: if read { DeliveryStatus::Read } else { DeliveryStatus::Delivered },
            })),
        ),
{
}

/// On a chat's socket, typing is answered at once to the room: the sender
/// is, or stopped, typing in the socket's chat.
pub proof fn chat_socket_typing(user: u128, room: u128, is_typing: bool, r: (SocketState, SocketAction))
    requires
        chat_socket_next(user, room, SocketState::Start, SocketEvent::RoomReceived(Some(WsRoomAction::Typing { is_typing })), r),
    ensures
        r == (SocketState::Done, SocketAction::Reply(Some(WsServerEvent::Typing { chat_uuid: room, user_uuid: user, is_typing }))),
{
}

/// On the user socket, a message that is not a valid action is answered to
/// its sender alone with the invalid-JSON error, and a ping with a pong.
pub proof fn user_socket_invalid_and_ping(user: u128, r_bad: (SocketState, SocketAction), r_ping: (SocketState, SocketAction))
    requires
        user_socket_next(user, SocketState::Start, SocketEvent::Received(None), r_bad),
        user_socket_next(user, SocketState::Start, SocketEvent::Received(Some(WsClientAction::Ping)), r_ping),
    ensures
        r_bad.0 is Done && (r_bad.1 matches SocketAction::SendToSelf(e) && is_invalid_json_error(e)),
        r_ping == (SocketState::Done, SocketAction::SendToSelf(WsServerEvent::Pong)),
{
}

proof fn lemma_without_members(l: Seq<u128>, u: u128)
    ensures
        forall|k: int| 0 <= k < without(l, u).len() ==> l.contains(#[trigger] without(l, u)[k]),
        !without(l, u).contains(u),
        forall|j: int| 0 <= j < l.len() && l[j] != u ==> without(l, u).contains(#[trigger] l[j]),
    decreases l.len(),
{
    if l.len() > 0 {
        let p = l.drop_last();
        lemma_without_members(p, u);
        let w = without(p, u);
        assert forall|k: int| 0 <= k < without(l, u).len() implies l.contains(#[trigger] without(l, u)[k]) by {
            if k < w.len() {
                assert(without(l, u)[k] == w[k]);
                let i = choose|i: int| 0 <= i < p.len() && p[i] == w[k];
                assert(l[i] == p[i]);
            } else {
                assert(without(l, u)[k] == l.last());
                assert(l[l.len() - 1] == l.last());
            }
        }
        if l.last() != u {
            assert forall|k: int| 0 <= k < w.push(l.last()).len() implies #[trigger] w.push(l.last())[k] != u by {
                if k < w.len() {
                    assert(w.push(l.last())[k] == w[k]);
                }
            }
        }
        assert forall|j: int| 0 <= j < l.len() && l[j] != u implies without(l, u).contains(#[trigger] l[j]) by {
            if j < l.len() - 1 {
                assert(p[j] == l[j]);
                let k = choose|k: int| 0 <= k < w.len() && w[k] == p[j];
                if l.last() != u {
                    assert(w.push(l.last())[k] == w[k]);
                }
            } else {
                assert(w.push(l.last())[w.len() as int] == l[j]);
            }
        }
    }
}

/// On the user socket, a call offer from a member goes, as an offer from
/// the sender with the sender's SDP in that chat, to every other current
/// member of the chat: the recipients are members, the sender is not among
/// them, and no other member is left out.
pub proof fn user_socket_call_offer(
    user: u128,
    chat: u128,
    sdp: String,
    members: Vec<u128>,
    r_member: (SocketState, SocketAction),
    r_send: (SocketState, SocketAction),
)
    requires
        user_socket_next(
            user,
            SocketState::AwaitMembership(WsClientAction::CallOffer { chat_uuid: chat, sdp }),
            SocketEvent::Membership(true),
            r_member,
        ),
        user_socket_next(
            user,
            SocketState::AwaitMembers(WsServerEvent::CallOffer { chat_uuid: chat, caller_uuid: user, sdp }, true),
            SocketEvent::Members(members),
            r_send,
        ),
    ensures
        r_member.1 == (SocketAction::FetchMembers { chat_uuid: chat }),
        r_member.0 == SocketState::AwaitMembers(WsServerEvent::CallOffer { chat_uuid: chat, caller_uuid: user, sdp }, true),
        r_send.0 is Done,
        r_send.1 matches SocketAction::Broadcast { recipients, event }
            && event == (WsServerEvent::CallOffer { chat_uuid: chat, caller_uuid: user, sdp })
            && !recipients@.contains(user)
            && (forall|k: int| 0 <= k < recipients@.len() ==> members@.contains(#[trigger] recipients@[k]))
            && (forall|j: int| 0 <= j < members@.len() && members@[j] != user ==> recipients@.contains(#[trigger] members@[j])),
{
    lemma_without_members(members@, user);
}

/// On a chat's socket, a message that is not a valid action is answered
/// with the invalid-JSON error, a ping with a pong, and the call signals and
/// pinning, which this socket does not handle, with nothing; none of them
/// writes anything.
pub proof fn chat_socket_unhandled(user: u128, room: u128, ra: WsRoomAction, r_bad: (SocketState, SocketAction), r: (SocketState, SocketAction))
    requires
        chat_socket_next(user, room, SocketState::Start, SocketEvent::RoomReceived(None), r_bad),
        chat_socket_next(user, room, SocketState::Start, SocketEvent::RoomReceived(Some(ra)), r),
        ra is Ping || ra is CallOffer || ra is CallAnswer || ra is IceCandidate || ra is CallReject || ra is CallEnd
            || ra is TogglePinMessage,
    ensures
        r_bad.0 is Done && (r_bad.1 matches SocketAction::Reply(Some(e)) && is_invalid_json_error(e)),
        ra is Ping ==> r == (SocketState::Done, SocketAction::Reply(Some(WsServerEvent::Pong))),
        !(ra is Ping) ==> r == (SocketState::Done, SocketAction::Reply(None)),
{
}

/// On a chat's socket, an event meant for the members goes, unchanged, to
/// exactly the members fetched, and back to the room.
pub proof fn chat_socket_reaches_members(
    user: u128,
    room: u128,
    e: WsServerEvent,
    members: Vec<u128>,
    r: (SocketState, SocketAction),
)
    requires
        chat_socket_next(user, room, SocketState::AwaitMembers(e, false), SocketEvent::Members(members), r),
    ensures
        r.0 is Done,
        r.1 matches SocketAction::BroadcastThenReply { recipients, event } && recipients@ == members@ && event == e,
{
}

/// On the user socket, every call signal from a member (answer, ICE
/// candidate, reject, end) becomes the matching event in that chat, authored
/// by the sender with the signal's own payload, and is meant for the other
/// members only.
pub proof fn user_socket_call_signals(user: u128, a: WsClientAction, r: (SocketState, SocketAction))
    requires
        a is CallAnswer || a is IceCandidate || a is CallReject || a is CallEnd,
        user_socket_next(user, SocketState::AwaitMembership(a), SocketEvent::Membership(true), r),
    ensures
        match a {
            WsClientAction::CallAnswer { chat_uuid, sdp } => r == (
                SocketState::AwaitMembers(WsServerEvent::CallAnswer { chat_uuid, responder_uuid: user, sdp }, true),
                SocketAction::FetchMembers { chat_uuid },
            ),
            WsClientAction::IceCandidate { chat_uuid, candidate, sdp_mid, sdp_m_line_index } => r == (
                SocketState::AwaitMembers(
                    WsServerEvent::IceCandidate { chat_uuid, sender_uuid: user, candidate, sdp_mid, sdp_m_line_index },
                    true,
                ),
                SocketAction::FetchMembers { chat_uuid },
            ),
            WsClientAction::CallReject { chat_uuid } => r == (
                SocketState::AwaitMembers(WsServerEvent::CallReject { chat_uuid, user_uuid: user }, true),
                SocketAction::FetchMembers { chat_uuid },
            ),
            WsClientAction::CallEnd { chat_uuid } => r == (
                SocketState::AwaitMembers(WsServerEvent::CallEnd { chat_uuid, user_uuid: user }, true),
                SocketAction::FetchMembers { chat_uuid },
            ),
            _ => false,
        },
{
}

/// On the user socket, an event meant for the other members goes, unchanged,
/// to the fetched members other than the sender, and to nobody else.
pub proof fn user_socket_skips_sender(user: u128, e: WsServerEvent, members: Vec<u128>, r: (SocketState, SocketAction))
    requires
        user_socket_next(user, SocketState::AwaitMembers(e, true), SocketEvent::Members(members), r),
    ensures
        r.0 is Done,
        r.1 matches SocketAction::Broadcast { recipients, event }
            && event == e
            && !recipients@.contains(user)
            && (forall|k: int| 0 <= k < recipients@.len() ==> members@.contains(#[trigger] recipients@[k]))
            && (forall|j: int| 0 <= j < members@.len() && members@[j] != user ==> recipients@.contains(#[trigger] members@[j])),
{
    lemma_without_members(members@, user);
}

} // verus!
