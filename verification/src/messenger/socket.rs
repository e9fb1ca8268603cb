//! The WebSocket protocol. A client message is handled in a few steps: the
//! server asks the database or the channels, hands back what it got, and
//! these functions decide the next step. There are two sockets: the global
//! one of a user (`/ws/user`), and the older one of a chat (`/ws/chats/..`)
//! whose answers go to everybody connected to that chat.

use vstd::prelude::*;
use crate::messenger::dto::{DeliveryStatus, MessageResponseDTO, WsClientAction, WsRoomAction, WsServerEvent};

verus! {

/// Where the handling of one client message stands.
pub enum SocketState {
    /// The client's message has not been looked at.
    Start,
    /// Waiting to know whether the sender is a member of the action's chat.
    AwaitMembership(WsClientAction),
    /// Waiting for the database write of the action.
    AwaitWrite(WsClientAction),
    /// Waiting for the chat's members, to send them the event; `true` leaves
    /// the sender out.
    AwaitMembers(WsServerEvent, bool),
    /// Nothing is left to do.
    Done,
}

/// What the server hands back.
pub enum SocketEvent {
    /// The client's message on the user socket, or `None` where it is not a
    /// valid action.
    Received(Option<WsClientAction>),
    /// The client's message on a chat's socket, or `None` where it is not a
    /// valid action.
    RoomReceived(Option<WsRoomAction>),
    /// Whether the sender is a current member (a failed query counts as no).
    Membership(bool),
    /// The inserted message, read back and mapped; `Err` when the insert
    /// failed.
    Sent(Result<MessageResponseDTO, ()>),
    /// The edited message; `None` when no message was edited or the update
    /// failed.
    Edited(Option<MessageResponseDTO>),
    /// The rows an update touched (0 when it failed).
    Affected(u64),
    /// The delivery statuses have been written (a failure is ignored).
    StatusesWritten,
    /// Whether the reaction was added (`Some(false)`: removed); `None` when
    /// the toggle failed.
    Reacted(Option<bool>),
    /// The current members of the chat (empty when the query failed).
    Members(Vec<u128>),
}

/// What the server does next.
pub enum SocketAction {
    /// Ask whether the sender is a current member of the chat.
    CheckMembership { chat_uuid: u128 },
    /// Insert a message from the sender.
    InsertMessage { chat_uuid: u128, body: String, reply_to_uuid: Option<u128>, media_uuid: Option<u128> },
    /// Replace the text of one of the sender's messages that is not deleted
    /// (the edited flag is set).
    UpdateMessageBody { uuid: u128, body: String },
    /// Delete one of the sender's messages (flag it and empty its text).
    SoftDeleteMessage { uuid: u128 },
    /// Mark every message of the chat from somebody else as delivered to, or
    /// read by, the sender.
    UpsertStatuses { chat_uuid: u128, status: DeliveryStatus },
    /// Toggle the sender's reaction to a message.
    ToggleReaction { message_uuid: u128, emoji: String },
    /// Pin or unpin a message of the chat.
    SetPinned { chat_uuid: u128, uuid: u128, is_pinned: bool },
    /// Ask for the current members of the chat.
    FetchMembers { chat_uuid: u128 },
    /// Send the event to each of these users' global channels.
    Broadcast { recipients: Vec<u128>, event: WsServerEvent },
    /// Send the event to each of these users' global channels, and answer
    /// the chat's room with it.
    BroadcastThenReply { recipients: Vec<u128>, event: WsServerEvent },
    /// Send the event to the sender alone.
    SendToSelf(WsServerEvent),
    /// Answer the chat's room with this event, or with nothing.
    Reply(Option<WsServerEvent>),
    /// Stop without sending anything.
    Finish,
}

/// The answer to a message that is not a valid action.
pub open spec fn is_invalid_json_error(e: WsServerEvent) -> bool {
    e matches WsServerEvent::Error { message } && message@
        == "Invalid JSON. Expected {\"action\":\"...\",\"payload\":{...}}"@
}

/// The answer to a message sent to a chat that the sender is not in.
pub open spec fn is_not_member_error(e: WsServerEvent) -> bool {
    e matches WsServerEvent::Error { message } && message@ == "You are not a member of this chat"@
}

/// The answer to a message that could not be stored.
pub open spec fn is_send_failed_error(e: WsServerEvent) -> bool {
    e matches WsServerEvent::Error { message } && message@ == "Database error while sending message"@
}

/// The chat that an action is about.
pub open spec fn action_chat(a: WsClientAction) -> Option<u128> {
    match a {
        WsClientAction::SendMessage { chat_uuid, .. } => Some(chat_uuid),
        WsClientAction::EditMessage { chat_uuid, .. } => Some(chat_uuid),
        WsClientAction::DeleteMessage { chat_uuid, .. } => Some(chat_uuid),
        WsClientAction::MarkDelivered { chat_uuid } => Some(chat_uuid),
        WsClientAction::MarkRead { chat_uuid } => Some(chat_uuid),
        WsClientAction::ReactToMessage { chat_uuid, .. } => Some(chat_uuid),
        WsClientAction::Typing { chat_uuid, .. } => Some(chat_uuid),
        WsClientAction::Ping => None,
        WsClientAction::CallOffer { chat_uuid, .. } => Some(chat_uuid),
        WsClientAction::CallAnswer { chat_uuid, .. } => Some(chat_uuid),
        WsClientAction::IceCandidate { chat_uuid, .. } => Some(chat_uuid),
        WsClientAction::CallReject { chat_uuid } => Some(chat_uuid),
        WsClientAction::CallEnd { chat_uuid } => Some(chat_uuid),
        WsClientAction::TogglePinMessage { chat_uuid, .. } => Some(chat_uuid),
    }
}

/// On the user socket, every action but marking delivered or read, typing
/// and ping is refused to a sender who is not a member of its chat.
pub open spec fn needs_membership(a: WsClientAction) -> bool {
    !(a is MarkDelivered || a is MarkRead || a is Typing || a is Ping)
}

/// The call-signalling actions, whose events are not sent back to their
/// sender.
pub open spec fn is_call_signal(a: WsClientAction) -> bool {
    a is CallOffer || a is CallAnswer || a is IceCandidate || a is CallReject || a is CallEnd
}

/// How many steps at most remain from a state.
pub open spec fn steps_left(s: SocketState) -> nat {
    match s {
        SocketState::Start => 4,
        SocketState::AwaitMembership(_) => 3,
        SocketState::AwaitWrite(_) => 2,
        SocketState::AwaitMembers(_, _) => 1,
        SocketState::Done => 0,
    }
}

/// The events that can answer an action in a state.
pub open spec fn socket_event_fits(state: SocketState, event: SocketEvent) -> bool {
    match state {
        SocketState::Start => event is Received,
        SocketState::AwaitMembership(_) => event is Membership,
        SocketState::AwaitWrite(a) => match a {
            WsClientAction::SendMessage { .. } => event is Sent,
            WsClientAction::EditMessage { .. } => event is Edited,
            WsClientAction::DeleteMessage { .. } => event is Affected,
            WsClientAction::TogglePinMessage { .. } => event is Affected,
            WsClientAction::MarkDelivered { .. } => event is StatusesWritten,
            WsClientAction::MarkRead { .. } => event is StatusesWritten,
            WsClientAction::ReactToMessage { .. } => event is Reacted,
            _ => false,
        },
        SocketState::AwaitMembers(_, _) => event is Members,
        SocketState::Done => false,
    }
}

/// `l` without any `u`, in order.
pub open spec fn without(l: Seq<u128>, u: u128) -> Seq<u128>
    decreases l.len(),
{
    if l.len() == 0 {
        Seq::empty()
    } else if l.last() == u {
        without(l.drop_last(), u)
    } else {
        without(l.drop_last(), u).push(l.last())
    }
}

/// Removes every `u` from a list of users.
pub fn remove_user(l: Vec<u128>, u: u128) -> (r: Vec<u128>)
    ensures
        r@ == without(l@, u),
{
    let mut r: Vec<u128> = Vec::new();
    let mut i: usize = 0;
    while i < l.len()
        invariant
            i <= l@.len(),
            r@ == without(l@.take(i as int), u),
        decreases l@.len() - i,
    {
        assert(l@.take(i as int + 1).drop_last() == l@.take(i as int));
        if l[i] != u {
            r.push(l[i]);
        }
        i = i + 1;
    }
    assert(l@.take(l@.len() as int) == l@);
    r
}

proof fn lemma_without(l: Seq<u128>, u: u128)
    ensures
        !without(l, u).contains(u),
        forall|j: int| 0 <= j < l.len() && l[j] != u ==> without(l, u).contains(#[trigger] l[j]),
    decreases l.len(),
{
    if l.len() > 0 {
        let p = l.drop_last();
        lemma_without(p, u);
        let w = without(p, u);
        if l.last() != u {
            assert forall|k: int| 0 <= k < w.push(l.last()).len() implies #[trigger] w.push(l.last())[k] != u by {
                if k < w.len() {
                    assert(w.push(l.last())[k] == w[k]);
                    assert(!w.contains(u));
                }
            }
        }
        assert forall|j: int| 0 <= j < l.len() && l[j] != u implies without(l, u).contains(#[trigger] l[j]) by {
            if j < l.len() - 1 {
                assert(p[j] == l[j]);
                let k = choose|k: int| 0 <= k < w.len() && w[k] == p[j];
                if l.last() != u {
                    assert(w.push(l.last())[k] == w[k]);
                }
            } else {
                assert(w.push(l.last())[w.len() as int] == l[j]);
            }
        }
    }
}


/// One step on the user socket of `user`.
pub open spec fn user_socket_next(user: u128, state: SocketState, event: SocketEvent, r: (SocketState, SocketAction)) -> bool {
    match state {
        SocketState::Start => match event {
            SocketEvent::Received(None) => r.0 is Done && (r.1 matches SocketAction::SendToSelf(e) && is_invalid_json_error(e)),
            SocketEvent::Received(Some(a)) => match a {
                WsClientAction::MarkDelivered { chat_uuid } => r == (
                    SocketState::AwaitWrite(a),
                    SocketAction::UpsertStatuses { chat_uuid, status: DeliveryStatus::Delivered },
                ),
                WsClientAction::MarkRead { chat_uuid } => r == (
                    SocketState::AwaitWrite(a),
                    SocketAction::UpsertStatuses { chat_uuid, status: DeliveryStatus::Read },
                ),
                WsClientAction::Typing { chat_uuid, is_typing } => r == (
                    SocketState::AwaitMembers(WsServerEvent::Typing { chat_uuid, user_uuid: user, is_typing }, false),
                    SocketAction::FetchMembers { chat_uuid },
                ),
                WsClientAction::Ping => r == (SocketState::Done, SocketAction::SendToSelf(WsServerEvent::Pong)),
                _ => r == (
                    SocketState::AwaitMembership(a),
                    SocketAction::CheckMembership { chat_uuid: action_chat(a).unwrap() },
                ),
            },
            _ => false,
        },
        SocketState::AwaitMembership(a) => match event {
            SocketEvent::Membership(false) => r.0 is Done && if a is SendMessage {
                r.1 matches SocketAction::SendToSelf(e) && is_not_member_error(e)
            } else {
                r.1 is Finish
            },
            SocketEvent::Membership(true) => match a {
                WsClientAction::SendMessage { chat_uuid, body, reply_to_uuid, media_uuid } => r == (
                    SocketState::AwaitWrite(a),
                    SocketAction::InsertMessage { chat_uuid, body, reply_to_uuid, media_uuid },
                ),
                WsClientAction::EditMessage { uuid, body, .. } => r == (
                    SocketState::AwaitWrite(a),
                    SocketAction::UpdateMessageBody { uuid, body },
                ),
                WsClientAction::DeleteMessage { uuid, .. } => r == (
                    SocketState::AwaitWrite(a),
                    SocketAction::SoftDeleteMessage { uuid },
                ),
                WsClientAction::ReactToMessage { message_uuid, emoji, .. } => r == (
                    SocketState::AwaitWrite(a),
                    SocketAction::ToggleReaction { message_uuid, emoji },
                ),
                WsClientAction::TogglePinMessage { chat_uuid, uuid, is_pinned } => r == (
                    SocketState::AwaitWrite(a),
                    SocketAction::SetPinned { chat_uuid, uuid, is_pinned },
                ),
                WsClientAction::CallOffer { chat_uuid, sdp } => r == (
                    SocketState::AwaitMembers(WsServerEvent::CallOffer { chat_uuid, caller_uuid: user, sdp }, true),
                    SocketAction::FetchMembers { chat_uuid },
                ),
                WsClientAction::CallAnswer { chat_uuid, sdp } => r == (
                    SocketState::AwaitMembers(WsServerEvent::CallAnswer { chat_uuid, responder_uuid: user, sdp }, true),
                    SocketAction::FetchMembers { chat_uuid },
                ),
                WsClientAction::IceCandidate { chat_uuid, candidate, sdp_mid, sdp_m_line_index } => r == (
                    SocketState::AwaitMembers(
                        WsServerEvent::IceCandidate { chat_uuid, sender_uuid: user, candidate, sdp_mid, sdp_m_line_index },
                        true,
                    ),
                    SocketAction::FetchMembers { chat_uuid },
                ),
                WsClientAction::CallReject { chat_uuid } => r == (
                    SocketState::AwaitMembers(WsServerEvent::CallReject { chat_uuid, user_uuid: user }, true),
                    SocketAction::FetchMembers { chat_uuid },
                ),
                WsClientAction::CallEnd { chat_uuid } => r == (
                    SocketState::AwaitMembers(WsServerEvent::CallEnd { chat_uuid, user_uuid: user }, true),
                    SocketAction::FetchMembers { chat_uuid },
                ),
                _ => r.0 is Done && r.1 is Finish,
            },
            _ => false,
        },
        SocketState::AwaitWrite(a) => match a {
            WsClientAction::SendMessage { chat_uuid, .. } => match event {
                SocketEvent::Sent(Ok(m)) => r == (
                    SocketState::AwaitMembers(WsServerEvent::NewMessage(m), false),
                    SocketAction::FetchMembers { chat_uuid },
                ),
                _ => r.0 is Done && (r.1 matches SocketAction::SendToSelf(e) && is_send_failed_error(e)),
            },
            WsClientAction::EditMessage { chat_uuid, .. } => match event {
                SocketEvent::Edited(Some(m)) => r == (
                    SocketState::AwaitMembers(WsServerEvent::MessageEdited(m), false),
                    SocketAction::FetchMembers { chat_uuid },
                ),
                _ => r.0 is Done && r.1 is Finish,
            },
            WsClientAction::DeleteMessage { chat_uuid, uuid } => match event {
                SocketEvent::Affected(n) => if n > 0 {
                    r == (
                        SocketState::AwaitMembers(WsServerEvent::MessageDeleted { uuid, chat_uuid }, false),
                        SocketAction::FetchMembers { chat_uuid },
                    )
                } else {
                    r.0 is Done && r.1 is Finish
                },
                _ => false,
            },
            WsClientAction::TogglePinMessage { chat_uuid, uuid, is_pinned } => match event {
                SocketEvent::Affected(n) => if n > 0 {
                    r == (
                        SocketState::AwaitMembers(WsServerEvent::MessagePinned { uuid, chat_uuid, is_pinned }, false),
                        SocketAction::FetchMembers { chat_uuid },
                    )
                } else {
                    r.0 is Done && r.1 is Finish
                },
                _ => false,
            },
            WsClientAction::MarkDelivered { chat_uuid } => r == (
                SocketState::AwaitMembers(
                    WsServerEvent::StatusUpdated { chat_uuid, message_uuid: 0, user_uuid: user, status: DeliveryStatus::Delivered },
                    false,
                ),
                SocketAction::FetchMembers { chat_uuid },
            ),
            WsClientAction::MarkRead { chat_uuid } => r == (
                SocketState::AwaitMembers(
                    WsServerEvent::StatusUpdated { chat_uuid, message_uuid: 0, user_uuid: user, status: DeliveryStatus::Read },
                    false,
                ),
                SocketAction::FetchMembers { chat_uuid },
            ),
            WsClientAction::ReactToMessage { chat_uuid, message_uuid, emoji } => match event {
                SocketEvent::Reacted(Some(is_added)) => r == (
                    SocketState::AwaitMembers(
                        WsServerEvent::MessageReactionUpdated { chat_uuid, message_uuid, user_uuid: user, emoji, is_added },
                        false,
                    ),
                    SocketAction::FetchMembers { chat_uuid },
                ),
                _ => r.0 is Done && r.1 is Finish,
            },
            _ => false,
        },
        SocketState::AwaitMembers(e, skip_sender) => match event {
            SocketEvent::Members(l) => r.0 is Done && (r.1 matches SocketAction::Broadcast { recipients, event }
                && event == e && recipients@ == if skip_sender { without(l@, user) } else { l@ }),
            _ => false,
        },
        SocketState::Done => false,
    }
}

fn error_event(text: &str) -> (e: WsServerEvent)
    ensures
        e matches WsServerEvent::Error { message } && message@ == text@,
{
    WsServerEvent::Error { message: String::from_str(text) }
}

fn chat_of(a: &WsClientAction) -> (c: u128)
    requires
        !(a is Ping),
    ensures
        action_chat(*a) == Some(c),
{
    match a {
        WsClientAction::SendMessage { chat_uuid, .. } => *chat_uuid,
        WsClientAction::EditMessage { chat_uuid, .. } => *chat_uuid,
        WsClientAction::DeleteMessage { chat_uuid, .. } => *chat_uuid,
        WsClientAction::MarkDelivered { chat_uuid } => *chat_uuid,
        WsClientAction::MarkRead { chat_uuid } => *chat_uuid,
        WsClientAction::ReactToMessage { chat_uuid, .. } => *chat_uuid,
        WsClientAction::Typing { chat_uuid, .. } => *chat_uuid,
        WsClientAction::Ping => 0,
        WsClientAction::CallOffer { chat_uuid, .. } => *chat_uuid,
        WsClientAction::CallAnswer { chat_uuid, .. } => *chat_uuid,
        WsClientAction::IceCandidate { chat_uuid, .. } => *chat_uuid,
        WsClientAction::CallReject { chat_uuid } => *chat_uuid,
        WsClientAction::CallEnd { chat_uuid } => *chat_uuid,
        WsClientAction::TogglePinMessage { chat_uuid, .. } => *chat_uuid,
    }
}

/// One step of handling a client message on the global socket of `user`.
pub fn user_socket_step(user: u128, state: SocketState, event: SocketEvent) -> (r: (SocketState, SocketAction))
    requires
        socket_event_fits(state, event),
    ensures
        user_socket_next(user, state, event, r),
        steps_left(r.0) < steps_left(state),
{
    match state {
        SocketState::Start => match event {
            SocketEvent::Received(None) => (
                SocketState::Done,
                SocketAction::SendToSelf(error_event("Invalid JSON. Expected {\"action\":\"...\",\"payload\":{...}}")),
            ),
            SocketEvent::Received(Some(a)) => match a {
                WsClientAction::MarkDelivered { chat_uuid } => (
                    SocketState::AwaitWrite(a),
                    SocketAction::UpsertStatuses { chat_uuid, status: DeliveryStatus::Delivered },
                ),
                WsClientAction::MarkRead { chat_uuid } => (
                    SocketState::AwaitWrite(a),
                    SocketAction::UpsertStatuses { chat_uuid, status: DeliveryStatus::Read },
                ),
                WsClientAction::Typing { chat_uuid, is_typing } => (
                    SocketState::AwaitMembers(WsServerEvent::Typing { chat_uuid, user_uuid: user, is_typing }, false),
                    SocketAction::FetchMembers { chat_uuid },
                ),
                WsClientAction::Ping => (SocketState::Done, SocketAction::SendToSelf(WsServerEvent::Pong)),
                _ => {
                    let chat_uuid = chat_of(&a);
                    (SocketState::AwaitMembership(a), SocketAction::CheckMembership { chat_uuid })
                },
            },
            _ => (SocketState::Done, SocketAction::Finish),
        },
        SocketState::AwaitMembership(a) => match event {
            SocketEvent::Membership(false) => {
                if let WsClientAction::SendMessage { .. } = a {
                    (SocketState::Done, SocketAction::SendToSelf(error_event("You are not a member of this chat")))
                } else {
                    (SocketState::Done, SocketAction::Finish)
                }
            },
            SocketEvent::Membership(true) => match a {
                WsClientAction::SendMessage { chat_uuid, body, reply_to_uuid, media_uuid } => {
                    let action = SocketAction::InsertMessage { chat_uuid, body: body.clone(), reply_to_uuid, media_uuid };
                    (SocketState::AwaitWrite(WsClientAction::SendMessage { chat_uuid, body, reply_to_uuid, media_uuid }), action)
                },
                WsClientAction::EditMessage { chat_uuid, uuid, body } => {
                    let action = SocketAction::UpdateMessageBody { uuid, body: body.clone() };
                    (SocketState::AwaitWrite(WsClientAction::EditMessage { chat_uuid, uuid, body }), action)
                },
                WsClientAction::DeleteMessage { chat_uuid, uuid } => (
                    SocketState::AwaitWrite(WsClientAction::DeleteMessage { chat_uuid, uuid }),
                    SocketAction::SoftDeleteMessage { uuid },
                ),
                WsClientAction::ReactToMessage { chat_uuid, message_uuid, emoji } => {
                    let action = SocketAction::ToggleReaction { message_uuid, emoji: emoji.clone() };
                    (SocketState::AwaitWrite(WsClientAction::ReactToMessage { chat_uuid, message_uuid, emoji }), action)
                },
                WsClientAction::TogglePinMessage { chat_uuid, uuid, is_pinned } => (
                    SocketState::AwaitWrite(WsClientAction::TogglePinMessage { chat_uuid, uuid, is_pinned }),
                    SocketAction::SetPinned { chat_uuid, uuid, is_pinned },
                ),
                WsClientAction::CallOffer { chat_uuid, sdp } => (
                    SocketState::AwaitMembers(WsServerEvent::CallOffer { chat_uuid, caller_uuid: user, sdp }, true),
                    SocketAction::FetchMembers { chat_uuid },
                ),
                WsClientAction::CallAnswer { chat_uuid, sdp } => (
                    SocketState::AwaitMembers(WsServerEvent::CallAnswer { chat_uuid, responder_uuid: user, sdp }, true),
                    SocketAction::FetchMembers { chat_uuid },
                ),
                WsClientAction::IceCandidate { chat_uuid, candidate, sdp_mid, sdp_m_line_index } => (
                    SocketState::AwaitMembers(
                        WsServerEvent::IceCandidate { chat_uuid, sender_uuid: user, candidate, sdp_mid, sdp_m_line_index },
                        true,
                    ),
                    SocketAction::FetchMembers { chat_uuid },
                ),
                WsClientAction::CallReject { chat_uuid } => (
                    SocketState::AwaitMembers(WsServerEvent::CallReject { chat_uuid, user_uuid: user }, true),
                    SocketAction::FetchMembers { chat_uuid },
                ),
                WsClientAction::CallEnd { chat_uuid } => (
                    SocketState::AwaitMembers(WsServerEvent::CallEnd { chat_uuid, user_uuid: user }, true),
                    SocketAction::FetchMembers { chat_uuid },
                ),
                _ => (SocketState::Done, SocketAction::Finish),
            },
            _ => (SocketState::Done, SocketAction::Finish),
        },
        SocketState::AwaitWrite(a) => match a {
            WsClientAction::SendMessage { chat_uuid, .. } => match event {
                SocketEvent::Sent(Ok(m)) => (
                    SocketState::AwaitMembers(WsServerEvent::NewMessage(m), false),
                    SocketAction::FetchMembers { chat_uuid },
                ),
                _ => (SocketState::Done, SocketAction::SendToSelf(error_event("Database error while sending message"))),
            },
            WsClientAction::EditMessage { chat_uuid, .. } => match event {
                SocketEvent::Edited(Some(m)) => (
                    SocketState::AwaitMembers(WsServerEvent::MessageEdited(m), false),
                    SocketAction::FetchMembers { chat_uuid },
                ),
                _ => (SocketState::Done, SocketAction::Finish),
            },
            WsClientAction::DeleteMessage { chat_uuid, uuid } => match event {
                SocketEvent::Affected(n) => if n > 0 {
                    (
                        SocketState::AwaitMembers(WsServerEvent::MessageDeleted { uuid, chat_uuid }, false),
                        SocketAction::FetchMembers { chat_uuid },
                    )
                } else {
                    (SocketState::Done, SocketAction::Finish)
                },
                _ => (SocketState::Done, SocketAction::Finish),
            },
            WsClientAction::TogglePinMessage { chat_uuid, uuid, is_pinned } => match event {
                SocketEvent::Affected(n) => if n > 0 {
                    (
                        SocketState::AwaitMembers(WsServerEvent::MessagePinned { uuid, chat_uuid, is_pinned }, false),
                        SocketAction::FetchMembers { chat_uuid },
                    )
                } else {
                    (SocketState::Done, SocketAction::Finish)
                },
                _ => (SocketState::Done, SocketAction::Finish),
            },
            WsClientAction::MarkDelivered { chat_uuid } => (
                SocketState::AwaitMembers(
                    WsServerEvent::StatusUpdated { chat_uuid, message_uuid: 0, user_uuid: user, status: DeliveryStatus::Delivered },
                    false,
                ),
                SocketAction::FetchMembers { chat_uuid },
            ),
            WsClientAction::MarkRead { chat_uuid } => (
                SocketState::AwaitMembers(
                    WsServerEvent::StatusUpdated { chat_uuid, message_uuid: 0, user_uuid: user, status: DeliveryStatus::Read },
                    false,
                ),
                SocketAction::FetchMembers { chat_uuid },
            ),
            WsClientAction::ReactToMessage { chat_uuid, message_uuid, emoji } => match event {
                SocketEvent::Reacted(Some(is_added)) => (
                    SocketState::AwaitMembers(
                        WsServerEvent::MessageReactionUpdated { chat_uuid, message_uuid, user_uuid: user, emoji, is_added },
                        false,
                    ),
                    SocketAction::FetchMembers { chat_uuid },
                ),
                _ => (SocketState::Done, SocketAction::Finish),
            },
            _ => (SocketState::Done, SocketAction::Finish),
        },
        SocketState::AwaitMembers(e, skip_sender) => match event {
            SocketEvent::Members(l) => {
                let recipients = if skip_sender { remove_user(l, user) } else { l };
                (SocketState::Done, SocketAction::Broadcast { recipients, event: e })
            },
            _ => (SocketState::Done, SocketAction::Finish),
        },
        SocketState::Done => (SocketState::Done, SocketAction::Finish),
    }
}


/// The action of the user socket that a chat socket's action stands for in
/// the chat `room`.
pub open spec fn in_room(room: u128, ra: WsRoomAction) -> WsClientAction {
    match ra {
        WsRoomAction::SendMessage { body, reply_to_uuid, media_uuid } =>
            WsClientAction::SendMessage { chat_uuid: room, body, reply_to_uuid, media_uuid },
        WsRoomAction::EditMessage { uuid, body } => WsClientAction::EditMessage { chat_uuid: room, uuid, body },
        WsRoomAction::DeleteMessage { uuid } => WsClientAction::DeleteMessage { chat_uuid: room, uuid },
        WsRoomAction::MarkDelivered => WsClientAction::MarkDelivered { chat_uuid: room },
        WsRoomAction::MarkRead => WsClientAction::MarkRead { chat_uuid: room },
        WsRoomAction::ReactToMessage { message_uuid, emoji } =>
            WsClientAction::ReactToMessage { chat_uuid: room, message_uuid, emoji },
        WsRoomAction::Typing { is_typing } => WsClientAction::Typing { chat_uuid: room, is_typing },
        WsRoomAction::Ping => WsClientAction::Ping,
        WsRoomAction::CallOffer { sdp } => WsClientAction::CallOffer { chat_uuid: room, sdp },
        WsRoomAction::CallAnswer { sdp } => WsClientAction::CallAnswer { chat_uuid: room, sdp },
        WsRoomAction::IceCandidate { candidate, sdp_mid, sdp_m_line_index } =>
            WsClientAction::IceCandidate { chat_uuid: room, candidate, sdp_mid, sdp_m_line_index },
        WsRoomAction::CallReject => WsClientAction::CallReject { chat_uuid: room },
        WsRoomAction::CallEnd => WsClientAction::CallEnd { chat_uuid: room },
        WsRoomAction::TogglePinMessage { uuid, is_pinned } =>
            WsClientAction::TogglePinMessage { chat_uuid: room, uuid, is_pinned },
    }
}

/// Builds [`in_room`].
pub fn room_action(room: u128, ra: WsRoomAction) -> (a: WsClientAction)
    ensures
        a == in_room(room, ra),
{
    match ra {
        WsRoomAction::SendMessage { body, reply_to_uuid, media_uuid } =>
            WsClientAction::SendMessage { chat_uuid: room, body, reply_to_uuid, media_uuid },
        WsRoomAction::EditMessage { uuid, body } => WsClientAction::EditMessage { chat_uuid: room, uuid, body },
        WsRoomAction::DeleteMessage { uuid } => WsClientAction::DeleteMessage { chat_uuid: room, uuid },
        WsRoomAction::MarkDelivered => WsClientAction::MarkDelivered { chat_uuid: room },
        WsRoomAction::MarkRead => WsClientAction::MarkRead { chat_uuid: room },
        WsRoomAction::ReactToMessage { message_uuid, emoji } =>
            WsClientAction::ReactToMessage { chat_uuid: room, message_uuid, emoji },
        WsRoomAction::Typing { is_typing } => WsClientAction::Typing { chat_uuid: room, is_typing },
        WsRoomAction::Ping => WsClientAction::Ping,
        WsRoomAction::CallOffer { sdp } => WsClientAction::CallOffer { chat_uuid: room, sdp },
        WsRoomAction::CallAnswer { sdp } => WsClientAction::CallAnswer { chat_uuid: room, sdp },
        WsRoomAction::IceCandidate { candidate, sdp_mid, sdp_m_line_index } =>
            WsClientAction::IceCandidate { chat_uuid: room, candidate, sdp_mid, sdp_m_line_index },
        WsRoomAction::CallReject => WsClientAction::CallReject { chat_uuid: room },
        WsRoomAction::CallEnd => WsClientAction::CallEnd { chat_uuid: room },
        WsRoomAction::TogglePinMessage { uuid, is_pinned } =>
            WsClientAction::TogglePinMessage { chat_uuid: room, uuid, is_pinned },
    }
}

/// The first step on a chat's socket for the action `a` from `user`.
pub open spec fn chat_start_next(user: u128, a: WsClientAction, r: (SocketState, SocketAction)) -> bool {
    match a {
        WsClientAction::SendMessage { chat_uuid, body, reply_to_uuid, media_uuid } => r == (
            SocketState::AwaitWrite(a),
            SocketAction::InsertMessage { chat_uuid, body, reply_to_uuid, media_uuid },
        ),
        WsClientAction::Ping => r == (SocketState::Done, SocketAction::Reply(Some(WsServerEvent::Pong))),
        WsClientAction::ReactToMessage { message_uuid, emoji, .. } => r == (
            SocketState::AwaitWrite(a),
            SocketAction::ToggleReaction { message_uuid, emoji },
        ),
        WsClientAction::EditMessage { uuid, body, .. } => r == (
            SocketState::AwaitWrite(a),
            SocketAction::UpdateMessageBody { uuid, body },
        ),
        WsClientAction::DeleteMessage { uuid, .. } => r == (
            SocketState::AwaitWrite(a),
            SocketAction::SoftDeleteMessage { uuid },
        ),
        WsClientAction::MarkDelivered { chat_uuid } => r == (
            SocketState::AwaitWrite(a),
            SocketAction::UpsertStatuses { chat_uuid, status: DeliveryStatus::Delivered },
        ),
        WsClientAction::MarkRead { chat_uuid } => r == (
            SocketState::AwaitWrite(a),
            SocketAction::UpsertStatuses { chat_uuid, status: DeliveryStatus::Read },
        ),
        WsClientAction::Typing { chat_uuid, is_typing } => r == (
            SocketState::Done,
            SocketAction::Reply(Some(WsServerEvent::Typing { chat_uuid, user_uuid: user, is_typing })),
        ),
        _ => r == (SocketState::Done, SocketAction::Reply(None)),
    }
}

/// One step on the socket of the chat `room`, for a message from `user`.
/// Every action is taken in `room`. The answer goes back to everybody
/// connected to the chat; a new message and a reaction go to the members'
/// global channels as well.
pub open spec fn chat_socket_next(
    user: u128,
    room: u128,
    state: SocketState,
    event: SocketEvent,
    r: (SocketState, SocketAction),
) -> bool {
    match state {
        SocketState::Start => match event {
            SocketEvent::RoomReceived(None) => r.0 is Done && (r.1 matches SocketAction::Reply(Some(e)) && is_invalid_json_error(e)),
            SocketEvent::RoomReceived(Some(ra)) => chat_start_next(user, in_room(room, ra), r),
            _ => false,
        },
        SocketState::AwaitWrite(a) => match a {
            WsClientAction::SendMessage { chat_uuid, .. } => match event {
                SocketEvent::Sent(Ok(m)) => r == (
                    SocketState::AwaitMembers(WsServerEvent::NewMessage(m), false),
                    SocketAction::FetchMembers { chat_uuid },
                ),
                _ => r == (SocketState::Done, SocketAction::Reply(None)),
            },
            WsClientAction::ReactToMessage { chat_uuid, message_uuid, emoji } => match event {
                SocketEvent::Reacted(Some(is_added)) => r == (
                    SocketState::AwaitMembers(
                        WsServerEvent::MessageReactionUpdated { chat_uuid, message_uuid, user_uuid: user, emoji, is_added },
                        false,
                    ),
                    SocketAction::FetchMembers { chat_uuid },
                ),
                _ => r == (SocketState::Done, SocketAction::Reply(None)),
            },
            WsClientAction::EditMessage { .. } => match event {
                SocketEvent::Edited(Some(m)) => r == (
                    SocketState::Done,
                    SocketAction::Reply(Some(WsServerEvent::MessageEdited(m))),
                ),
                _ => r == (SocketState::Done, SocketAction::Reply(None)),
            },
            WsClientAction::DeleteMessage { chat_uuid, uuid } => match event {
                SocketEvent::Affected(n) => r == (
                    SocketState::Done,
                    SocketAction::Reply(if n > 0 { Some(WsServerEvent::MessageDeleted { uuid, chat_uuid }) } else { None }),
                ),
                _ => false,
            },
            WsClientAction::MarkDelivered { chat_uuid } => r == (
                SocketState::Done,
                SocketAction::Reply(Some(WsServerEvent::StatusUpdated {
                    chat_uuid,
                    message_uuid: 0,
                    user_uuid: user,
                    status: DeliveryStatus::Delivered,
                })),
            ),
            WsClientAction::MarkRead { chat_uuid } => r == (
                SocketState::Done,
                SocketAction::Reply(Some(WsServerEvent::StatusUpdated {
                    chat_uuid,
                    message_uuid: 0,
                    user_uuid: user,
                    status: DeliveryStatus::Read,
                })),
            ),
            _ => false,
        },
        SocketState::AwaitMembers(e, _) => match event {
            SocketEvent::Members(l) => r == (SocketState::Done, SocketAction::BroadcastThenReply { recipients: l, event: e }),
            _ => false,
        },
        _ => false,
    }
}

/// The states that the socket of the chat `room` passes through.
pub open spec fn chat_socket_state(room: u128, state: SocketState) -> bool {
    match state {
        SocketState::AwaitMembership(_) => false,
        SocketState::AwaitWrite(a) => (a is SendMessage || a is ReactToMessage || a is EditMessage
            || a is DeleteMessage || a is MarkDelivered || a is MarkRead) && action_chat(a) == Some(room),
        SocketState::AwaitMembers(e, _) => event_in_room(room, e),
        SocketState::Done => false,
        _ => true,
    }
}

/// The events that can answer an action on a chat's socket: its first one
/// is the client's message in the chat socket's form.
pub open spec fn chat_event_fits(state: SocketState, event: SocketEvent) -> bool {
    match state {
        SocketState::Start => event is RoomReceived,
        _ => socket_event_fits(state, event),
    }
}

/// An event of the chat `room` names it; others are not about a chat that
/// the socket chose.
pub open spec fn event_in_room(room: u128, e: WsServerEvent) -> bool {
    match e {
        WsServerEvent::Typing { chat_uuid, .. } => chat_uuid == room,
        WsServerEvent::StatusUpdated { chat_uuid, .. } => chat_uuid == room,
        WsServerEvent::MessageDeleted { chat_uuid, .. } => chat_uuid == room,
        WsServerEvent::MessageReactionUpdated { chat_uuid, .. } => chat_uuid == room,
        _ => true,
    }
}

/// What a step does names the chat `room` wherever it names a chat.
pub open spec fn targets_room(room: u128, act: SocketAction) -> bool {
    match act {
        SocketAction::CheckMembership { chat_uuid } => chat_uuid == room,
        SocketAction::InsertMessage { chat_uuid, .. } => chat_uuid == room,
        SocketAction::UpsertStatuses { chat_uuid, .. } => chat_uuid == room,
        SocketAction::SetPinned { chat_uuid, .. } => chat_uuid == room,
        SocketAction::FetchMembers { chat_uuid } => chat_uuid == room,
        SocketAction::Reply(Some(e)) => event_in_room(room, e),
        SocketAction::BroadcastThenReply { event, .. } => event_in_room(room, event),
        _ => true,
    }
}

/// One step of handling a client message on the socket of the chat `room`.
pub fn chat_socket_step(user: u128, room: u128, state: SocketState, event: SocketEvent) -> (r: (SocketState, SocketAction))
    requires
        chat_socket_state(room, state),
        chat_event_fits(state, event),
    ensures
        chat_socket_next(user, room, state, event, r),
        steps_left(r.0) < steps_left(state),
        r.0 is Done || chat_socket_state(room, r.0),
        targets_room(room, r.1),
{
    match state {
        SocketState::Start => match event {
            SocketEvent::RoomReceived(None) => (
                SocketState::Done,
                SocketAction::Reply(Some(error_event("Invalid JSON. Expected {\"action\":\"...\",\"payload\":{...}}"))),
            ),
            SocketEvent::RoomReceived(Some(ra)) => {
                let a = room_action(room, ra);
                match a {
                    WsClientAction::SendMessage { chat_uuid, body, reply_to_uuid, media_uuid } => {
                        let action = SocketAction::InsertMessage { chat_uuid, body: body.clone(), reply_to_uuid, media_uuid };
                        (SocketState::AwaitWrite(WsClientAction::SendMessage { chat_uuid, body, reply_to_uuid, media_uuid }), action)
                    },
                    WsClientAction::Ping => (SocketState::Done, SocketAction::Reply(Some(WsServerEvent::Pong))),
                    WsClientAction::ReactToMessage { chat_uuid, message_uuid, emoji } => {
                        let action = SocketAction::ToggleReaction { message_uuid, emoji: emoji.clone() };
                        (SocketState::AwaitWrite(WsClientAction::ReactToMessage { chat_uuid, message_uuid, emoji }), action)
                    },
                    WsClientAction::EditMessage { chat_uuid, uuid, body } => {
                        let action = SocketAction::UpdateMessageBody { uuid, body: body.clone() };
                        (SocketState::AwaitWrite(WsClientAction::EditMessage { chat_uuid, uuid, body }), action)
                    },
                    WsClientAction::DeleteMessage { chat_uuid, uuid } => (
                        SocketState::AwaitWrite(WsClientAction::DeleteMessage { chat_uuid, uuid }),
                        SocketAction::SoftDeleteMessage { uuid },
                    ),
                    WsClientAction::MarkDelivered { chat_uuid } => (
                        SocketState::AwaitWrite(WsClientAction::MarkDelivered { chat_uuid }),
                        SocketAction::UpsertStatuses { chat_uuid, status: DeliveryStatus::Delivered },
                    ),
                    WsClientAction::MarkRead { chat_uuid } => (
                        SocketState::AwaitWrite(WsClientAction::MarkRead { chat_uuid }),
                        SocketAction::UpsertStatuses { chat_uuid, status: DeliveryStatus::Read },
                    ),
                    WsClientAction::Typing { chat_uuid, is_typing } => (
                        SocketState::Done,
                        SocketAction::Reply(Some(WsServerEvent::Typing { chat_uuid, user_uuid: user, is_typing })),
                    ),
                    _ => (SocketState::Done, SocketAction::Reply(None)),
                }
            },
            _ => (SocketState::Done, SocketAction::Finish),
        },
        SocketState::AwaitWrite(a) => match a {
            WsClientAction::SendMessage { chat_uuid, .. } => match event {
                SocketEvent::Sent(Ok(m)) => (
                    SocketState::AwaitMembers(WsServerEvent::NewMessage(m), false),
                    SocketAction::FetchMembers { chat_uuid },
                ),
                _ => (SocketState::Done, SocketAction::Reply(None)),
            },
            WsClientAction::ReactToMessage { chat_uuid, message_uuid, emoji } => match event {
                SocketEvent::Reacted(Some(is_added)) => (
                    SocketState::AwaitMembers(
                        WsServerEvent::MessageReactionUpdated { chat_uuid, message_uuid, user_uuid: user, emoji, is_added },
                        false,
                    ),
                    SocketAction::FetchMembers { chat_uuid },
                ),
                _ => (SocketState::Done, SocketAction::Reply(None)),
            },
            WsClientAction::EditMessage { .. } => match event {
                SocketEvent::Edited(Some(m)) => (SocketState::Done, SocketAction::Reply(Some(WsServerEvent::MessageEdited(m)))),
                _ => (SocketState::Done, SocketAction::Reply(None)),
            },
            WsClientAction::DeleteMessage { chat_uuid, uuid } => match event {
                SocketEvent::Affected(n) => (
                    SocketState::Done,
                    SocketAction::Reply(if n > 0 { Some(WsServerEvent::MessageDeleted { uuid, chat_uuid }) } else { None }),
                ),
                _ => (SocketState::Done, SocketAction::Finish),
            },
            WsClientAction::MarkDelivered { chat_uuid } => (
                SocketState::Done,
                SocketAction::Reply(Some(WsServerEvent::StatusUpdated {
                    chat_uuid,
                    message_uuid: 0,
                    user_uuid: user,
                    status: DeliveryStatus::Delivered,
                })),
            ),
            WsClientAction::MarkRead { chat_uuid } => (
                SocketState::Done,
                SocketAction::Reply(Some(WsServerEvent::StatusUpdated {
                    chat_uuid,
                    message_uuid: 0,
                    user_uuid: user,
                    status: DeliveryStatus::Read,
                })),
            ),
            _ => (SocketState::Done, SocketAction::Finish),
        },
        SocketState::AwaitMembers(e, _) => match event {
            SocketEvent::Members(l) => (SocketState::Done, SocketAction::BroadcastThenReply { recipients: l, event: e }),
            _ => (SocketState::Done, SocketAction::Finish),
        },
        _ => (SocketState::Done, SocketAction::Finish),
    }
}

/// How the upgrade to a chat's socket is answered.
pub enum RoomAdmission {
    /// No valid token: 401.
    Unauthorized,
    /// The token's user is not a current member of the chat: 403.
    Forbidden,
    /// The socket opens for this user.
    Open(u128),
}

/// Admits a user to a chat's socket: `user` is the user of the request's
/// token, if it is valid, and `is_member` whether that user is a current
/// member of the chat (asked only when there is a user).
pub fn room_admission(user: Option<u128>, is_member: bool) -> (a: RoomAdmission)
    ensures
        user is None ==> a is Unauthorized,
        user matches Some(u) ==> a == (if is_member { RoomAdmission::Open(u) } else { RoomAdmission::Forbidden }),
{
    match user {
        None => RoomAdmission::Unauthorized,
        Some(u) => if is_member {
            RoomAdmission::Open(u)
        } else {
            RoomAdmission::Forbidden
        },
    }
}

/// On the user socket, an action that needs membership touches nothing
/// before the membership is known, and a sender who is not a member gets at
/// most an error back: nothing is written and nothing is sent to others.
pub proof fn user_socket_membership_gate(user: u128, a: WsClientAction, r1: (SocketState, SocketAction), r2: (SocketState, SocketAction))
    requires
        needs_membership(a),
        user_socket_next(user, SocketState::Start, SocketEvent::Received(Some(a)), r1),
        user_socket_next(user, SocketState::AwaitMembership(a), SocketEvent::Membership(false), r2),
    ensures
        r1.0 == SocketState::AwaitMembership(a),
        r1.1 == (SocketAction::CheckMembership { chat_uuid: action_chat(a).unwrap() }),
        r2.0 is Done,
        r2.1 is Finish || (a is SendMessage && (r2.1 matches SocketAction::SendToSelf(e) && is_not_member_error(e))),
{
}

/// Call signalling reaches every other current member of the chat and never
/// comes back to its sender.
pub proof fn call_signals_skip_sender(user: u128, a: WsClientAction, members: Vec<u128>, r1: (SocketState, SocketAction), r2: (SocketState, SocketAction))
    requires
        is_call_signal(a),
        user_socket_next(user, SocketState::AwaitMembership(a), SocketEvent::Membership(true), r1),
        user_socket_next(user, r1.0, SocketEvent::Members(members), r2),
    ensures
        r2.1 matches SocketAction::Broadcast { recipients, .. } && !recipients@.contains(user)
            && forall|j: int| 0 <= j < members@.len() && members@[j] != user ==> recipients@.contains(#[trigger] members@[j]),
{
    lemma_without(members@, user);
}

/// What the user socket sends to others always names the sender as its
/// author: typing, delivery and read statuses, reactions and calls come from
/// the authenticated user, whatever the client wrote.
pub proof fn user_socket_events_carry_sender(user: u128, state: SocketState, event: SocketEvent, r: (SocketState, SocketAction))
    requires
        user_socket_next(user, state, event, r),
        r.0 matches SocketState::AwaitMembers(_, _),
    ensures
        match r.0 {
            SocketState::AwaitMembers(e, _) => match e {
                WsServerEvent::Typing { user_uuid, .. } => user_uuid == user,
                WsServerEvent::StatusUpdated { user_uuid, .. } => user_uuid == user,
                WsServerEvent::MessageReactionUpdated { user_uuid, .. } => user_uuid == user,
                WsServerEvent::CallOffer { caller_uuid, .. } => caller_uuid == user,
                WsServerEvent::CallAnswer { responder_uuid, .. } => responder_uuid == user,
                WsServerEvent::IceCandidate { sender_uuid, .. } => sender_uuid == user,
                WsServerEvent::CallReject { user_uuid, .. } => user_uuid == user,
                WsServerEvent::CallEnd { user_uuid, .. } => user_uuid == user,
                _ => true,
            },
            _ => true,
        },
{
}

} // verus!
