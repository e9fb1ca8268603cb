use guest_place::messenger::dto::{DeliveryStatus, MessageRow, WsClientAction, WsRoomAction, WsServerEvent};
use guest_place::messenger::message::message_response;
use guest_place::messenger::socket::{chat_socket_step, room_action, room_admission, user_socket_step, RoomAdmission, SocketAction, SocketEvent, SocketState};

const ME: u128 = 5;

fn message() -> guest_place::messenger::dto::MessageResponseDTO {
    let row = MessageRow {
        uuid: 20,
        chat_uuid: 10,
        sender_uuid: ME,
        reply_to_uuid: None,
        body: "hi".to_string(),
        is_edited: false,
        is_deleted: false,
        is_pinned: false,
        created_at: 1,
        updated_at: 1,
        sender_first_name: None,
        sender_second_name: None,
        sender_avatar_uuid: None,
        sender_last_seen_at: None,
        delivered_count: None,
        read_count: None,
        my_status: None,
        reply_body_preview: None,
        media_uuid: None,
    };
    message_response(row, None, None, vec![], true, 0)
}

fn error_text(a: &SocketAction) -> Option<String> {
    match a {
        SocketAction::SendToSelf(WsServerEvent::Error { message }) => Some(message.clone()),
        SocketAction::Reply(Some(WsServerEvent::Error { message })) => Some(message.clone()),
        _ => None,
    }
}

#[test]
fn user_socket_sends_a_message_to_the_members() {
    let a = WsClientAction::SendMessage { chat_uuid: 10, body: "hi".to_string(), reply_to_uuid: None, media_uuid: None };
    let (s, act) = user_socket_step(ME, SocketState::Start, SocketEvent::Received(Some(a)));
    assert!(matches!(act, SocketAction::CheckMembership { chat_uuid: 10 }));
    let (s, act) = user_socket_step(ME, s, SocketEvent::Membership(true));
    assert!(matches!(&act, SocketAction::InsertMessage { chat_uuid: 10, body, .. } if body == "hi"));
    let (s, act) = user_socket_step(ME, s, SocketEvent::Sent(Ok(message())));
    assert!(matches!(act, SocketAction::FetchMembers { chat_uuid: 10 }));
    let (s, act) = user_socket_step(ME, s, SocketEvent::Members(vec![ME, 6, 7]));
    assert!(matches!(s, SocketState::Done));
    match act {
        SocketAction::Broadcast { recipients, event: WsServerEvent::NewMessage(m) } => {
            assert_eq!(recipients, vec![ME, 6, 7]);
            assert_eq!(m.uuid, 20);
        }
        _ => panic!("expected a broadcast of the new message"),
    }
}

#[test]
fn user_socket_refuses_a_non_member() {
    let a = WsClientAction::SendMessage { chat_uuid: 10, body: "hi".to_string(), reply_to_uuid: None, media_uuid: None };
    let (s, _) = user_socket_step(ME, SocketState::Start, SocketEvent::Received(Some(a)));
    let (s, act) = user_socket_step(ME, s, SocketEvent::Membership(false));
    assert!(matches!(s, SocketState::Done));
    assert_eq!(error_text(&act), Some("You are not a member of this chat".to_string()));
    let a = WsClientAction::DeleteMessage { chat_uuid: 10, uuid: 20 };
    let (s, _) = user_socket_step(ME, SocketState::Start, SocketEvent::Received(Some(a)));
    let (_, act) = user_socket_step(ME, s, SocketEvent::Membership(false));
    assert!(matches!(act, SocketAction::Finish));
}

#[test]
fn user_socket_answers_bad_json_and_ping() {
    let (s, act) = user_socket_step(ME, SocketState::Start, SocketEvent::Received(None));
    assert!(matches!(s, SocketState::Done));
    assert_eq!(error_text(&act), Some("Invalid JSON. Expected {\"action\":\"...\",\"payload\":{...}}".to_string()));
    let (_, act) = user_socket_step(ME, SocketState::Start, SocketEvent::Received(Some(WsClientAction::Ping)));
    assert!(matches!(act, SocketAction::SendToSelf(WsServerEvent::Pong)));
}

#[test]
fn user_socket_reports_a_failed_insert() {
    let a = WsClientAction::SendMessage { chat_uuid: 10, body: "hi".to_string(), reply_to_uuid: None, media_uuid: None };
    let (s, _) = user_socket_step(ME, SocketState::Start, SocketEvent::Received(Some(a)));
    let (s, _) = user_socket_step(ME, s, SocketEvent::Membership(true));
    let (_, act) = user_socket_step(ME, s, SocketEvent::Sent(Err(())));
    assert_eq!(error_text(&act), Some("Database error while sending message".to_string()));
}

#[test]
fn call_signals_skip_the_sender() {
    let a = WsClientAction::CallOffer { chat_uuid: 10, sdp: "v=0".to_string() };
    let (s, _) = user_socket_step(ME, SocketState::Start, SocketEvent::Received(Some(a)));
    let (s, act) = user_socket_step(ME, s, SocketEvent::Membership(true));
    assert!(matches!(act, SocketAction::FetchMembers { chat_uuid: 10 }));
    let (_, act) = user_socket_step(ME, s, SocketEvent::Members(vec![6, ME, 7]));
    match act {
        SocketAction::Broadcast { recipients, event: WsServerEvent::CallOffer { caller_uuid, sdp, .. } } => {
            assert_eq!(recipients, vec![6, 7]);
            assert_eq!(caller_uuid, ME);
            assert_eq!(sdp, "v=0");
        }
        _ => panic!("expected the call offer to go to the others"),
    }
}

#[test]
fn typing_and_read_marks_carry_the_sender() {
    let a = WsClientAction::Typing { chat_uuid: 10, is_typing: true };
    let (s, act) = user_socket_step(ME, SocketState::Start, SocketEvent::Received(Some(a)));
    assert!(matches!(act, SocketAction::FetchMembers { chat_uuid: 10 }));
    let (_, act) = user_socket_step(ME, s, SocketEvent::Members(vec![ME, 6]));
    assert!(matches!(act, SocketAction::Broadcast { event: WsServerEvent::Typing { user_uuid: ME, is_typing: true, .. }, .. }));
    let a = WsClientAction::MarkRead { chat_uuid: 10 };
    let (s, act) = user_socket_step(ME, SocketState::Start, SocketEvent::Received(Some(a)));
    assert!(matches!(act, SocketAction::UpsertStatuses { chat_uuid: 10, status: DeliveryStatus::Read }));
    let (s, _) = user_socket_step(ME, s, SocketEvent::StatusesWritten);
    let (_, act) = user_socket_step(ME, s, SocketEvent::Members(vec![6]));
    assert!(matches!(
        act,
        SocketAction::Broadcast { event: WsServerEvent::StatusUpdated { user_uuid: ME, status: DeliveryStatus::Read, .. }, .. }
    ));
}

#[test]
fn deleting_nothing_broadcasts_nothing() {
    let a = WsClientAction::DeleteMessage { chat_uuid: 10, uuid: 20 };
    let (s, _) = user_socket_step(ME, SocketState::Start, SocketEvent::Received(Some(a)));
    let (s, act) = user_socket_step(ME, s, SocketEvent::Membership(true));
    assert!(matches!(act, SocketAction::SoftDeleteMessage { uuid: 20 }));
    let (_, act) = user_socket_step(ME, s, SocketEvent::Affected(0));
    assert!(matches!(act, SocketAction::Finish));
}

#[test]
fn chat_socket_replies_to_the_room() {
    let a = WsRoomAction::Typing { is_typing: false };
    let (s, act) = chat_socket_step(ME, 10, SocketState::Start, SocketEvent::RoomReceived(Some(a)));
    assert!(matches!(s, SocketState::Done));
    assert!(matches!(act, SocketAction::Reply(Some(WsServerEvent::Typing { chat_uuid: 10, user_uuid: ME, is_typing: false }))));
    let (_, act) = chat_socket_step(ME, 10, SocketState::Start, SocketEvent::RoomReceived(None));
    assert!(error_text(&act).is_some());
    let a = WsRoomAction::SendMessage { body: "hi".to_string(), reply_to_uuid: None, media_uuid: None };
    let (s, act) = chat_socket_step(ME, 10, SocketState::Start, SocketEvent::RoomReceived(Some(a)));
    assert!(matches!(act, SocketAction::InsertMessage { chat_uuid: 10, .. }));
    let (s, act) = chat_socket_step(ME, 10, s, SocketEvent::Sent(Ok(message())));
    assert!(matches!(act, SocketAction::FetchMembers { chat_uuid: 10 }));
    let (_, act) = chat_socket_step(ME, 10, s, SocketEvent::Members(vec![ME, 6]));
    assert!(matches!(act, SocketAction::BroadcastThenReply { event: WsServerEvent::NewMessage(_), .. }));
    let (_, act) = chat_socket_step(ME, 10, SocketState::Start, SocketEvent::RoomReceived(Some(WsRoomAction::CallEnd)));
    assert!(matches!(act, SocketAction::Reply(None)));
}

#[test]
fn chat_socket_acts_in_its_own_chat() {
    let (s, act) = chat_socket_step(ME, 42, SocketState::Start, SocketEvent::RoomReceived(Some(WsRoomAction::MarkRead)));
    assert!(matches!(act, SocketAction::UpsertStatuses { chat_uuid: 42, .. }));
    let (_, act) = chat_socket_step(ME, 42, s, SocketEvent::StatusesWritten);
    assert!(matches!(act, SocketAction::Reply(Some(WsServerEvent::StatusUpdated { chat_uuid: 42, user_uuid: ME, .. }))));
    let a = WsRoomAction::DeleteMessage { uuid: 7 };
    let (s, act) = chat_socket_step(ME, 42, SocketState::Start, SocketEvent::RoomReceived(Some(a)));
    assert!(matches!(act, SocketAction::SoftDeleteMessage { uuid: 7 }));
    let (_, act) = chat_socket_step(ME, 42, s, SocketEvent::Affected(1));
    assert!(matches!(act, SocketAction::Reply(Some(WsServerEvent::MessageDeleted { uuid: 7, chat_uuid: 42 }))));
}

#[test]
fn chat_socket_admits_members_only() {
    assert!(matches!(room_admission(None, true), RoomAdmission::Unauthorized));
    assert!(matches!(room_admission(Some(ME), false), RoomAdmission::Forbidden));
    assert!(matches!(room_admission(Some(ME), true), RoomAdmission::Open(ME)));
}

#[test]
fn room_actions_take_the_room() {
    assert!(matches!(room_action(9, WsRoomAction::Typing { is_typing: true }), WsClientAction::Typing { chat_uuid: 9, is_typing: true }));
    assert!(matches!(room_action(9, WsRoomAction::MarkDelivered), WsClientAction::MarkDelivered { chat_uuid: 9 }));
    assert!(matches!(room_action(9, WsRoomAction::Ping), WsClientAction::Ping));
}
