//! The messenger's records, requests, answers and WebSocket events. UUIDs are
//! held as their 128-bit values and instants as microseconds since the Unix
//! epoch (UTC).

use vstd::prelude::*;
use crate::common::dto::MediaDTO;

verus! {

/// A short view of a user next to a chat or a message.
#[derive(Clone, Debug)]
pub struct UserPreviewDTO {
    pub uuid: u128,
    pub first_name: Option<String>,
    pub second_name: Option<String>,
    pub avatar: Option<MediaDTO>,
    pub is_online: bool,
    pub last_seen_at: i64,
}

/// One user's reaction to a message.
#[derive(Clone, Debug)]
pub struct ReactionDTO {
    pub user_uuid: u128,
    pub emoji: String,
}

/// Whether a chat is between two people or a group.
#[derive(Clone, Copy, Debug, PartialEq, Eq, Structural)]
pub enum ChatType {
    Direct,
    Group,
}

/// How far a message has got to a reader.
#[derive(Clone, Copy, Debug, PartialEq, Eq, Structural)]
pub enum DeliveryStatus {
    Delivered,
    Read,
}

/// A chat as the database returns it, with the other member's data flat.
pub struct ChatRow {
    pub uuid: u128,
    pub name: Option<String>,
    pub description: Option<String>,
    pub chat_type: ChatType,
    pub created_by: u128,
    pub is_archived: bool,
    pub created_at: i64,
    pub updated_at: i64,
    pub last_message_body: Option<String>,
    pub last_message_at: Option<i64>,
    pub unread_count: Option<i64>,
    pub member_count: Option<i64>,
    pub sender_uuid: Option<u128>,
    pub sender_first_name: Option<String>,
    pub sender_second_name: Option<String>,
    pub sender_avatar_uuid: Option<u128>,
    pub sender_last_seen_at: Option<i64>,
    pub alias: Option<String>,
}

/// A chat as the API shows it.
pub struct ChatResponseDTO {
    pub uuid: u128,
    pub name: Option<String>,
    pub description: Option<String>,
    pub chat_type: ChatType,
    pub created_by: u128,
    pub is_archived: bool,
    pub created_at: i64,
    pub updated_at: i64,
    pub last_message_body: Option<String>,
    pub last_message_at: Option<i64>,
    pub unread_count: Option<i64>,
    pub member_count: Option<i64>,
    pub sender: Option<UserPreviewDTO>,
    pub alias: Option<String>,
}

/// A request to create a chat; the creator is added by the server.
pub struct CreateChatDTO {
    pub name: Option<String>,
    pub description: Option<String>,
    pub chat_type: ChatType,
    pub avatar: Option<String>,
    pub member_uuids: Vec<u128>,
}

/// A request to change a chat.
pub struct UpdateChatDTO {
    pub name: Option<String>,
    pub description: Option<String>,
    pub avatar: Option<String>,
    pub is_archived: Option<bool>,
}

/// A message as the database returns it, with its sender's data flat.
pub struct MessageRow {
    pub uuid: u128,
    pub chat_uuid: u128,
    pub sender_uuid: u128,
    pub reply_to_uuid: Option<u128>,
    pub body: String,
    pub is_edited: bool,
    pub is_deleted: bool,
    pub is_pinned: bool,
    pub created_at: i64,
    pub updated_at: i64,
    pub sender_first_name: Option<String>,
    pub sender_second_name: Option<String>,
    pub sender_avatar_uuid: Option<u128>,
    pub sender_last_seen_at: Option<i64>,
    pub delivered_count: Option<i64>,
    pub read_count: Option<i64>,
    pub my_status: Option<DeliveryStatus>,
    pub reply_body_preview: Option<String>,
    pub media_uuid: Option<u128>,
}

/// A member of a chat.
#[derive(Clone, Debug)]
pub struct ChatMemberDTO {
    pub uuid: u128,
    pub chat_uuid: u128,
    pub user_uuid: u128,
    pub is_admin: bool,
    pub joined_at: i64,
    pub left_at: Option<i64>,
    pub first_name: Option<String>,
    pub last_name: Option<String>,
    pub avatar: Option<String>,
    pub is_online: bool,
    pub last_seen_at: i64,
}

/// A request to add a member.
pub struct AddMemberDTO {
    pub user_uuid: u128,
    pub is_admin: bool,
}

/// A message as the API shows it.
#[derive(Clone, Debug)]
pub struct MessageResponseDTO {
    pub uuid: u128,
    pub chat_uuid: u128,
    pub sender_uuid: u128,
    pub reply_to_uuid: Option<u128>,
    pub body: String,
    pub is_edited: bool,
    pub is_deleted: bool,
    pub is_pinned: bool,
    pub created_at: i64,
    pub updated_at: i64,
    pub sender: Option<UserPreviewDTO>,
    pub delivered_count: Option<i64>,
    pub read_count: Option<i64>,
    pub my_status: Option<DeliveryStatus>,
    pub reply_body_preview: Option<String>,
    pub media: Option<MediaDTO>,
    pub reactions: Vec<ReactionDTO>,
}

/// A request to send a message.
pub struct CreateMessageDTO {
    pub body: String,
    pub reply_to_uuid: Option<u128>,
    pub media_uuid: Option<u128>,
}

/// A request to change a message's text.
pub struct UpdateMessageDTO {
    pub body: String,
}

/// `?page=&limit=&before_uuid=` of the message history.
pub struct MessageQuery {
    pub page: Option<i64>,
    pub limit: Option<i64>,
    pub before_uuid: Option<u128>,
}

/// `?q=&limit=` of a message search.
pub struct SearchQuery {
    pub q: String,
    pub limit: Option<i64>,
}

/// A request to set the caller's name for a chat.
pub struct SetAliasDTO {
    pub alias: Option<String>,
}

/// How many images, videos and audio files a chat's messages carry.
pub struct ChatMediaCountsDTO {
    pub images: i64,
    pub videos: i64,
    pub audio: i64,
}

/// The query of a WebSocket upgrade.
pub struct WsQuery {
    pub token: String,
}

/// What the server sends over a WebSocket (`{"event": .., "payload": ..}`).
#[derive(Clone, Debug)]
pub enum WsServerEvent {
    NewMessage(MessageResponseDTO),
    MessageEdited(MessageResponseDTO),
    MessageDeleted { uuid: u128, chat_uuid: u128 },
    StatusUpdated { chat_uuid: u128, message_uuid: u128, user_uuid: u128, status: DeliveryStatus },
    MessageReactionUpdated { chat_uuid: u128, message_uuid: u128, user_uuid: u128, emoji: String, is_added: bool },
    MessagePinned { uuid: u128, chat_uuid: u128, is_pinned: bool },
    Typing { chat_uuid: u128, user_uuid: u128, is_typing: bool },
    MemberJoined(ChatMemberDTO),
    MemberLeft { chat_uuid: u128, user_uuid: u128 },
    UserStatusChanged { user_uuid: u128, is_online: bool, last_seen_at: i64 },
    Error { message: String },
    CallOffer { chat_uuid: u128, caller_uuid: u128, sdp: String },
    CallAnswer { chat_uuid: u128, responder_uuid: u128, sdp: String },
    IceCandidate { chat_uuid: u128, sender_uuid: u128, candidate: String, sdp_mid: Option<String>, sdp_m_line_index: Option<i32> },
    CallReject { chat_uuid: u128, user_uuid: u128 },
    CallEnd { chat_uuid: u128, user_uuid: u128 },
    Pong,
}

/// What a client sends over a WebSocket (`{"action": .., "payload": ..}`).
pub enum WsClientAction {
    SendMessage { chat_uuid: u128, body: String, reply_to_uuid: Option<u128>, media_uuid: Option<u128> },
    EditMessage { chat_uuid: u128, uuid: u128, body: String },
    DeleteMessage { chat_uuid: u128, uuid: u128 },
    MarkDelivered { chat_uuid: u128 },
    MarkRead { chat_uuid: u128 },
    ReactToMessage { chat_uuid: u128, message_uuid: u128, emoji: String },
    Typing { chat_uuid: u128, is_typing: bool },
    Ping,
    CallOffer { chat_uuid: u128, sdp: String },
    CallAnswer { chat_uuid: u128, sdp: String },
    IceCandidate { chat_uuid: u128, candidate: String, sdp_mid: Option<String>, sdp_m_line_index: Option<i32> },
    CallReject { chat_uuid: u128 },
    CallEnd { chat_uuid: u128 },
    TogglePinMessage { chat_uuid: u128, uuid: u128, is_pinned: bool },
}

/// What a client sends over a chat's WebSocket: the actions of
/// [`WsClientAction`] without their `chat_uuid`, since the socket's path
/// names the chat.
pub enum WsRoomAction {
    SendMessage { body: String, reply_to_uuid: Option<u128>, media_uuid: Option<u128> },
    EditMessage { uuid: u128, body: String },
    DeleteMessage { uuid: u128 },
    MarkDelivered,
    MarkRead,
    ReactToMessage { message_uuid: u128, emoji: String },
    Typing { is_typing: bool },
    Ping,
    CallOffer { sdp: String },
    CallAnswer { sdp: String },
    IceCandidate { candidate: String, sdp_mid: Option<String>, sdp_m_line_index: Option<i32> },
    CallReject,
    CallEnd,
    TogglePinMessage { uuid: u128, is_pinned: bool },
}

} // verus!
