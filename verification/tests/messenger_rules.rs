use guest_place::common::dto::MediaDTO;
use guest_place::messenger::channels::ChannelRegistry;
use guest_place::messenger::chat::{chat_creation_after_lookup, chat_creation_start, ChatCreation, chat_exit, chat_members_to_add, chat_response, may_remove_member, validate_create_chat, ChatExit, CreateChatError};
use guest_place::messenger::dto::{ChatRow, ChatType, CreateChatDTO, DeliveryStatus, MessageRow, ReactionDTO, WsServerEvent};
use guest_place::messenger::message::{chat_media_window, int_param, message_history_page, message_response, reaction_after_delete, search_limit, search_pattern, ReactionToggle};
use guest_place::messenger::socket::remove_user;

fn chat_request(chat_type: ChatType, name: Option<&str>, members: Vec<u128>) -> CreateChatDTO {
    CreateChatDTO {
        name: name.map(|s| s.to_string()),
        description: None,
        chat_type,
        avatar: None,
        member_uuids: members,
    }
}

#[test]
fn direct_chat_needs_exactly_one_other_member() {
    assert!(validate_create_chat(&chat_request(ChatType::Direct, None, vec![2])).is_ok());
    assert!(matches!(
        validate_create_chat(&chat_request(ChatType::Direct, None, vec![])),
        Err(CreateChatError::DirectNeedsOneMember)
    ));
    assert!(matches!(
        validate_create_chat(&chat_request(ChatType::Direct, Some("x"), vec![2, 3])),
        Err(CreateChatError::DirectNeedsOneMember)
    ));
}

#[test]
fn group_chat_needs_a_name() {
    assert!(validate_create_chat(&chat_request(ChatType::Group, Some("Team"), vec![])).is_ok());
    assert!(matches!(
        validate_create_chat(&chat_request(ChatType::Group, Some("   "), vec![2])),
        Err(CreateChatError::GroupNeedsName)
    ));
    assert!(matches!(
        validate_create_chat(&chat_request(ChatType::Group, None, vec![2])),
        Err(CreateChatError::GroupNeedsName)
    ));
}

#[test]
fn chat_error_texts() {
    assert_eq!(CreateChatError::DirectNeedsOneMember.message_key(), "messenger.direct_needs_one_member");
    assert_eq!(CreateChatError::DirectNeedsOneMember.field(), "members");
    assert_eq!(CreateChatError::GroupNeedsName.message_key(), "messenger.group_needs_name");
    assert_eq!(CreateChatError::GroupNeedsName.field(), "name");
}

#[test]
fn new_chat_members_start_with_the_creator_as_admin() {
    assert_eq!(chat_members_to_add(1, &vec![2, 1, 3]), vec![(1, true), (2, false), (3, false)]);
    assert_eq!(chat_members_to_add(1, &vec![]), vec![(1, true)]);
    assert_eq!(chat_members_to_add(1, &vec![1, 1]), vec![(1, true)]);
}

#[test]
fn leaving_and_removing() {
    assert_eq!(chat_exit(true), ChatExit::DeleteChat);
    assert_eq!(chat_exit(false), ChatExit::Leave);
    assert!(may_remove_member(1, 1, false));
    assert!(may_remove_member(1, 2, true));
    assert!(!may_remove_member(1, 2, false));
}

fn chat_row(sender: Option<u128>, seen: Option<i64>) -> ChatRow {
    ChatRow {
        uuid: 10,
        name: Some("Team".to_string()),
        description: None,
        chat_type: ChatType::Group,
        created_by: 1,
        is_archived: false,
        created_at: 100,
        updated_at: 200,
        last_message_body: Some("hi".to_string()),
        last_message_at: Some(150),
        unread_count: Some(3),
        member_count: Some(4),
        sender_uuid: sender,
        sender_first_name: Some("Ann".to_string()),
        sender_second_name: None,
        sender_avatar_uuid: None,
        sender_last_seen_at: seen,
        alias: Some("work".to_string()),
    }
}

#[test]
fn chat_response_builds_the_sender_preview() {
    let avatar = MediaDTO { url: "u".to_string(), alt: None, title: None, media_type: Some("image".to_string()) };
    let d = chat_response(chat_row(Some(5), None), Some(avatar), true, 999);
    let s = d.sender.unwrap();
    assert_eq!((s.uuid, s.is_online, s.last_seen_at), (5, true, 999));
    assert_eq!(s.first_name, Some("Ann".to_string()));
    assert_eq!(s.avatar.unwrap().url, "u");
    assert_eq!(d.alias, Some("work".to_string()));
    assert_eq!((d.uuid, d.unread_count, d.member_count), (10, Some(3), Some(4)));
    let d = chat_response(chat_row(Some(5), Some(42)), None, false, 999);
    assert_eq!(d.sender.unwrap().last_seen_at, 42);
    let d = chat_response(chat_row(None, Some(42)), None, false, 999);
    assert!(d.sender.is_none());
}

fn message_row(first: &str, second: &str) -> MessageRow {
    MessageRow {
        uuid: 20,
        chat_uuid: 10,
        sender_uuid: 5,
        reply_to_uuid: None,
        body: "hello".to_string(),
        is_edited: false,
        is_deleted: false,
        is_pinned: true,
        created_at: 1,
        updated_at: 2,
        sender_first_name: Some(first.to_string()),
        sender_second_name: Some(second.to_string()),
        sender_avatar_uuid: None,
        sender_last_seen_at: Some(7),
        delivered_count: Some(1),
        read_count: Some(0),
        my_status: Some(DeliveryStatus::Read),
        reply_body_preview: None,
        media_uuid: None,
    }
}

#[test]
fn message_response_drops_empty_names() {
    let reactions = vec![ReactionDTO { user_uuid: 6, emoji: "👍".to_string() }];
    let m = message_response(message_row("Ann", ""), None, None, reactions, false, 77);
    let s = m.sender.unwrap();
    assert_eq!(s.first_name, Some("Ann".to_string()));
    assert_eq!(s.second_name, None);
    assert_eq!((s.uuid, s.last_seen_at, s.is_online), (5, 77, false));
    assert_eq!(m.body, "hello");
    assert!(m.is_pinned);
    assert_eq!(m.my_status, Some(DeliveryStatus::Read));
    assert_eq!(m.reactions.len(), 1);
    assert_eq!(m.reactions[0].emoji, "👍");
}

#[test]
fn history_page_defaults_and_cap() {
    let w = message_history_page(None, None);
    assert_eq!((w.page, w.limit, w.offset), (1, 30, 0));
    let w = message_history_page(Some(500), Some(3));
    assert_eq!((w.page, w.limit, w.offset), (3, 100, 200));
    let w = message_history_page(Some(10), Some(2));
    assert_eq!((w.page, w.limit, w.offset), (2, 10, 10));
}

#[test]
fn search_rules() {
    assert_eq!(search_pattern("abc"), "%abc%");
    assert_eq!(search_limit(None), 50);
    assert_eq!(search_limit(Some(1000)), 100);
    assert_eq!(search_limit(Some(20)), 20);
}

#[test]
fn reaction_is_a_toggle() {
    assert_eq!(reaction_after_delete(1), ReactionToggle::Removed);
    assert_eq!(reaction_after_delete(0), ReactionToggle::Insert);
}

#[test]
fn media_list_parameters() {
    assert_eq!(int_param(Some("25"), 50), 25);
    assert_eq!(int_param(Some("abc"), 50), 50);
    assert_eq!(int_param(None, 50), 50);
    let w = chat_media_window(None, None);
    assert_eq!((w.page, w.limit, w.offset), (1, 50, 0));
    let w = chat_media_window(Some("10"), Some("3"));
    assert_eq!((w.page, w.limit, w.offset), (3, 10, 20));
    let w = chat_media_window(Some("x"), Some("2"));
    assert_eq!((w.page, w.limit, w.offset), (2, 50, 50));
}

#[test]
fn remove_user_drops_every_occurrence() {
    assert_eq!(remove_user(vec![1, 2, 1, 3], 1), vec![2, 3]);
    assert_eq!(remove_user(vec![], 1), Vec::<u128>::new());
    assert_eq!(remove_user(vec![2, 3], 1), vec![2, 3]);
}

#[test]
fn channel_registry_keeps_one_channel_per_id() {
    let mut r = ChannelRegistry::new();
    assert!(!r.is_online(1));
    let tx = r.get_or_create(1);
    let mut rx = tx.subscribe();
    assert!(r.is_online(1));
    let _again = r.get_or_create(1);
    r.send_to(1, WsServerEvent::Pong);
    assert!(matches!(rx.try_recv(), Ok(WsServerEvent::Pong)));
    r.send_to_each(&vec![1, 2], &WsServerEvent::Pong);
    assert!(matches!(rx.try_recv(), Ok(WsServerEvent::Pong)));
    r.cleanup(1);
    assert!(r.is_online(1));
    drop(rx);
    r.cleanup(1);
    assert!(!r.is_online(1));
    r.send_to(1, WsServerEvent::Pong);
}

#[test]
fn idle_channel_is_forgotten() {
    let mut r = ChannelRegistry::new();
    let tx = r.get_or_create(4);
    let rx = tx.subscribe();
    r.remove_if_idle(4, 1);
    assert!(r.is_online(4));
    r.remove_if_idle(9, 0);
    r.remove_if_idle(4, 0);
    assert!(!r.is_online(4));
    drop(rx);
}

#[test]
fn one_channel_per_id_and_presence() {
    let mut r = ChannelRegistry::new();
    let first = r.get_or_create(8);
    let mut rx = first.subscribe();
    let second = r.get_or_create(8);
    assert!(first.same_channel(&second));
    let _ = second.send(WsServerEvent::Pong);
    assert!(matches!(rx.try_recv(), Ok(WsServerEvent::Pong)));
    let other = r.get_or_create(9);
    assert!(!other.same_channel(&first));
    assert!(guest_place::messenger::channels::online_of(1));
    assert!(!guest_place::messenger::channels::online_of(0));
    assert!(!r.is_online(9));
}

#[test]
fn recipients_follow_the_listed_users() {
    let mut r = ChannelRegistry::new();
    let one = r.get_or_create(1);
    let two = r.get_or_create(2);
    let targets = r.recipients(&vec![2, 3, 1, 2]);
    assert_eq!(targets.len(), 3);
    assert!(targets[0].same_channel(&two));
    assert!(targets[1].same_channel(&one));
    assert!(targets[2].same_channel(&two));
    assert!(r.channel_of(3).is_none());
    assert!(r.channel_of(1).unwrap().same_channel(&one));
}

#[test]
fn events_go_once_per_listed_channel() {
    let mut r = ChannelRegistry::new();
    let mut rx1 = r.get_or_create(1).subscribe();
    let mut rx2 = r.get_or_create(2).subscribe();
    r.send_to_each(&vec![1, 3, 1], &WsServerEvent::Pong);
    assert!(matches!(rx1.try_recv(), Ok(WsServerEvent::Pong)));
    assert!(matches!(rx1.try_recv(), Ok(WsServerEvent::Pong)));
    assert!(rx1.try_recv().is_err());
    assert!(rx2.try_recv().is_err());
    r.send_to(2, WsServerEvent::Pong);
    r.send_to(3, WsServerEvent::Pong);
    assert!(matches!(rx2.try_recv(), Ok(WsServerEvent::Pong)));
    assert!(rx1.try_recv().is_err());
    assert!(r.channel_of(3).is_none());
}

#[test]
fn direct_chat_is_reused_when_it_exists() {
    let direct = CreateChatDTO { name: None, description: None, chat_type: ChatType::Direct, avatar: None, member_uuids: vec![8] };
    assert_eq!(chat_creation_start(&direct), ChatCreation::FindDirect { other: 8 });
    let group = CreateChatDTO { name: Some("team".to_string()), description: None, chat_type: ChatType::Group, avatar: None, member_uuids: vec![8, 9] };
    assert_eq!(chat_creation_start(&group), ChatCreation::Create);
    assert_eq!(chat_creation_after_lookup(Some(77)), ChatCreation::Reuse(77));
    assert_eq!(chat_creation_after_lookup(None), ChatCreation::Create);
}
