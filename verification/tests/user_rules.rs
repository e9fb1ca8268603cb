use guest_place::user::contact::{validate_email, validate_phone};
use argon2::PasswordVerifier;
use guest_place::user::password::{hash_password, PasswordHashError};
use guest_place::user::create::{new_user_step, NewUserAction, NewUserEvent, NewUserReply, NewUserState};
use guest_place::user::profile::{avatar_url, user_search_pattern};
use guest_place::user::update::{may_change_user, user_update_sql, UserUpdateFields};

fn no_fields() -> UserUpdateFields {
    UserUpdateFields {
        email: false,
        phone: false,
        first_name: false,
        second_name: false,
        last_name: false,
        birth_date: false,
        role: false,
        status: false,
        avatar: false,
        street: false,
        gender: false,
        city: false,
        avatar_uuid: false,
    }
}

#[test]
fn update_without_fields_is_refused() {
    assert_eq!(user_update_sql(&no_fields()), None);
}

#[test]
fn update_sets_the_present_fields_in_order() {
    let mut f = no_fields();
    f.city = true;
    f.email = true;
    assert_eq!(
        user_update_sql(&f),
        Some("UPDATE guest_user SET email = $1, city = $2, updated_at = NOW() WHERE uuid = $3".to_string())
    );
    let mut f = no_fields();
    f.avatar_uuid = true;
    assert_eq!(
        user_update_sql(&f),
        Some("UPDATE guest_user SET avatar_uuid = $1::uuid, updated_at = NOW() WHERE uuid = $2".to_string())
    );
}

#[test]
fn update_with_every_field() {
    let f = UserUpdateFields {
        email: true,
        phone: true,
        first_name: true,
        second_name: true,
        last_name: true,
        birth_date: true,
        role: true,
        status: true,
        avatar: true,
        street: true,
        gender: true,
        city: true,
        avatar_uuid: true,
    };
    assert_eq!(
        user_update_sql(&f),
        Some(
            "UPDATE guest_user SET email = $1, phone = $2, first_name = $3, second_name = $4, last_name = $5, \
birth_date = $6, role = $7, status = $8, avatar = $9, street = $10, gender = $11, city = $12, \
avatar_uuid = $13::uuid, updated_at = NOW() WHERE uuid = $14"
                .to_string()
        )
    );
}

#[test]
fn only_the_owner_changes_an_account() {
    assert!(may_change_user(3, 3));
    assert!(!may_change_user(3, 4));
}

#[test]
fn avatar_url_of_a_profile() {
    assert_eq!(
        avatar_url("https://api.example.com", Some(0x67e55044_10b1_426f_9247_bb680e5fe0c8)),
        Some("https://api.example.com/media/image/67e55044-10b1-426f-9247-bb680e5fe0c8.png".to_string())
    );
    assert_eq!(avatar_url("https://api.example.com", None), None);
}

#[test]
fn user_search_pattern_skips_empty_search() {
    assert_eq!(user_search_pattern(Some("ann")), Some("%ann%".to_string()));
    assert_eq!(user_search_pattern(Some("")), None);
    assert_eq!(user_search_pattern(None), None);
}

fn create(email_valid: bool, phone: Option<bool>, phone_count: Option<i64>, email_count: Option<i64>, hashed: bool, inserted: bool) -> (NewUserReply, Vec<NewUserAction>) {
    let mut state = NewUserState::Start;
    let mut event = NewUserEvent::Checked { email_valid, phone_valid: phone };
    let mut actions = Vec::new();
    loop {
        let (next, action) = new_user_step(state, event);
        actions.push(action);
        state = next;
        event = match action {
            NewUserAction::CountPhone => NewUserEvent::Count(phone_count),
            NewUserAction::CountEmail => NewUserEvent::Count(email_count),
            NewUserAction::HashPassword => NewUserEvent::Hashed(hashed),
            NewUserAction::InsertUser => NewUserEvent::Inserted(inserted),
            NewUserAction::Respond(reply) => return (reply, actions),
        };
    }
}

#[test]
fn user_creation_succeeds_when_every_check_passes() {
    let (reply, actions) = create(true, Some(true), Some(0), Some(0), true, true);
    assert_eq!(reply, NewUserReply::Created);
    assert_eq!(
        actions,
        vec![
            NewUserAction::CountPhone,
            NewUserAction::CountEmail,
            NewUserAction::HashPassword,
            NewUserAction::InsertUser,
            NewUserAction::Respond(NewUserReply::Created)
        ]
    );
    let (reply, actions) = create(true, None, None, Some(0), true, true);
    assert_eq!(reply, NewUserReply::Created);
    assert_eq!(actions[0], NewUserAction::CountEmail);
}

#[test]
fn user_creation_stops_at_the_first_failed_check() {
    assert_eq!(create(false, Some(false), None, None, true, true).0, NewUserReply::EmailInvalid);
    assert_eq!(create(true, Some(false), None, None, true, true).0, NewUserReply::PhoneInvalid);
    assert_eq!(create(true, Some(true), Some(1), Some(1), true, true).0, NewUserReply::PhoneExists);
    assert_eq!(create(true, Some(true), None, Some(0), true, true).0, NewUserReply::CheckFailed);
    assert_eq!(create(true, None, None, Some(2), true, true).0, NewUserReply::EmailExists);
    assert_eq!(create(true, None, None, None, true, true).0, NewUserReply::CheckFailed);
    assert_eq!(create(true, None, None, Some(0), false, true).0, NewUserReply::HashFailed);
    assert_eq!(create(true, None, None, Some(0), true, false).0, NewUserReply::DatabaseError);
}

#[test]
fn user_creation_answers() {
    assert_eq!(NewUserReply::Created.status(), 201);
    assert_eq!(NewUserReply::Created.field(), None);
    assert_eq!(NewUserReply::Created.message_key(), "user.created");
    assert_eq!(NewUserReply::PhoneExists.status(), 409);
    assert_eq!(NewUserReply::PhoneExists.field(), Some("phone"));
    assert_eq!(NewUserReply::EmailInvalid.status(), 400);
    assert_eq!(NewUserReply::EmailInvalid.message_key(), "user.email_invalid");
    assert_eq!(NewUserReply::HashFailed.field(), Some("password"));
    assert_eq!(NewUserReply::CheckFailed.message_key(), "user.check_exists_error");
    assert_eq!(NewUserReply::DatabaseError.message_key(), "general.db_error");
    assert_eq!(NewUserReply::DatabaseError.status(), 500);
}

#[test]
fn avatar_media_preview() {
    let m = guest_place::user::profile::avatar_media("https://x.io", Some(1)).unwrap();
    assert_eq!(m.url, "https://x.io/media/image/00000000-0000-0000-0000-000000000001.png");
    assert_eq!(m.media_type, Some("image".to_string()));
    assert!(m.alt.is_none() && m.title.is_none());
    assert!(guest_place::user::profile::avatar_media("https://x.io", None).is_none());
}

#[test]
fn password_hash_depends_on_password_and_salt() {
    let h = hash_password("s3cret", "c29tZXNhbHQ").unwrap();
    assert!(h.starts_with("$argon2id$v=19$"));
    assert!(h.contains("$c29tZXNhbHQ$"));
    assert_eq!(hash_password("s3cret", "c29tZXNhbHQ").unwrap(), h);
    assert_ne!(hash_password("other", "c29tZXNhbHQ").unwrap(), h);
    assert_ne!(hash_password("s3cret", "YW5vdGhlcnNhbHQ").unwrap(), h);
    let parsed = argon2::PasswordHash::new(&h).unwrap();
    assert!(argon2::Argon2::default().verify_password(b"s3cret", &parsed).is_ok());
    assert!(argon2::Argon2::default().verify_password(b"wrong", &parsed).is_err());
    assert_eq!(hash_password("s3cret", "!"), Err(PasswordHashError::Refused));
}

#[test]
fn contact_format_checks() {
    assert!(validate_email("ann@example.com"));
    assert!(!validate_email("ann.example.com"));
    assert!(!validate_email("Ann <ann@example.com>"));
    assert!(validate_phone("+79123456789"));
    assert!(validate_phone("0123"));
    assert!(!validate_phone("+"));
    assert!(!validate_phone(""));
    assert!(!validate_phone("+7 912"));
    assert!(!validate_phone("12-34"));
}
