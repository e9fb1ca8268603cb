use guest_place::mailer::registration::{compose_registration_mail, registration_link, registration_mail, MailAddressError};

#[test]
fn registration_link_carries_the_key() {
    assert_eq!(registration_link("https://app.example.com", "abc123"), "https://app.example.com/confirm-register?key=abc123");
}

#[test]
fn registration_mail_text() {
    let m = registration_mail("ann@example.com", "k1", "https://app.example.com", "Guest Place <noreply@example.com>").ok().unwrap();
    assert_eq!(m.subject, "Подтвердите регистрацию");
    assert_eq!(
        m.body,
        "Здравствуйте!\n\nПерейдите по ссылке, чтобы завершить регистрацию:\nhttps://app.example.com/confirm-register?key=k1\n\nСсылка действительна 24 часа."
    );
    assert_eq!(m.to, "ann@example.com");
    assert_eq!(m.from, "Guest Place <noreply@example.com>");
}

#[test]
fn registration_mail_checks_sender_first() {
    assert!(matches!(registration_mail("not an address", "k", "u", "also bad"), Err(MailAddressError::From)));
    assert!(matches!(registration_mail("not an address", "k", "u", "noreply@example.com"), Err(MailAddressError::To)));
}

#[test]
fn composing_with_known_address_checks() {
    assert!(matches!(compose_registration_mail(false, true, "a@b.c", "k", "u", "x"), Err(MailAddressError::From)));
    assert!(matches!(compose_registration_mail(true, false, "a@b.c", "k", "u", "x"), Err(MailAddressError::To)));
    let m = compose_registration_mail(true, true, "a@b.c", "k", "u", "x").ok().unwrap();
    assert_eq!(m.body, "Здравствуйте!\n\nПерейдите по ссылке, чтобы завершить регистрацию:\nu/confirm-register?key=k\n\nСсылка действительна 24 часа.");
}
