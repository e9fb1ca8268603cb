//! The registration e-mail: its link, its text, and its addresses.

use vstd::prelude::*;
use crate::text::push_str;

verus! {

/// Whether `lettre` reads `s` as a mailbox (`Mailbox::from_str`: an
/// address, optionally with a display name).
pub uninterp spec fn mailbox_accepted(s: Seq<char>) -> bool;

/// Calls `s.parse::<lettre::message::Mailbox>()` and tells whether it
/// succeeded.
#[verifier::external_body]
fn parses_as_mailbox(s: &str) -> (b: bool)
    ensures
        b == mailbox_accepted(s@),
{
    s.parse::<lettre::message::Mailbox>().is_ok()
}

/// The link that completes a registration:
/// `{frontend_url}/confirm-register?key={token}`.
pub open spec fn registration_link_of(frontend_url: Seq<char>, token: Seq<char>) -> Seq<char> {
    frontend_url + "/confirm-register?key="@ + token
}

/// Builds [`registration_link_of`].
pub fn registration_link(frontend_url: &str, token: &str) -> (l: String)
    ensures
        l@ == registration_link_of(frontend_url@, token@),
{
    let mut l = String::from_str(frontend_url);
    push_str(&mut l, "/confirm-register?key=");
    push_str(&mut l, token);
    l
}

/// The subject of the registration e-mail.
pub open spec fn registration_subject() -> Seq<char> {
    "Подтвердите регистрацию"@
}

/// The text of the registration e-mail around its link.
pub open spec fn registration_body_of(link: Seq<char>) -> Seq<char> {
    "Здравствуйте!\n\nПерейдите по ссылке, чтобы завершить регистрацию:\n"@ + link
        + "\n\nСсылка действительна 24 часа."@
}

/// Which address of the e-mail `lettre` refused.
#[derive(Clone, Copy, Debug, PartialEq, Eq, Structural)]
pub enum MailAddressError {
    From,
    To,
}

/// A registration e-mail ready to be handed to the SMTP transport.
pub struct RegistrationMail {
    pub from: String,
    pub to: String,
    pub subject: String,
    pub body: String,
}

/// Composes the registration e-mail to `to_email` for `token`, given
/// whether `lettre` accepted the sender and the recipient address: a refused
/// sender is reported first.
pub fn compose_registration_mail(
    from_accepted: bool,
    to_accepted: bool,
    to_email: &str,
    token: &str,
    frontend_url: &str,
    smtp_from: &str,
) -> (r: Result<RegistrationMail, MailAddressError>)
    ensures
        !from_accepted <==> r == Err::<RegistrationMail, MailAddressError>(MailAddressError::From),
        from_accepted && !to_accepted <==> r == Err::<RegistrationMail, MailAddressError>(MailAddressError::To),
        match r {
            Ok(m) => {
                &&& from_accepted
                &&& to_accepted
                &&& m.from@ == smtp_from@
                &&& m.to@ == to_email@
                &&& m.subject@ == registration_subject()
                &&& m.body@ == registration_body_of(registration_link_of(frontend_url@, token@))
            },
            Err(_) => true,
        },
{
    if !from_accepted {
        return Err(MailAddressError::From);
    }
    if !to_accepted {
        return Err(MailAddressError::To);
    }
    let link = registration_link(frontend_url, token);
    let mut body = String::from_str("Здравствуйте!\n\nПерейдите по ссылке, чтобы завершить регистрацию:\n");
    push_str(&mut body, link.as_str());
    push_str(&mut body, "\n\nСсылка действительна 24 часа.");
    Ok(RegistrationMail {
        from: String::from_str(smtp_from),
        to: String::from_str(to_email),
        subject: String::from_str("Подтвердите регистрацию"),
        body,
    })
}

/// Composes the registration e-mail to `to_email` for `token`, checking
/// both addresses with `lettre`: the sender first, then the recipient.
pub fn registration_mail(to_email: &str, token: &str, frontend_url: &str, smtp_from: &str) -> (r: Result<
    RegistrationMail,
    MailAddressError,
>)
    ensures
        !mailbox_accepted(smtp_from@) <==> r == Err::<RegistrationMail, MailAddressError>(MailAddressError::From),
        mailbox_accepted(smtp_from@) && !mailbox_accepted(to_email@) <==> r == Err::<RegistrationMail, MailAddressError>(MailAddressError::To),
        match r {
            Ok(m) => {
                &&& mailbox_accepted(smtp_from@)
                &&& mailbox_accepted(to_email@)
                &&& m.from@ == smtp_from@
                &&& m.to@ == to_email@
                &&& m.subject@ == registration_subject()
                &&& m.body@ == registration_body_of(registration_link_of(frontend_url@, token@))
            },
            Err(_) => true,
        },
{
    let from_accepted = parses_as_mailbox(smtp_from);
    let to_accepted = parses_as_mailbox(to_email);
    compose_registration_mail(from_accepted, to_accepted, to_email, token, frontend_url, smtp_from)
}

} // verus!
