//! Guest Place backend: the request rules, text formats, pagination and
//! messaging protocol of the server, each stated as a contract and proved.

pub mod text;
pub mod ids;
pub mod common;
pub mod auth;
pub mod i18n;
pub mod messenger;
pub mod media;
pub mod user;
pub mod mailer;
pub mod cors;
