pub mod contact;
pub mod create;
pub mod password;
pub mod update;
pub mod profile;
