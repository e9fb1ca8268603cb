pub mod dto;
pub mod chat;
pub mod message;
pub mod socket;
pub mod channels;
pub mod socket_laws;
