pub mod dto;
pub mod upload;
pub mod edit;
