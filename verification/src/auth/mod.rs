pub mod dto;
pub mod token;
pub mod utils;
