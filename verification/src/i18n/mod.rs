pub mod cache;
pub mod dto;
pub mod locale;

pub mod lookup;
pub mod dictionary;
