pub mod dto;
pub mod pagination;
pub mod utils;
pub mod db;
pub mod sql;
