pub mod registration;
