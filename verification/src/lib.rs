pub mod decoder;
pub mod register;
