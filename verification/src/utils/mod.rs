pub mod date_utils;
pub mod text;
