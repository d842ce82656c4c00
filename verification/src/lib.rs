pub mod command;
pub mod filter;
pub mod image;
pub mod image_utils;
pub mod messages;
pub mod palette;
pub mod settings;
pub mod thermal;
pub mod transport;
