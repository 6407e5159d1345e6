pub mod chance;
pub mod commands;
pub mod embed;
pub mod gaia;
pub mod hash;
pub mod inventory;
pub mod items;
pub mod passive;
pub mod queries;
pub mod rake;
pub mod replies;
pub mod shop;
pub mod text;
