pub mod assoc_map;
pub mod auth;
pub mod avif_image_handler;
pub mod crypto;
pub mod env_thingy;
pub mod id_handling;
pub mod login;
pub mod parse;
pub mod products;
pub mod server;
pub mod sqlite_serv;
pub mod status;
pub mod text;
