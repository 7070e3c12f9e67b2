//! The service logic behind the HTTP handlers: products, images, 3D models,
//! users and their rights.
pub mod db_merge;
pub mod sending_data;
pub mod foto;
pub mod model;
pub mod user;
pub mod auth;
pub mod product;
pub mod image_handling;
pub mod handler;
pub mod odleglosci_mapa;
