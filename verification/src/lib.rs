pub mod auth;
pub mod database;
pub mod language_tag;
pub mod routes;
pub mod slug;
pub mod storage;
