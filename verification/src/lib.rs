pub mod api;
pub mod config;
pub mod json;
pub mod middleware;
pub mod models;

pub use api::SpotifyApi;
pub use config::EnvConfig;
