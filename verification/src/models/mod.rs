pub mod spotify_token;

pub use spotify_token::SpotifyToken;
pub use spotify_token::SpotifyTokenError;
