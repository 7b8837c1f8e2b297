//! The claims carried by the bearer tokens that open a session.

pub mod audience;
pub mod jwt_data;
pub mod jwt_token;
pub mod websocket_token;

pub use audience::Audience;
pub use jwt_data::JWTPlayerData;
pub use jwt_token::{JWTToken, PlayerToken, ViewerToken, JWT_EXPIRATION_MIN, JWT_ISSUER};
