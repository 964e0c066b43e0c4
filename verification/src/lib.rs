//! Client for the legacy Mojang account service: request builders for the
//! five operations, and the reading of the server's answers.

pub mod address;
pub mod auth;
pub mod consts;
pub mod error;
pub mod exchange;
pub mod invalidate;
pub mod properties;
pub mod refresh;
pub mod signout;
pub mod types;
pub mod validate;
pub mod wire;

pub use error::{ApiError, Error};
