//! A client library for the API of the Mist media server: the commands it
//! takes, the answers it gives, stream configuration and authentication.

pub mod auth;
pub mod commands;
pub mod config;
pub mod digest;
pub mod error;
pub mod number;
pub mod protocol;
pub mod status;
pub mod stream;
pub mod text;
pub mod traits;
pub mod transport;

pub use error::MistError;
pub use stream::{Stream, StreamBuilder, StreamInfo};
