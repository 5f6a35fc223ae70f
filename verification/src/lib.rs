//! Request pipeline of a REST API client: credentialed request building,
//! redirect resolution, response classification and streamed multipart bodies.

pub mod address;
pub mod client;
pub mod comments;
pub mod credentials;
pub mod encoding;
pub mod errors;
pub mod filter;
pub mod multipart;
pub mod request;
pub mod response;
pub mod stream;
pub mod text;
pub mod users;

pub use client::Modio;
pub use credentials::Credentials;
pub use errors::Error;
