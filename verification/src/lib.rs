//! Core of a static file-serving middleware.
//!
//! Two stateless handlers are meant to stand in an ordered chain kept by a
//! host web framework. `Static` maps a request path to a file below a
//! configured root directory; `Favicon` serves one configured file to every
//! request whose path ends in `/favicon.ico`. Each handler step returns a
//! [`Status`] telling the host whether the response is complete or the next
//! handler in the chain should run.
//!
//! The handlers themselves never touch the filesystem: a caller first asks
//! where a request resolves, reads that file itself, and hands the read
//! result back to finish the step. Every decision in between is verified.

pub mod digits;
pub mod handlers;
pub mod paths;
pub mod response;

pub use handlers::Favicon;
pub use handlers::FaviconModel;
pub use handlers::Static;
pub use response::Body;
pub use response::BodyModel;
pub use response::Response;
pub use response::ResponseModel;
pub use response::Status;
