//! A client model for the z/OSMF REST interface.

pub mod auth;
pub mod error;
pub mod files;
pub mod info;
pub mod jobs;
pub mod jobs_core;
pub mod request;
pub mod restfiles;
pub mod system_variables;
pub mod text;
pub mod utils;
pub mod variables;
pub mod workflows;
pub mod zosmf;

pub use auth::AuthToken;
pub use error::Error;
pub use zosmf::ZOsmf;
