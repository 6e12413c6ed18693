//! The blog's own routes.

pub mod get;
pub mod post;
pub mod signup;
