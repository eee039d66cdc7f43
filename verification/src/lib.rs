//! Decisions of a small command-line client that signs a user in to a music
//! streaming service with the OAuth2 authorization-code flow, keeps the
//! refresh secret in a local file, and on later runs uses it to fetch one
//! playlist.
//!
//! Everything here is pure: reading environment variables, the terminal and
//! the token file, and talking to the service, is left to the program that
//! drives [`workflow`].

pub mod callback;
pub mod prompt;
pub mod session;
pub mod token;
pub mod workflow;
