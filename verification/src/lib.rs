//! Builds the validated collection of portal figures and renders it into the
//! text of each distributable artifact.

pub mod aggregate;
pub mod common;
pub mod javascript;
pub mod json;
pub mod laws;
pub mod rust;
pub mod slug;
pub mod sqlite;
pub mod text;
