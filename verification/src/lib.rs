//! A static site generator's build pipeline: post documents are split into
//! front matter and body, turned into posts, kept in a registry ordered by
//! publication date, and rendered through named templates into output files.
//! The decisions of a build pass are functions from state and event to next
//! state and action; reading and writing files, compiling stylesheets and
//! rendering templates are left to the caller.

pub mod blog;
pub mod date;
pub mod document;
pub mod error;
pub mod io;
pub mod metadata;
pub mod rebuild;
pub mod stylesheet;
pub mod template;
pub mod text;
pub mod watch;
