//! Identity and access control for the uDevGames site: the identity cache,
//! permission grants, session tokens, the request guards built on them, the
//! OAuth login flow, the permission commands, and the small pieces of page
//! logic around them. Storage, HTTP and cookies belong to the application;
//! the functions here decide what it reads and writes, and say so in their
//! contracts.
pub mod decimal;
pub mod models;
pub mod identity;
pub mod permissions;
pub mod auth;
pub mod guards;
pub mod oauth;
pub mod cliopts;
pub mod cli;
pub mod breadcrumbs;
pub mod error_handlers;
pub mod attachments;
pub mod rich_texts;
pub mod jams;
