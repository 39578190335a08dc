//! The local leg of an OAuth implicit-grant flow for a desktop application.
//!
//! The OAuth provider redirects the browser to a loopback URL once the user
//! has granted access. A listener on that URL answers every request with one
//! fixed page. The token is in the fragment of the redirect URL, which never
//! reaches a server, so the page's script reads it in the browser and hands
//! the whole URL to the clipboard for the application to pick up.
//!
//! - [`config`]: the port, the address to bind and the redirect URL.
//! - [`listener`]: the listener as a state machine, and its one response.
//! - [`http`]: that response as a `tiny_http` value.
//! - [`page`]: the page.
//! - [`script`]: what the page's script decides for a loaded URL.
//! - [`decimal`], [`text`]: numerals and searching, as the others need them.

pub mod config;
pub mod decimal;
pub mod http;
pub mod listener;
pub mod page;
pub mod script;
pub mod text;
